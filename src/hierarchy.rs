use vstd::prelude::*;

verus! {

/// What the force system knows of one entity of the physics hierarchy. An
/// entity is named by its index in the slice of nodes that holds it; a parent
/// index outside that slice names an entity that the force system does not see.
#[derive(Debug, PartialEq, Eq, Structural, Clone, Copy)]
pub struct ForceNode {
    /// The entity this one is attached to, if any.
    pub parent: Option<usize>,
    /// Whether the entity carries an external force of its own.
    pub has_force: bool,
}

/// The entity that the walk up the hierarchy moves to from `e`: its parent,
/// provided that `e` is seen, carries a force and has a parent at all.
pub open spec fn step_up(nodes: Seq<ForceNode>, e: usize) -> Option<usize> {
    if e < nodes.len() && nodes[e as int].has_force {
        nodes[e as int].parent
    } else {
        None
    }
}

/// The entities above `e`, nearest first, met in at most `steps` steps up.
pub open spec fn chain_above(nodes: Seq<ForceNode>, e: usize, steps: nat) -> Seq<usize>
    decreases steps,
{
    if steps == 0 {
        seq![]
    } else {
        match step_up(nodes, e) {
            Some(p) => seq![p] + chain_above(nodes, p, (steps - 1) as nat),
            None => seq![],
        }
    }
}

/// The entities whose summed force must be recomputed when a child of `start`
/// changed its force: `start` itself, then each ancestor up to the top of the
/// hierarchy. The walk takes at most one step per entity, which every chain of
/// an acyclic hierarchy stays within.
pub open spec fn update_chain(nodes: Seq<ForceNode>, start: usize) -> Seq<usize> {
    seq![start] + chain_above(nodes, start, nodes.len())
}

/// The chains of all the given starting entities, one after the other.
pub open spec fn update_chains(nodes: Seq<ForceNode>, starts: Seq<usize>) -> Seq<usize>
    decreases starts.len(),
{
    if starts.len() == 0 {
        seq![]
    } else {
        update_chains(nodes, starts.drop_last()) + update_chain(nodes, starts.last())
    }
}

/// A hierarchy without cycles, witnessed by a depth for each entity: every
/// depth is below the number of entities, and the parent that the walk moves
/// to, when it is seen, sits at a smaller depth than its child.
pub open spec fn ranked_by(nodes: Seq<ForceNode>, depth: Seq<nat>) -> bool {
    &&& depth.len() == nodes.len()
    &&& forall|e: int|
        0 <= e < nodes.len() ==> #[trigger] depth[e] < nodes.len() && (step_up(nodes, e as usize) matches Some(p)
            ==> (p < nodes.len() ==> depth[p as int] < depth[e]))
}

proof fn lemma_chain_ends_at_top(nodes: Seq<ForceNode>, depth: Seq<nat>, e: usize, steps: nat)
    requires
        ranked_by(nodes, depth),
        e < nodes.len() ==> depth[e as int] < steps,
    ensures
        chain_above(nodes, e, steps).len() == 0 ==> step_up(nodes, e) is None,
        chain_above(nodes, e, steps).len() > 0 ==> step_up(nodes, chain_above(nodes, e, steps).last()) is None,
    decreases steps,
{
    if steps > 0 {
        if let Some(p) = step_up(nodes, e) {
            assert(e < nodes.len());
            let rest = chain_above(nodes, p, (steps - 1) as nat);
            lemma_chain_ends_at_top(nodes, depth, p, (steps - 1) as nat);
            if rest.len() > 0 {
                assert((seq![p] + rest).last() == rest.last());
            }
        }
    } else {
        if e < nodes.len() {
            assert(depth[e as int] < steps);
        }
    }
}

/// In a hierarchy without cycles the walk always reaches the top: the last
/// entity of an update chain has no parent that the walk could move to, so
/// no ancestor is ever left out.
pub proof fn lemma_update_chain_reaches_top(nodes: Seq<ForceNode>, depth: Seq<nat>, start: usize)
    requires
        ranked_by(nodes, depth),
    ensures
        step_up(nodes, update_chain(nodes, start).last()) is None,
{
    if start < nodes.len() {
        assert(depth[start as int] < nodes.len());
    }
    lemma_chain_ends_at_top(nodes, depth, start, nodes.len() as nat);
    let rest = chain_above(nodes, start, nodes.len() as nat);
    if rest.len() > 0 {
        assert((seq![start] + rest).last() == rest.last());
    } else {
        assert((seq![start] + rest).last() == start);
    }
}

/// Walks from `start` up the hierarchy and lists the entities whose summed
/// force is stale.
pub fn force_update_chain(nodes: &Vec<ForceNode>, start: usize) -> (r: Vec<usize>)
    ensures
        r@ == update_chain(nodes@, start),
{
    let mut chain: Vec<usize> = Vec::new();
    chain.push(start);
    let mut cur: usize = start;
    let mut steps: usize = nodes.len();
    let mut done: bool = false;
    assert(chain@ =~= seq![start]);
    while !done && steps > 0
        invariant
            steps <= nodes@.len(),
            done ==> chain_above(nodes@, cur, steps as nat) == Seq::<usize>::empty(),
            chain@ + chain_above(nodes@, cur, steps as nat) == update_chain(nodes@, start),
        decreases steps + if done { 0int } else { 1int },
    {
        let up: Option<usize> = if cur < nodes.len() && nodes[cur].has_force {
            nodes[cur].parent
        } else {
            None
        };
        match up {
            Some(p) => {
                let ghost before = chain@;
                assert(chain_above(nodes@, cur, steps as nat) == seq![p] + chain_above(
                    nodes@,
                    p,
                    (steps - 1) as nat,
                ));
                chain.push(p);
                assert(chain@ + chain_above(nodes@, p, (steps - 1) as nat) =~= before + (seq![p]
                    + chain_above(nodes@, p, (steps - 1) as nat)));
                cur = p;
                steps = steps - 1;
            },
            None => {
                done = true;
            },
        }
    }
    assert(chain@ + chain_above(nodes@, cur, steps as nat) =~= chain@);
    chain
}

/// Lists, for every entity whose child changed its force, that entity and all
/// its ancestors: the entities whose summed force is to be recomputed this frame.
pub fn external_force_to_update(nodes: &Vec<ForceNode>, starts: &Vec<usize>) -> (r: Vec<usize>)
    ensures
        r@ == update_chains(nodes@, starts@),
{
    let mut out: Vec<usize> = Vec::new();
    let mut i: usize = 0;
    while i < starts.len()
        invariant
            i <= starts@.len(),
            out@ == update_chains(nodes@, starts@.subrange(0, i as int)),
        decreases starts@.len() - i,
    {
        let mut chain = force_update_chain(nodes, starts[i]);
        let ghost before = out@;
        out.append(&mut chain);
        assert(starts@.subrange(0, i + 1).drop_last() =~= starts@.subrange(0, i as int));
        assert(out@ == update_chains(nodes@, starts@.subrange(0, i + 1)));
        i = i + 1;
    }
    assert(starts@.subrange(0, starts@.len() as int) =~= starts@);
    out
}

} // verus!
