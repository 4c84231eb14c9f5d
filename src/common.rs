use vstd::prelude::*;

verus! {

/// The drawing layers of the scene, from the farthest to the nearest.
#[derive(Debug, PartialEq, Eq, Structural, Hash, Clone, Copy)]
pub enum Layer {
    BackgroundLow,
    BackgroundMiddle,
    BackgroundHigh,
    Main,
    Effects,
}

/// The depth a layer is drawn at: its position in the order of declaration.
pub open spec fn layer_depth(layer: Layer) -> int {
    match layer {
        Layer::BackgroundLow => 0,
        Layer::BackgroundMiddle => 1,
        Layer::BackgroundHigh => 2,
        Layer::Main => 3,
        Layer::Effects => 4,
    }
}

impl Layer {
    /// The depth this layer is drawn at; a greater depth is drawn on top.
    pub fn depth(&self) -> (r: i32)
        ensures
            r == layer_depth(*self),
    {
        match self {
            Layer::BackgroundLow => 0,
            Layer::BackgroundMiddle => 1,
            Layer::BackgroundHigh => 2,
            Layer::Main => 3,
            Layer::Effects => 4,
        }
    }
}

/// The layers stack as declared: the three backgrounds from low to high, the
/// main layer above them and the effects on top; no two share a depth.
pub proof fn lemma_layers_stack(a: Layer, b: Layer)
    ensures
        layer_depth(Layer::BackgroundLow) < layer_depth(Layer::BackgroundMiddle),
        layer_depth(Layer::BackgroundMiddle) < layer_depth(Layer::BackgroundHigh),
        layer_depth(Layer::BackgroundHigh) < layer_depth(Layer::Main),
        layer_depth(Layer::Main) < layer_depth(Layer::Effects),
        layer_depth(a) == layer_depth(b) <==> a == b,
{
}

/// How an entity marked for removal is removed.
#[derive(Debug, PartialEq, Eq, Structural, Hash, Clone, Copy)]
pub enum Despawn {
    /// The entity alone.
    Normal,
    /// The entity together with all its descendants.
    Recursive,
}

} // verus!
