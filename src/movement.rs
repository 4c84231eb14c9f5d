use vstd::prelude::*;

verus! {

/// The axes along which a ship's engines act.
#[derive(Debug, PartialEq, Eq, Structural, Hash, Clone, Copy)]
pub enum Axis {
    /// Forward and backward thrust.
    Main,
    /// Sideways thrust.
    Sway,
    /// Turning.
    Rotation,
}

/// The sign of throttle on which an engine effect shows.
#[derive(Debug, PartialEq, Eq, Structural, Hash, Clone, Copy)]
pub enum ThrottleSign {
    Positive,
    Negative,
}

/// The visual effects that accompany a ship's engines.
#[derive(Debug, PartialEq, Eq, Structural, Hash, Clone, Copy)]
pub enum EngineEffect {
    Forward,
    Backward,
    SwayLeft,
    SwayRight,
    RotateLeft,
    RotateRight,
}

/// The axis whose throttle an effect watches.
pub open spec fn effect_axis(e: EngineEffect) -> Axis {
    match e {
        EngineEffect::Forward | EngineEffect::Backward => Axis::Main,
        EngineEffect::SwayLeft | EngineEffect::SwayRight => Axis::Sway,
        EngineEffect::RotateLeft | EngineEffect::RotateRight => Axis::Rotation,
    }
}

/// The sign of throttle on which an effect shows: forward thrust, a sway to
/// the left and a turn to the right push the throttle up; the others pull it
/// down.
pub open spec fn effect_sign(e: EngineEffect) -> ThrottleSign {
    match e {
        EngineEffect::Forward | EngineEffect::SwayLeft | EngineEffect::RotateRight => ThrottleSign::Positive,
        EngineEffect::Backward | EngineEffect::SwayRight | EngineEffect::RotateLeft => ThrottleSign::Negative,
    }
}

impl EngineEffect {
    pub fn axis(&self) -> (r: Axis)
        ensures
            r == effect_axis(*self),
    {
        match self {
            EngineEffect::Forward | EngineEffect::Backward => Axis::Main,
            EngineEffect::SwayLeft | EngineEffect::SwayRight => Axis::Sway,
            EngineEffect::RotateLeft | EngineEffect::RotateRight => Axis::Rotation,
        }
    }

    pub fn sign(&self) -> (r: ThrottleSign)
        ensures
            r == effect_sign(*self),
    {
        match self {
            EngineEffect::Forward | EngineEffect::SwayLeft | EngineEffect::RotateRight => ThrottleSign::Positive,
            EngineEffect::Backward | EngineEffect::SwayRight | EngineEffect::RotateLeft => ThrottleSign::Negative,
        }
    }
}

/// Each axis has exactly two effects, one for either sign of its throttle.
pub proof fn lemma_effects_pair_up(a: EngineEffect, b: EngineEffect)
    ensures
        effect_axis(a) == effect_axis(b) && effect_sign(a) == effect_sign(b) ==> a == b,
{
}

} // verus!
