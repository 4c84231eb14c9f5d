use asteroid_shooter::common::Layer;
use asteroid_shooter::movement::{Axis, EngineEffect, ThrottleSign};

#[test]
fn layers_stack_in_order() {
    assert_eq!(Layer::BackgroundLow.depth(), 0);
    assert_eq!(Layer::BackgroundMiddle.depth(), 1);
    assert_eq!(Layer::BackgroundHigh.depth(), 2);
    assert_eq!(Layer::Main.depth(), 3);
    assert_eq!(Layer::Effects.depth(), 4);
}

#[test]
fn effects_watch_their_axis() {
    assert_eq!(EngineEffect::Forward.axis(), Axis::Main);
    assert_eq!(EngineEffect::Backward.axis(), Axis::Main);
    assert_eq!(EngineEffect::SwayLeft.axis(), Axis::Sway);
    assert_eq!(EngineEffect::SwayRight.axis(), Axis::Sway);
    assert_eq!(EngineEffect::RotateLeft.axis(), Axis::Rotation);
    assert_eq!(EngineEffect::RotateRight.axis(), Axis::Rotation);
}

#[test]
fn effects_show_on_their_sign() {
    assert_eq!(EngineEffect::Forward.sign(), ThrottleSign::Positive);
    assert_eq!(EngineEffect::Backward.sign(), ThrottleSign::Negative);
    assert_eq!(EngineEffect::SwayLeft.sign(), ThrottleSign::Positive);
    assert_eq!(EngineEffect::SwayRight.sign(), ThrottleSign::Negative);
    assert_eq!(EngineEffect::RotateLeft.sign(), ThrottleSign::Negative);
    assert_eq!(EngineEffect::RotateRight.sign(), ThrottleSign::Positive);
}
