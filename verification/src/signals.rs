//! Tagged-variant utilities: a traffic-light cycle and a message
//! classifier.

use vstd::prelude::*;

verus! {

/// The lights of a traffic signal.
#[derive(PartialEq, Eq, Structural, Clone, Copy, Debug)]
pub enum TrafficLight {
    Red,
    Yellow,
    Green,
}

impl TrafficLight {
    /// The light that follows this one in the cycle
    /// red → green → yellow → red.
    pub fn next(&self) -> (r: TrafficLight)
        ensures
            *self is Red ==> r is Green,
            *self is Green ==> r is Yellow,
            *self is Yellow ==> r is Red,
    {
        match self {
            TrafficLight::Red => TrafficLight::Green,
            TrafficLight::Yellow => TrafficLight::Red,
            TrafficLight::Green => TrafficLight::Yellow,
        }
    }

    /// How long the light stays on, in seconds.
    pub fn duration_seconds(&self) -> (r: u32)
        ensures
            *self is Red ==> r == 60,
            *self is Yellow ==> r == 5,
            *self is Green ==> r == 45,
    {
        match self {
            TrafficLight::Red => 60,
            TrafficLight::Yellow => 5,
            TrafficLight::Green => 45,
        }
    }
}

/// A user-interface message.
pub enum Message {
    Quit,
    Move { x: i32, y: i32 },
    Write(String),
    ChangeColor(i32, i32, i32),
}

impl Message {
    /// The name of the message's variant.
    pub fn message_type(&self) -> (r: &'static str)
        ensures
            *self is Quit ==> r@ == "Quit"@,
            *self is Move ==> r@ == "Move"@,
            *self is Write ==> r@ == "Write"@,
            *self is ChangeColor ==> r@ == "ChangeColor"@,
    {
        match self {
            Message::Quit => "Quit",
            Message::Move { .. } => "Move",
            Message::Write(_) => "Write",
            Message::ChangeColor(_, _, _) => "ChangeColor",
        }
    }
}

} // verus!
