use vstd::prelude::*;

use crate::direction::{Direction, InOut, Repeat};

verus! {

/// Fractional quantities (motion deltas, pinch scale, pointer acceleration,
/// rotation) are fixed-point numbers in millionths: `FIXED_ONE` stands for 1.0.
pub const FIXED_ONE: i64 = 1_000_000;

/// Pointer acceleration of a wildcard swipe unless configured otherwise (1.5).
pub const DEFAULT_ACCELERATION: i64 = 1_500_000;

/// Delay in milliseconds before the emulated button is released (900 ms).
pub const DEFAULT_MOUSE_UP_DELAY: i64 = 900;

/// A configured swipe: a direction filter, a finger count and the commands to
/// run at start, on each update and at the end. A wildcard (`Direction::Any`)
/// swipe drags the pointer instead, moving it by the motion times
/// `acceleration` and releasing the button `mouse_up_delay` ms after the end.
#[derive(Debug, Clone, PartialEq, Eq)]
pub struct Swipe {
    pub direction: Direction,
    pub fingers: i32,
    pub update: Option<String>,
    pub start: Option<String>,
    pub end: Option<String>,
    pub acceleration: i64,
    pub mouse_up_delay: i64,
}

/// A configured pinch: a finger count, an in/out filter and three commands.
#[derive(Debug, Clone, PartialEq, Eq)]
pub struct Pinch {
    pub fingers: i32,
    pub direction: InOut,
    pub update: Option<String>,
    pub start: Option<String>,
    pub end: Option<String>,
}

/// A configured hold: a finger count and the command run when it ends.
#[derive(Debug, Clone, PartialEq, Eq)]
pub struct Hold {
    pub fingers: i32,
    pub action: String,
}

/// A configured rotation. It is part of the configuration but no event
/// dispatches to it.
#[derive(Debug, Clone, PartialEq, Eq)]
pub struct Rotate {
    pub scale: i64,
    pub fingers: i32,
    pub delta_angle: i64,
    pub repeat: Repeat,
    pub action: String,
}

/// One configured binding.
#[derive(Debug, Clone, PartialEq, Eq)]
pub enum Gesture {
    Swipe(Swipe),
    Pinch(Pinch),
    Hold(Hold),
    Rotate(Rotate),
}

/// The text of an optional command template; an absent one is empty.
pub open spec fn template_of(t: Option<String>) -> Seq<char> {
    match t {
        Some(s) => s@,
        None => Seq::empty(),
    }
}

pub fn template_text(t: &Option<String>) -> (r: String)
    ensures
        r@ == template_of(*t),
{
    match t {
        Some(s) => s.clone(),
        None => String::new(),
    }
}

impl Swipe {
    /// A swipe binding with no commands and the default drag settings.
    pub fn new(direction: Direction, fingers: i32) -> (r: Swipe)
        ensures
            r.direction == direction,
            r.fingers == fingers,
            r.update.is_none(),
            r.start.is_none(),
            r.end.is_none(),
            r.acceleration == DEFAULT_ACCELERATION,
            r.mouse_up_delay == DEFAULT_MOUSE_UP_DELAY,
    {
        Swipe {
            direction,
            fingers,
            update: None,
            start: None,
            end: None,
            acceleration: DEFAULT_ACCELERATION,
            mouse_up_delay: DEFAULT_MOUSE_UP_DELAY,
        }
    }
}

} // verus!
