//! Decisions of the frame loop: what an input event leads to, and how long
//! to sleep at the end of a frame.

use vstd::prelude::*;

verus! {

/// Frames per second that the loop aims at.
pub const TARGET_HZ: u64 = 60;

/// Nanoseconds that one frame may take at `TARGET_HZ`.
pub const FRAME_BUDGET_NANOS: u64 = 1_000_000_000 / TARGET_HZ;

/// Key symbol of the escape key.
pub const KEY_ESCAPE: i32 = 27;

/// An input event, reduced to what the loop looks at.
#[derive(Clone, Copy, Debug, PartialEq, Eq, Structural)]
pub enum InputEvent {
    /// The window was asked to close.
    Quit,
    /// A key went down; `None` where the key has no symbol.
    KeyDown { keycode: Option<i32> },
    /// Anything else.
    Other,
}

/// What the loop does about an event.
#[derive(Clone, Copy, Debug, PartialEq, Eq, Structural)]
pub enum Reaction {
    /// Leave the loop and release the device objects.
    Exit,
    /// Print the key symbol and go on.
    Report { keycode: i32 },
    /// Go on.
    Ignore,
}

pub open spec fn reaction_of(event: InputEvent) -> Reaction {
    match event {
        InputEvent::Quit => Reaction::Exit,
        InputEvent::KeyDown { keycode: Some(k) } => if k == KEY_ESCAPE {
            Reaction::Exit
        } else {
            Reaction::Report { keycode: k }
        },
        InputEvent::KeyDown { keycode: None } => Reaction::Ignore,
        InputEvent::Other => Reaction::Ignore,
    }
}

/// Decides what follows from one event: a quit request or the escape key
/// ends the loop, any other key with a symbol is reported, the rest is
/// ignored.
pub fn react(event: InputEvent) -> (reaction: Reaction)
    ensures
        reaction == reaction_of(event),
{
    match event {
        InputEvent::Quit => Reaction::Exit,
        InputEvent::KeyDown { keycode: Some(k) } => {
            if k == KEY_ESCAPE {
                Reaction::Exit
            } else {
                Reaction::Report { keycode: k }
            }
        },
        InputEvent::KeyDown { keycode: None } => Reaction::Ignore,
        InputEvent::Other => Reaction::Ignore,
    }
}

/// Nanoseconds left of `budget_nanos` once `elapsed_nanos` of the frame
/// are spent: the difference, or zero where the frame ran over.
pub fn remaining_sleep(budget_nanos: u64, elapsed_nanos: u64) -> (nanos: u64)
    ensures
        elapsed_nanos >= budget_nanos ==> nanos == 0,
        elapsed_nanos < budget_nanos ==> nanos == budget_nanos - elapsed_nanos,
{
    if elapsed_nanos >= budget_nanos {
        0
    } else {
        budget_nanos - elapsed_nanos
    }
}

} // verus!
