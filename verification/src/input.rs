//! The part of the window system's events that the render loop looks at.

use vstd::prelude::*;

verus! {

/// The key code of the Escape key.
pub const ESCAPE: i32 = 27;

/// An event from the window system, as far as the render loop reads it.
#[derive(Clone, Copy, Debug)]
pub enum Input {
    /// The user asked the application to quit.
    Quit,
    /// A key went down; `keycode` is the key's virtual code, if it has one.
    KeyDown { keycode: Option<i32> },
    /// Any other event.
    Other,
}

impl Input {
    /// Whether the event ends the render loop: a request to quit, or the
    /// Escape key going down.
    pub open spec fn ends_loop(self) -> bool {
        self is Quit || self == (Input::KeyDown { keycode: Some(ESCAPE) })
    }

    /// Whether the event ends the render loop.
    pub fn is_quit(&self) -> (quit: bool)
        ensures
            quit == self.ends_loop(),
    {
        match self {
            Input::Quit => true,
            Input::KeyDown { keycode: Some(code) } => *code == ESCAPE,
            _ => false,
        }
    }
}

} // verus!
