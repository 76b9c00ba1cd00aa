use vstd::prelude::*;

verus! {

/// The keys that the main loop tells apart.
#[derive(Clone, Copy, Debug, PartialEq, Eq, Structural)]
pub enum Key {
    /// Selects the first pose.
    A,
    /// Selects the second pose.
    B,
    /// Selects the third pose.
    C,
    /// Ends the main loop.
    Escape,
    /// Any other key, or a key press that names no key.
    Other,
}

/// An input event, as far as the main loop reads it.
#[derive(Clone, Copy, Debug, PartialEq, Eq, Structural)]
pub enum Event {
    /// The window was asked to close.
    Quit,
    /// A key went down.
    KeyDown(Key),
    /// Anything else.
    Other,
}

impl Key {
    /// The pose that a key selects: `A` the first, `B` the second, `C` the
    /// third; no other key selects one.
    pub open spec fn pose(self) -> Option<nat> {
        match self {
            Key::A => Some(0nat),
            Key::B => Some(1nat),
            Key::C => Some(2nat),
            _ => None,
        }
    }

    /// The pose that this key selects, if it selects one.
    pub fn selected_pose(&self) -> (pose: Option<usize>)
        ensures
            pose is Some <==> self.pose() is Some,
            pose is Some ==> pose->0 == self.pose()->0,
    {
        match self {
            Key::A => Some(0),
            Key::B => Some(1),
            Key::C => Some(2),
            _ => None,
        }
    }
}

impl Event {
    /// Whether the event ends the main loop: the window closing, or the
    /// escape key going down.
    pub open spec fn is_quit(self) -> bool {
        self == Event::Quit || self == Event::KeyDown(Key::Escape)
    }

    /// The pose that the event selects: that of its key if a key went down,
    /// none otherwise.
    pub open spec fn pose(self) -> Option<nat> {
        match self {
            Event::KeyDown(key) => key.pose(),
            _ => None,
        }
    }

    /// Whether the event ends the main loop.
    pub fn requests_quit(&self) -> (quit: bool)
        ensures
            quit == self.is_quit(),
    {
        match self {
            Event::Quit => true,
            Event::KeyDown(Key::Escape) => true,
            _ => false,
        }
    }

    /// The pose that the event selects, if it selects one.
    pub fn selected_pose(&self) -> (pose: Option<usize>)
        ensures
            pose is Some <==> self.pose() is Some,
            pose is Some ==> pose->0 == self.pose()->0,
    {
        match self {
            Event::KeyDown(key) => key.selected_pose(),
            _ => None,
        }
    }
}

} // verus!
