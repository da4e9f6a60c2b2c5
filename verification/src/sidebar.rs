//! The sidebar's decision logic: which screen each button press asks for.

use vstd::prelude::*;

verus! {

/// A press on one of the sidebar's buttons.
#[derive(Debug, Clone, Copy, PartialEq, Eq, Structural)]
pub enum Message {
    ShowSettings,
    ShowDashboard,
    Quit,
}

/// What the surrounding shell should do about it.
#[derive(Debug, Clone, Copy, PartialEq, Eq, Structural)]
pub enum Action {
    Idle,
    ShowSettings,
    ShowDashboard,
    Quit,
}

/// The sidebar itself holds no state: every press maps straight to an
/// action.
#[derive(Debug)]
pub struct Sidebar {}

impl Sidebar {
    pub fn new() -> Sidebar {
        Sidebar {}
    }

    /// Maps each press to the screen change it asks for.
    pub fn update(&mut self, message: Message) -> (a: Action)
        ensures
            a == match message {
                Message::ShowDashboard => Action::ShowDashboard,
                Message::ShowSettings => Action::ShowSettings,
                Message::Quit => Action::Quit,
            },
    {
        match message {
            Message::ShowDashboard => Action::ShowDashboard,
            Message::ShowSettings => Action::ShowSettings,
            Message::Quit => Action::Quit,
        }
    }
}

} // verus!
