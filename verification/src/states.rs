//! What the states of a session decide; the host carries the decisions out.
//!
//! A session starts loading, switches to play once loading is complete, and
//! from play may push a pause that any key ends. The host hands each window
//! event and each loading report to the state on top and performs the
//! action that comes back.

use vstd::prelude::*;

verus! {

/// The keys that a state tells apart.
#[derive(Clone, Copy, Debug, PartialEq, Eq, Structural)]
pub enum Key {
    Escape,
    R,
    P,
    Other,
}

/// A window event, as far as a state looks at it.
#[derive(Clone, Copy, Debug, PartialEq, Eq, Structural)]
pub enum Event {
    /// The user asked for the window to be closed.
    CloseRequested,
    KeyPressed(Key),
    KeyReleased(Key),
    /// Any other event.
    Other,
}

/// How far the loading of a level's assets has come.
#[derive(Clone, Copy, Debug, PartialEq, Eq, Structural)]
pub enum Completion {
    Loading,
    Complete,
    Failed,
}

/// What the host is to do after a state has seen an event or a report.
#[derive(Clone, Copy, Debug, PartialEq, Eq, Structural)]
pub enum Action {
    /// Go on as before.
    Continue,
    /// End the session.
    Quit,
    /// The level was rebuilt: reload the assets and show the new level.
    Reloaded,
    /// Put the pause state on top of this one.
    Pause,
    /// Take this state off and go on with the one below.
    Resume,
    /// Replace this state by play.
    Play,
    /// No level can be had: there is nothing to play.
    Unavailable,
}

impl Event {
    /// Whether the event is a key going down or up.
    pub open spec fn is_key(self) -> bool {
        self is KeyPressed || self is KeyReleased
    }

    /// Whether the event asks to leave: a request to close the window, or
    /// `Escape` going down.
    pub open spec fn asks_to_quit(self) -> bool {
        self == Event::CloseRequested || self == Event::KeyPressed(Key::Escape)
    }

    /// Tests `asks_to_quit`.
    pub fn is_quit_request(&self) -> (quit: bool)
        ensures
            quit == self.asks_to_quit(),
    {
        match self {
            Event::CloseRequested => true,
            Event::KeyPressed(Key::Escape) => true,
            _ => false,
        }
    }
}

/// The state in which a level's assets are loaded.
#[derive(Clone, Copy, Debug, Default)]
pub struct LoadingState;

impl LoadingState {
    /// What a window event asks for while loading: to quit, or nothing.
    pub open spec fn on_event(event: Event) -> Action {
        if event.asks_to_quit() {
            Action::Quit
        } else {
            Action::Continue
        }
    }

    /// What a loading report asks for: play once loading is complete,
    /// nothing while it goes on, and no play at all once it has failed.
    pub open spec fn on_report(completion: Completion) -> Action {
        match completion {
            Completion::Loading => Action::Continue,
            Completion::Complete => Action::Play,
            Completion::Failed => Action::Unavailable,
        }
    }

    pub fn handle_event(&self, event: Event) -> (action: Action)
        ensures
            action == Self::on_event(event),
    {
        if event.is_quit_request() {
            Action::Quit
        } else {
            Action::Continue
        }
    }

    pub fn update(&self, completion: Completion) -> (action: Action)
        ensures
            action == Self::on_report(completion),
    {
        match completion {
            Completion::Loading => Action::Continue,
            Completion::Complete => Action::Play,
            Completion::Failed => Action::Unavailable,
        }
    }
}

/// The state that holds play still.
#[derive(Clone, Copy, Debug, Default)]
pub struct PauseState;

impl PauseState {
    /// What a window event asks for during a pause: any key, going down or
    /// up, ends it.
    pub open spec fn on_event(event: Event) -> Action {
        if event.is_key() {
            Action::Resume
        } else {
            Action::Continue
        }
    }

    pub fn handle_event(&self, event: Event) -> (action: Action)
        ensures
            action == Self::on_event(event),
    {
        match event {
            Event::KeyPressed(_) => Action::Resume,
            Event::KeyReleased(_) => Action::Resume,
            _ => Action::Continue,
        }
    }
}

} // verus!
