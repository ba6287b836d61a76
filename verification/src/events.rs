//! The event boundary and the per-state event handlers.
//!
//! Each frame the host hands over the queued window, input and UI events as
//! plain discriminated values. The live state's handler turns one event into
//! at most a controller mutation and a transition request; an event a state
//! does not recognise yields no transition at all.

use vstd::prelude::*;

use crate::router::route;
use crate::router::route_spec;
use crate::stack::GameState;
use crate::stack::TransitionRequest;
use crate::time_scale::TimeScaleController;

verus! {

/// A key the handlers are interested in. Every other key folds into
/// `Other`, which no handler is bound to.
#[derive(Clone, Copy, Debug, PartialEq, Eq, Structural)]
pub enum Key {
    /// The designated pause key.
    Escape,
    /// The designated quit key.
    F1,
    /// Any key without a binding.
    Other,
}

/// A signal from the host window.
#[derive(Clone, Copy, Debug, PartialEq, Eq, Structural)]
pub enum WindowEvent {
    /// The user asked to close the window.
    CloseRequested,
    /// A key was pressed.
    KeyDown(Key),
}

/// One queued event, as the frame driver consumes it.
#[derive(Debug)]
pub enum Event {
    /// A window or keyboard signal.
    Window(WindowEvent),
    /// A named input action, routed through the action router.
    Action(String),
    /// A UI widget event; currently unhandled.
    Ui,
}

/// The transition the state `s` requests on a window signal. While running,
/// a close request or the quit key quits and the pause key pushes `Paused`;
/// while paused, a close request quits and the pause key pops back.
pub open spec fn handle_window_spec(s: GameState, w: WindowEvent) -> TransitionRequest {
    match s {
        GameState::Running => match w {
            WindowEvent::CloseRequested => TransitionRequest::Quit,
            WindowEvent::KeyDown(Key::F1) => TransitionRequest::Quit,
            WindowEvent::KeyDown(Key::Escape) => TransitionRequest::Push(GameState::Paused),
            WindowEvent::KeyDown(Key::Other) => TransitionRequest::Remain,
        },
        GameState::Paused => match w {
            WindowEvent::CloseRequested => TransitionRequest::Quit,
            WindowEvent::KeyDown(Key::Escape) => TransitionRequest::Pop,
            WindowEvent::KeyDown(Key::F1) => TransitionRequest::Remain,
            WindowEvent::KeyDown(Key::Other) => TransitionRequest::Remain,
        },
    }
}

/// What delivering `e` to the live state `s` does: the current scale
/// afterwards, and the transition the handler requests. Only the running
/// state routes named actions; UI events route to no transition.
pub open spec fn handle_event_spec(s: GameState, e: Event, presets: Seq<u32>, cur: u32) -> (
    u32,
    TransitionRequest,
) {
    match e {
        Event::Window(w) => (cur, handle_window_spec(s, w)),
        Event::Action(a) => if s == GameState::Running {
            route_spec(a@, presets, cur)
        } else {
            (cur, TransitionRequest::Remain)
        },
        Event::Ui => (cur, TransitionRequest::Remain),
    }
}

/// Delivers one event to the live state `s`, mutating the controller where
/// the event is a bound action, and returns the requested transition.
pub fn handle_event(
    s: GameState,
    e: &Event,
    controller: &mut TimeScaleController,
) -> (t: TransitionRequest)
    ensures
        final(controller).presets@ == old(controller).presets@,
        (final(controller).current_scale, t) == handle_event_spec(
            s,
            *e,
            old(controller).presets@,
            old(controller).current_scale,
        ),
{
    match e {
        Event::Window(w) => match s {
            GameState::Running => match w {
                WindowEvent::CloseRequested => TransitionRequest::Quit,
                WindowEvent::KeyDown(Key::F1) => TransitionRequest::Quit,
                WindowEvent::KeyDown(Key::Escape) => TransitionRequest::Push(GameState::Paused),
                WindowEvent::KeyDown(Key::Other) => TransitionRequest::Remain,
            },
            GameState::Paused => match w {
                WindowEvent::CloseRequested => TransitionRequest::Quit,
                WindowEvent::KeyDown(Key::Escape) => TransitionRequest::Pop,
                WindowEvent::KeyDown(Key::F1) => TransitionRequest::Remain,
                WindowEvent::KeyDown(Key::Other) => TransitionRequest::Remain,
            },
        },
        Event::Action(a) => {
            if matches!(s, GameState::Running) {
                route(a, controller)
            } else {
                TransitionRequest::Remain
            }
        },
        Event::Ui => TransitionRequest::Remain,
    }
}

} // verus!
