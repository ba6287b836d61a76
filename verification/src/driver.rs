//! The per-frame driver.
//!
//! One call per rendered frame: deliver the queued events to the live state
//! in arrival order, stopping at the first non-trivial transition request;
//! run the live state's update hook; apply at most one transition, the
//! event-sourced one taking priority over the update-sourced one; and decide
//! whether the host may advance simulated time this frame, and at which
//! scale. Once the stack is terminal a frame does nothing, so the host can
//! stop issuing frames as soon as `is_terminal` reports it.

use vstd::prelude::*;

use crate::events::Event;
use crate::events::handle_event;
use crate::events::handle_event_spec;
use crate::stack::GameState;
use crate::stack::HookEvent;
use crate::stack::StateStack;
use crate::stack::TransitionRequest;
use crate::stack::apply_spec;
use crate::time_scale::TimeScaleController;

verus! {

/// What delivering `events` in order to the live state `s` does: the current
/// scale afterwards, and the first non-trivial transition request, if any.
/// Delivery short-circuits at that request: a queued transition is not
/// overridden by a later event of the same batch.
pub open spec fn deliver_spec(s: GameState, events: Seq<Event>, presets: Seq<u32>, cur: u32) -> (
    u32,
    TransitionRequest,
)
    decreases events.len(),
{
    if events.len() == 0 {
        (cur, TransitionRequest::Remain)
    } else {
        let handled = handle_event_spec(s, events[0], presets, cur);
        if handled.1 != TransitionRequest::Remain {
            handled
        } else {
            deliver_spec(s, events.drop_first(), presets, handled.0)
        }
    }
}

/// The transition the update hook of the live state `s` requests. Neither
/// built-in state auto-transitions: the running state's update advances the
/// world and the paused state's update only refreshes visual feedback, so
/// both request nothing.
pub open spec fn update_spec(s: GameState) -> TransitionRequest {
    TransitionRequest::Remain
}

/// The one transition applied this frame: the event-sourced request wins
/// over the update-sourced one.
pub open spec fn chosen_request(
    event_req: TransitionRequest,
    update_req: TransitionRequest,
) -> TransitionRequest {
    if event_req != TransitionRequest::Remain {
        event_req
    } else {
        update_req
    }
}

/// The live state's per-frame update hook.
pub fn update_hook(s: GameState) -> (t: TransitionRequest)
    ensures
        t == update_spec(s),
{
    TransitionRequest::Remain
}

/// What one frame hands back to the host.
pub struct FrameOutcome {
    /// The lifecycle hooks the applied transition asks the host to run, in
    /// order.
    pub hooks: Vec<HookEvent>,
    /// Whether the host may advance the simulation by one tick this frame:
    /// only while the running state was live during the update phase.
    pub advanced: bool,
    /// The scale to apply to that tick: the current scale once this frame's
    /// events have been handled.
    pub scale: u32,
}

/// Owns the controller and the state stack and orders one frame's work.
pub struct FrameDriver {
    /// The time-scale controller, mutated only through routed actions.
    pub controller: TimeScaleController,
    /// The stack of top-level states.
    pub stack: StateStack,
}

impl FrameDriver {
    /// The driver is well formed while its stack is.
    pub open spec fn wf(&self) -> bool {
        self.stack.wf()
    }

    /// Builds the driver at startup: the given presets and initial scale,
    /// and the running state pushed as the baseline of the stack.
    pub fn new(presets: Vec<u32>, initial_scale: u32) -> (d: FrameDriver)
        ensures
            d.wf(),
            d.controller.presets@ == presets@,
            d.controller.current_scale == initial_scale,
            d.stack.entries() =~= seq![GameState::Running],
            !d.stack.is_done(),
    {
        FrameDriver {
            controller: TimeScaleController::new(presets, initial_scale),
            stack: StateStack::new(GameState::Running),
        }
    }

    /// Whether the stack has become terminal, after which the host stops
    /// issuing frames.
    pub fn is_terminal(&self) -> (b: bool)
        ensures
            b == self.stack.is_done(),
    {
        self.stack.is_terminal()
    }

    /// Delivers one frame's queued events to the live state `top`, stopping
    /// at the first non-trivial transition request.
    fn deliver_events(
        top: GameState,
        events: &Vec<Event>,
        controller: &mut TimeScaleController,
    ) -> (t: TransitionRequest)
        ensures
            final(controller).presets@ == old(controller).presets@,
            (final(controller).current_scale, t) == deliver_spec(
                top,
                events@,
                old(controller).presets@,
                old(controller).current_scale,
            ),
    {
        let n = events.len();
        let mut i: usize = 0;
        proof {
            assert(events@.skip(0) =~= events@);
        }
        while i < n
            invariant
                n == events@.len(),
                i <= n,
                controller.presets@ == old(controller).presets@,
                deliver_spec(top, events@, old(controller).presets@, old(controller).current_scale)
                    == deliver_spec(
                    top,
                    events@.skip(i as int),
                    old(controller).presets@,
                    controller.current_scale,
                ),
            decreases n - i,
        {
            proof {
                assert(events@.skip(i as int)[0] == events@[i as int]);
                assert(events@.skip(i as int).drop_first() =~= events@.skip(i + 1));
            }
            let t = handle_event(top, &events[i], controller);
            match t {
                TransitionRequest::Remain => {},
                _ => {
                    return t;
                },
            }
            i = i + 1;
        }
        proof {
            assert(events@.skip(n as int) =~= Seq::<Event>::empty());
        }
        TransitionRequest::Remain
    }

    /// Runs one frame: event delivery to the live state, the update hook,
    /// one transition at most, and the decision whether and at which scale
    /// the host advances simulated time. On a terminal stack the frame does
    /// nothing at all.
    pub fn frame(&mut self, events: &Vec<Event>) -> (r: FrameOutcome)
        requires
            old(self).wf(),
        ensures
            final(self).wf(),
            final(self).controller.presets@ == old(self).controller.presets@,
            old(self).stack.is_done() ==> {
                &&& final(self).controller == old(self).controller
                &&& final(self).stack.entries() == old(self).stack.entries()
                &&& final(self).stack.is_done()
                &&& r.hooks@ == Seq::<HookEvent>::empty()
                &&& !r.advanced
                &&& r.scale == old(self).controller.current_scale
            },
            !old(self).stack.is_done() ==> ({
                let top = old(self).stack.entries().last();
                let delivered = deliver_spec(
                    top,
                    events@,
                    old(self).controller.presets@,
                    old(self).controller.current_scale,
                );
                let req = chosen_request(delivered.1, update_spec(top));
                &&& final(self).controller.current_scale == delivered.0
                &&& (final(self).stack.entries(), final(self).stack.is_done(), r.hooks@)
                    == apply_spec(old(self).stack.entries(), false, req)
                &&& r.advanced == (top == GameState::Running)
                &&& r.scale == delivered.0
            }),
    {
        if self.stack.is_terminal() {
            let scale = self.controller.current_scale;
            return FrameOutcome { hooks: Vec::new(), advanced: false, scale };
        }
        let top = self.stack.top();
        let event_req = Self::deliver_events(top, events, &mut self.controller);
        let update_req = update_hook(top);
        let req = match event_req {
            TransitionRequest::Remain => update_req,
            _ => event_req,
        };
        let hooks = self.stack.apply(req);
        let scale = self.controller.current_scale;
        FrameOutcome { hooks, advanced: top == GameState::Running, scale }
    }
}

/// Law: a switch is atomic at the frame boundary. Once `Switch(s)` has been
/// applied, the stack is live with `s` on top, and the next frame's event
/// delivery is delivery to `s`'s handler: no intermediate state is ever the
/// delivery target.
pub proof fn lemma_switch_atomic(
    states: Seq<GameState>,
    s: GameState,
    events: Seq<Event>,
    presets: Seq<u32>,
    cur: u32,
)
    requires
        states.len() >= 1,
    ensures
        ({
            let applied = apply_spec(states, false, TransitionRequest::Switch(s));
            &&& applied.0.last() == s
            &&& applied.0.len() == states.len()
            &&& !applied.1
            &&& deliver_spec(applied.0.last(), events, presets, cur) == deliver_spec(
                s,
                events,
                presets,
                cur,
            )
        }),
{
}

} // verus!
