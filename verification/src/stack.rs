//! The stack of top-level game states and its transition semantics.
//!
//! The top entry is live: it alone receives events and update calls. Entries
//! below it are suspended. A transition request is applied at most once per
//! frame, after that frame's event delivery and update have finished. Popping
//! the last remaining state is treated as a quit, so a callable empty stack
//! never materialises; once the stack is terminal every further request is
//! ignored and no more hooks run.

use vstd::prelude::*;

verus! {

/// A top-level state of the front-end.
#[derive(Clone, Copy, Debug, PartialEq, Eq, Structural)]
pub enum GameState {
    /// The baseline state: the simulation advances.
    Running,
    /// A state pushed over the simulation; time does not advance under it.
    Paused,
}

/// How a state's event or update hook asks the stack to change.
#[derive(Clone, Copy, Debug, PartialEq, Eq, Structural)]
pub enum TransitionRequest {
    /// Leave the stack as it is.
    Remain,
    /// Suspend the current top and make the given state the new live top.
    Push(GameState),
    /// Discard the current top and resume the state below it.
    Pop,
    /// Replace the current top by the given state in one atomic step.
    Switch(GameState),
    /// Mark the stack terminal; the driver stops issuing frames.
    Quit,
}

/// A lifecycle hook that applying a transition runs, in order.
#[derive(Clone, Copy, Debug, PartialEq, Eq, Structural)]
pub enum HookEvent {
    /// The state was created and entered.
    Started(GameState),
    /// The state stays on the stack but is no longer the live top.
    Suspended(GameState),
    /// The state became the live top again without being recreated.
    Resumed(GameState),
    /// The state was discarded.
    Stopped(GameState),
}

/// What applying `req` to a stack does: the new entries (bottom first), the
/// new terminal flag, and the hooks to run, in order. On a terminal stack
/// every request is ignored.
pub open spec fn apply_spec(
    states: Seq<GameState>,
    terminal: bool,
    req: TransitionRequest,
) -> (Seq<GameState>, bool, Seq<HookEvent>) {
    if terminal {
        (states, true, Seq::<HookEvent>::empty())
    } else {
        match req {
            TransitionRequest::Remain => (states, false, Seq::<HookEvent>::empty()),
            TransitionRequest::Quit => (states, true, Seq::<HookEvent>::empty()),
            TransitionRequest::Push(s) => (
                states.push(s),
                false,
                seq![HookEvent::Suspended(states.last()), HookEvent::Started(s)],
            ),
            TransitionRequest::Pop => if states.len() <= 1 {
                (states, true, Seq::<HookEvent>::empty())
            } else {
                (
                    states.drop_last(),
                    false,
                    seq![
                        HookEvent::Stopped(states.last()),
                        HookEvent::Resumed(states[states.len() - 2]),
                    ],
                )
            },
            TransitionRequest::Switch(s) => (
                states.drop_last().push(s),
                false,
                seq![HookEvent::Stopped(states.last()), HookEvent::Started(s)],
            ),
        }
    }
}

/// The stack after applying `Pop` to it `n` times in a row.
pub open spec fn pop_n(states: Seq<GameState>, terminal: bool, n: nat) -> (Seq<GameState>, bool)
    decreases n,
{
    if n == 0 {
        (states, terminal)
    } else {
        let stepped = apply_spec(states, terminal, TransitionRequest::Pop);
        pop_n(stepped.0, stepped.1, (n - 1) as nat)
    }
}

/// The last-in-first-out collection of active states.
pub struct StateStack {
    states: Vec<GameState>,
    terminal: bool,
}

impl StateStack {
    /// The entries, bottom of the stack first; the last one is the live top.
    pub closed spec fn entries(&self) -> Seq<GameState> {
        self.states@
    }

    /// Whether a quit has been applied; a terminal stack ignores every
    /// further request.
    pub closed spec fn is_done(&self) -> bool {
        self.terminal
    }

    /// The stack is well formed while it holds at least one state.
    pub open spec fn wf(&self) -> bool {
        self.entries().len() >= 1
    }

    /// Builds the stack holding the single baseline state, not terminal.
    pub fn new(baseline: GameState) -> (s: StateStack)
        ensures
            s.entries() =~= seq![baseline],
            !s.is_done(),
            s.wf(),
    {
        StateStack { states: vec![baseline], terminal: false }
    }

    /// The live state: the top of the stack.
    pub fn top(&self) -> (s: GameState)
        requires
            self.wf(),
        ensures
            s == self.entries().last(),
    {
        self.states[self.states.len() - 1]
    }

    /// How many states the stack holds.
    pub fn depth(&self) -> (n: usize)
        ensures
            n == self.entries().len(),
    {
        self.states.len()
    }

    /// Whether the stack has become terminal.
    pub fn is_terminal(&self) -> (b: bool)
        ensures
            b == self.is_done(),
    {
        self.terminal
    }

    /// Applies one transition request and returns the lifecycle hooks the
    /// host must run, in order. Total: on a terminal stack, or popping the
    /// last state, nothing is discarded and the stack merely turns terminal.
    pub fn apply(&mut self, req: TransitionRequest) -> (hooks: Vec<HookEvent>)
        requires
            old(self).wf(),
        ensures
            final(self).wf(),
            (final(self).entries(), final(self).is_done(), hooks@)
                == apply_spec(old(self).entries(), old(self).is_done(), req),
    {
        if self.terminal {
            return Vec::new();
        }
        match req {
            TransitionRequest::Remain => Vec::new(),
            TransitionRequest::Quit => {
                self.terminal = true;
                Vec::new()
            },
            TransitionRequest::Push(s) => {
                let suspended = self.states[self.states.len() - 1];
                self.states.push(s);
                let mut hooks: Vec<HookEvent> = Vec::new();
                hooks.push(HookEvent::Suspended(suspended));
                hooks.push(HookEvent::Started(s));
                proof {
                    assert(hooks@ =~= seq![
                        HookEvent::Suspended(old(self).entries().last()),
                        HookEvent::Started(s),
                    ]);
                }
                hooks
            },
            TransitionRequest::Pop => {
                if self.states.len() <= 1 {
                    self.terminal = true;
                    Vec::new()
                } else {
                    let stopped = self.states[self.states.len() - 1];
                    self.states.pop();
                    let resumed = self.states[self.states.len() - 1];
                    let mut hooks: Vec<HookEvent> = Vec::new();
                    hooks.push(HookEvent::Stopped(stopped));
                    hooks.push(HookEvent::Resumed(resumed));
                    proof {
                        assert(final(self).entries() =~= old(self).entries().drop_last());
                        assert(hooks@ =~= seq![
                            HookEvent::Stopped(old(self).entries().last()),
                            HookEvent::Resumed(
                                old(self).entries()[old(self).entries().len() - 2],
                            ),
                        ]);
                    }
                    hooks
                }
            },
            TransitionRequest::Switch(s) => {
                let stopped = self.states[self.states.len() - 1];
                self.states.pop();
                self.states.push(s);
                let mut hooks: Vec<HookEvent> = Vec::new();
                hooks.push(HookEvent::Stopped(stopped));
                hooks.push(HookEvent::Started(s));
                proof {
                    assert(final(self).entries()
                        =~= old(self).entries().drop_last().push(s));
                    assert(hooks@ =~= seq![
                        HookEvent::Stopped(old(self).entries().last()),
                        HookEvent::Started(s),
                    ]);
                }
                hooks
            },
        }
    }
}

/// Law: from any well-formed configuration, applying `Pop` over and over
/// never leaves an empty stack, and once the pops have exhausted the entries
/// the stack is terminal; popping on terminates in the quit state instead of
/// failing.
pub proof fn lemma_pop_until_quit(states: Seq<GameState>, terminal: bool, n: nat)
    requires
        states.len() >= 1,
    ensures
        pop_n(states, terminal, n).0.len() >= 1,
        terminal ==> pop_n(states, terminal, n).1,
        n >= states.len() ==> pop_n(states, terminal, n).1,
    decreases n,
{
    if n > 0 {
        let stepped = apply_spec(states, terminal, TransitionRequest::Pop);
        lemma_pop_until_quit(stepped.0, stepped.1, (n - 1) as nat);
    }
}

} // verus!
