//! Control core for a frame-stepped interactive simulation.
//!
//! The crate verifies the state/control logic of the front-end: a discrete
//! time-scale controller that steps the simulation clock through an ordered
//! list of presets, a router from named input actions to controller mutations,
//! a stack of top-level game states with push/pop/switch/quit transition
//! semantics, and a per-frame driver that orders event delivery, the update
//! hook and the decision to advance simulated time.
//!
//! Time scales are held in fixed point: a scale of `1000` means real time,
//! `0` means frozen, larger values mean sped up. The host converts between
//! this representation and whatever its configuration files use.

mod driver;
mod events;
mod router;
mod stack;
mod time_scale;

pub use driver::FrameDriver;
pub use driver::FrameOutcome;
pub use driver::chosen_request;
pub use driver::deliver_spec;
pub use driver::update_hook;
pub use driver::update_spec;
pub use driver::lemma_switch_atomic;
pub use events::Event;
pub use events::Key;
pub use events::WindowEvent;
pub use events::handle_event;
pub use events::handle_event_spec;
pub use events::handle_window_spec;
pub use router::route;
pub use router::route_spec;
pub use stack::GameState;
pub use stack::HookEvent;
pub use stack::StateStack;
pub use stack::TransitionRequest;
pub use stack::apply_spec;
pub use stack::pop_n;
pub use stack::lemma_pop_until_quit;
pub use time_scale::TimeScaleController;
pub use time_scale::speed_up_spec;
pub use time_scale::slow_down_spec;
pub use time_scale::strictly_increasing;
pub use time_scale::lemma_speed_up_steps;
pub use time_scale::lemma_slow_down_steps;
pub use time_scale::lemma_speed_up_saturates;
pub use time_scale::lemma_slow_down_saturates;
pub use time_scale::lemma_step_empty_presets;
