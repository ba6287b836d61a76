//! The router from named input actions to controller mutations.
//!
//! The action vocabulary is string-keyed and finite; an action either steps
//! the time-scale controller or asks for a state transition. Unknown action
//! names are not errors: they route to no mutation and no transition, so new
//! actions can be bound without every consumer being kept in lockstep.

use vstd::prelude::*;
use vstd::string::StringExecFns;

use crate::stack::TransitionRequest;
use crate::time_scale::TimeScaleController;
use crate::time_scale::slow_down_spec;
use crate::time_scale::speed_up_spec;

verus! {

/// What routing `action` does to a controller with the given presets and
/// current scale: the scale afterwards, and the transition requested.
pub open spec fn route_spec(action: Seq<char>, presets: Seq<u32>, cur: u32) -> (
    u32,
    TransitionRequest,
) {
    if action == "speedUp"@ {
        (speed_up_spec(presets, cur), TransitionRequest::Remain)
    } else if action == "slowDown"@ {
        (slow_down_spec(presets, cur), TransitionRequest::Remain)
    } else {
        (cur, TransitionRequest::Remain)
    }
}

/// Routes one named action: `"speedUp"` and `"slowDown"` step the controller
/// and request no transition; any other name is silently ignored.
pub fn route(action: &String, controller: &mut TimeScaleController) -> (t: TransitionRequest)
    ensures
        final(controller).presets@ == old(controller).presets@,
        (final(controller).current_scale, t) == route_spec(
            action@,
            old(controller).presets@,
            old(controller).current_scale,
        ),
{
    let speed_up_name: String = String::from_str("speedUp");
    if action.eq(&speed_up_name) {
        let _stepped = controller.speed_up();
        TransitionRequest::Remain
    } else {
        let slow_down_name: String = String::from_str("slowDown");
        if action.eq(&slow_down_name) {
            let _stepped = controller.slow_down();
            TransitionRequest::Remain
        } else {
            TransitionRequest::Remain
        }
    }
}

} // verus!
