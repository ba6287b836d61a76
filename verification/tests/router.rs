use sim_core::Event;
use sim_core::GameState;
use sim_core::Key;
use sim_core::TimeScaleController;
use sim_core::TransitionRequest;
use sim_core::WindowEvent;
use sim_core::handle_event;
use sim_core::route;

#[test]
fn route_speed_up_steps_the_controller() {
    let mut c = TimeScaleController::new(vec![500, 1000, 2000], 1000);
    let t = route(&String::from("speedUp"), &mut c);
    assert_eq!(t, TransitionRequest::Remain);
    assert_eq!(c.current_scale, 2000);
}

#[test]
fn route_slow_down_steps_the_controller() {
    let mut c = TimeScaleController::new(vec![500, 1000, 2000], 1000);
    let t = route(&String::from("slowDown"), &mut c);
    assert_eq!(t, TransitionRequest::Remain);
    assert_eq!(c.current_scale, 500);
}

#[test]
fn route_unknown_action_is_a_noop() {
    let mut c = TimeScaleController::new(vec![500, 1000, 2000], 1000);
    let t = route(&String::from("speedup"), &mut c);
    assert_eq!(t, TransitionRequest::Remain);
    assert_eq!(c.current_scale, 1000);
    assert_eq!(c.presets, vec![500, 1000, 2000]);
}

#[test]
fn window_events_map_per_state() {
    let mut c = TimeScaleController::new(vec![], 1000);
    let escape = Event::Window(WindowEvent::KeyDown(Key::Escape));
    let t = handle_event(GameState::Running, &escape, &mut c);
    assert_eq!(t, TransitionRequest::Push(GameState::Paused));
    let t = handle_event(GameState::Paused, &escape, &mut c);
    assert_eq!(t, TransitionRequest::Pop);
    let close = Event::Window(WindowEvent::CloseRequested);
    let t = handle_event(GameState::Running, &close, &mut c);
    assert_eq!(t, TransitionRequest::Quit);
    let t = handle_event(GameState::Paused, &close, &mut c);
    assert_eq!(t, TransitionRequest::Quit);
}
