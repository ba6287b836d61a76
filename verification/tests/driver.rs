use sim_core::Event;
use sim_core::TransitionRequest;
use sim_core::FrameDriver;
use sim_core::GameState;
use sim_core::HookEvent;
use sim_core::Key;
use sim_core::WindowEvent;

fn demo_driver() -> FrameDriver {
    FrameDriver::new(vec![500, 1000, 2000, 4000], 1000)
}

#[test]
fn pause_key_pushes_then_pops_resumed() {
    let mut d = demo_driver();
    let events = vec![Event::Window(WindowEvent::KeyDown(Key::Escape))];
    let out = d.frame(&events);
    assert_eq!(
        out.hooks,
        vec![
            HookEvent::Suspended(GameState::Running),
            HookEvent::Started(GameState::Paused),
        ]
    );
    assert_eq!(d.stack.depth(), 2);
    assert_eq!(d.stack.top(), GameState::Paused);
    // Pressing the pause key again pops back: the running state is resumed,
    // not recreated.
    let out = d.frame(&events);
    assert_eq!(
        out.hooks,
        vec![
            HookEvent::Stopped(GameState::Paused),
            HookEvent::Resumed(GameState::Running),
        ]
    );
    assert_eq!(d.stack.depth(), 1);
    assert_eq!(d.stack.top(), GameState::Running);
    assert!(!d.is_terminal());
}

#[test]
fn simulation_advances_only_while_running() {
    let mut d = demo_driver();
    let out = d.frame(&vec![]);
    assert!(out.advanced);
    assert_eq!(out.scale, 1000);
    d.frame(&vec![Event::Window(WindowEvent::KeyDown(Key::Escape))]);
    // The paused state is now live: no tick this frame.
    let out = d.frame(&vec![]);
    assert!(!out.advanced);
}

#[test]
fn actions_route_to_the_controller() {
    let mut d = demo_driver();
    let out = d.frame(&vec![Event::Action(String::from("speedUp"))]);
    assert!(out.hooks.is_empty());
    assert_eq!(out.scale, 2000);
    assert_eq!(d.controller.current_scale, 2000);
    let out = d.frame(&vec![Event::Action(String::from("slowDown"))]);
    assert_eq!(out.scale, 1000);
    assert_eq!(d.controller.current_scale, 1000);
}

#[test]
fn unknown_action_is_silently_ignored() {
    let mut d = demo_driver();
    let out = d.frame(&vec![Event::Action(String::from("teleport"))]);
    assert!(out.hooks.is_empty());
    assert_eq!(out.scale, 1000);
    assert_eq!(d.controller.current_scale, 1000);
    assert_eq!(d.stack.depth(), 1);
}

#[test]
fn ui_events_are_unhandled() {
    let mut d = demo_driver();
    let out = d.frame(&vec![Event::Ui]);
    assert!(out.hooks.is_empty());
    assert_eq!(d.stack.depth(), 1);
    assert!(!d.is_terminal());
}

#[test]
fn first_transition_short_circuits_the_batch() {
    let mut d = demo_driver();
    let events = vec![
        Event::Window(WindowEvent::KeyDown(Key::Escape)),
        Event::Action(String::from("speedUp")),
    ];
    let out = d.frame(&events);
    // The pause request came first: the later action of the same batch is
    // never delivered, so the scale is untouched.
    assert_eq!(out.scale, 1000);
    assert_eq!(d.controller.current_scale, 1000);
    assert_eq!(d.stack.top(), GameState::Paused);
}

#[test]
fn actions_before_a_transition_still_land() {
    let mut d = demo_driver();
    let events = vec![
        Event::Action(String::from("speedUp")),
        Event::Window(WindowEvent::KeyDown(Key::Escape)),
    ];
    let out = d.frame(&events);
    assert_eq!(out.scale, 2000);
    assert_eq!(d.controller.current_scale, 2000);
    assert_eq!(d.stack.top(), GameState::Paused);
}

#[test]
fn paused_state_ignores_actions() {
    let mut d = demo_driver();
    d.frame(&vec![Event::Window(WindowEvent::KeyDown(Key::Escape))]);
    let out = d.frame(&vec![Event::Action(String::from("speedUp"))]);
    assert_eq!(out.scale, 1000);
    assert_eq!(d.controller.current_scale, 1000);
    assert!(!out.advanced);
}

#[test]
fn close_request_quits_from_any_state() {
    let mut d = demo_driver();
    d.frame(&vec![Event::Window(WindowEvent::CloseRequested)]);
    assert!(d.is_terminal());

    let mut d = demo_driver();
    d.frame(&vec![Event::Window(WindowEvent::KeyDown(Key::Escape))]);
    d.frame(&vec![Event::Window(WindowEvent::CloseRequested)]);
    assert!(d.is_terminal());
}

#[test]
fn quit_key_quits_while_running_only() {
    let mut d = demo_driver();
    d.frame(&vec![Event::Window(WindowEvent::KeyDown(Key::F1))]);
    assert!(d.is_terminal());

    let mut d = demo_driver();
    d.frame(&vec![Event::Window(WindowEvent::KeyDown(Key::Escape))]);
    d.frame(&vec![Event::Window(WindowEvent::KeyDown(Key::F1))]);
    assert!(!d.is_terminal());
    assert_eq!(d.stack.top(), GameState::Paused);
}

#[test]
fn unbound_key_does_nothing() {
    let mut d = demo_driver();
    let out = d.frame(&vec![Event::Window(WindowEvent::KeyDown(Key::Other))]);
    assert!(out.hooks.is_empty());
    assert_eq!(d.stack.depth(), 1);
    assert!(out.advanced);
}

#[test]
fn switch_is_atomic_for_the_next_frame() {
    let mut d = demo_driver();
    d.stack.apply(TransitionRequest::Switch(GameState::Paused));
    assert_eq!(d.stack.depth(), 1);
    // The very next frame delivers to the paused state's handler: the pause
    // key pops (a quit, as it is the last state) instead of pushing another
    // paused state.
    let out = d.frame(&vec![Event::Window(WindowEvent::KeyDown(Key::Escape))]);
    assert!(out.hooks.is_empty());
    assert!(d.is_terminal());
    assert_eq!(d.stack.depth(), 1);
}

#[test]
fn terminal_driver_frames_do_nothing() {
    let mut d = demo_driver();
    d.frame(&vec![Event::Window(WindowEvent::CloseRequested)]);
    assert!(d.is_terminal());
    let out = d.frame(&vec![Event::Action(String::from("speedUp"))]);
    assert!(out.hooks.is_empty());
    assert!(!out.advanced);
    assert_eq!(d.controller.current_scale, 1000);
    assert_eq!(d.stack.depth(), 1);
}
