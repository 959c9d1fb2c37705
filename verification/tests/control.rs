use sandbox_backend::control::{control_step, ControlEvent, ControlStep};

#[test]
fn shutdown_and_closed_channel_stop_the_app() {
    assert_eq!(control_step(ControlEvent::Shutdown), ControlStep::Stop);
    assert_eq!(control_step(ControlEvent::Disconnected), ControlStep::Stop);
}

#[test]
fn empty_channel_renders_the_frame() {
    assert_eq!(control_step(ControlEvent::NothingWaiting), ControlStep::Render);
}

#[test]
fn pointer_button_holds_primary_only_when_button_zero_pressed() {
    assert_eq!(
        control_step(ControlEvent::PointerButton { button: 0, pressed: true }),
        ControlStep::TakeInput { primary_held: Some(true) }
    );
    assert_eq!(
        control_step(ControlEvent::PointerButton { button: 0, pressed: false }),
        ControlStep::TakeInput { primary_held: Some(false) }
    );
    assert_eq!(
        control_step(ControlEvent::PointerButton { button: 2, pressed: true }),
        ControlStep::TakeInput { primary_held: Some(false) }
    );
}

#[test]
fn other_messages_are_input_without_button_state() {
    for e in [ControlEvent::Init, ControlEvent::PointerMove, ControlEvent::KeyEvent, ControlEvent::Resize] {
        assert_eq!(control_step(e), ControlStep::TakeInput { primary_held: None });
    }
}
