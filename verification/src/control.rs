//! How a sandboxed application's frame loop drains its control channel
//! before each frame: what each try at the channel tells it to do.

use vstd::prelude::*;

verus! {

/// What one try at the control channel gave: a message of one of the
/// kinds the server sends (pointer positions are left to the caller), or
/// nothing waiting, or a channel whose sender is gone.
#[derive(Debug, Clone, Copy, PartialEq, Eq, Structural)]
pub enum ControlEvent {
    Init,
    PointerMove,
    PointerButton { button: u8, pressed: bool },
    KeyEvent,
    Resize,
    Shutdown,
    NothingWaiting,
    Disconnected,
}

/// What the frame loop does next.
#[derive(Debug, Clone, Copy, PartialEq, Eq, Structural)]
pub enum ControlStep {
    /// Leave the frame loop: the application stops.
    Stop,
    /// Nothing more is waiting: render the frame with the input gathered.
    Render,
    /// Take the message's input and try the channel again; for a pointer
    /// button, whether the primary button is now held.
    TakeInput { primary_held: Option<bool> },
}

/// The step for each try: a shutdown message or a closed channel stop the
/// application, an empty channel ends the draining, and every other message
/// is input (a pointer button holds the primary button when it is pressed
/// and is button 0; initialisation and resize messages bring none).
pub open spec fn control_step_spec(event: ControlEvent) -> ControlStep {
    match event {
        ControlEvent::Shutdown | ControlEvent::Disconnected => ControlStep::Stop,
        ControlEvent::NothingWaiting => ControlStep::Render,
        ControlEvent::PointerButton { button, pressed } =>
            ControlStep::TakeInput { primary_held: Some(pressed && button == 0) },
        _ => ControlStep::TakeInput { primary_held: None },
    }
}

/// The step for one try at the control channel (see `control_step_spec`).
pub fn control_step(event: ControlEvent) -> (r: ControlStep)
    ensures
        r == control_step_spec(event),
{
    match event {
        ControlEvent::Shutdown | ControlEvent::Disconnected => ControlStep::Stop,
        ControlEvent::NothingWaiting => ControlStep::Render,
        ControlEvent::PointerButton { button, pressed } =>
            ControlStep::TakeInput { primary_held: Some(pressed && button == 0) },
        _ => ControlStep::TakeInput { primary_held: None },
    }
}

/// The application stops exactly on a shutdown message or a closed
/// channel, and renders only once nothing more is waiting: no message is
/// left behind a rendered frame. Every other message is taken as input,
/// and only a pointer button message sets the primary button: held when
/// button 0 is pressed, released by any release and by a press of another
/// button.
pub proof fn lemma_stops_only_on_shutdown(event: ControlEvent)
    ensures
        (control_step_spec(event) is Stop) <==> (event is Shutdown || event is Disconnected),
        (control_step_spec(event) is Render) <==> (event is NothingWaiting),
        (control_step_spec(event) is TakeInput) <==> !(event is Shutdown || event is Disconnected || event is NothingWaiting),
        event matches ControlEvent::PointerButton { button, pressed }
            ==> control_step_spec(event) == (ControlStep::TakeInput { primary_held: Some(pressed && button == 0u8) }),
        control_step_spec(event) matches ControlStep::TakeInput { primary_held: Some(_) } ==> event is PointerButton,
{
}

} // verus!
