use baseview::macos::view::{Action, ViewState};
use baseview::macos::window::{Window, WindowFocus};

#[derive(Debug, PartialEq, Eq, Clone, Copy)]
enum Ev {
    A,
    B,
    C,
    Main,
    WillClose,
}

/// Performs actions the way the native view does, resuming after each one
/// that is not terminal, and records them.
fn drive(view: &mut ViewState<Ev>, first: Action<Ev>) -> Vec<Action<Ev>> {
    let mut log = Vec::new();
    let mut action = first;
    loop {
        let terminal = matches!(action, Action::Done | Action::StopApp);
        log.push(action);
        if terminal {
            return log;
        }
        action = view.resume();
    }
}

#[test]
fn new_view_is_open_without_handler() {
    let mut view: ViewState<Ev> = ViewState::new(false);
    assert!(view.is_open());
    // No handler yet: an event waits.
    assert_eq!(view.trigger_deferrable_event(Ev::A), Action::Done);
    view.set_window_handler();
    let first = view.trigger_event(Ev::Main);
    assert_eq!(drive(&mut view, first), vec![
        Action::Deliver(Ev::A),
        Action::DeliverTriggered(Ev::Main),
        Action::Done,
    ]);
}

#[test]
fn deferrable_event_goes_straight_to_a_free_handler() {
    let mut view: ViewState<Ev> = ViewState::new(false);
    view.set_window_handler();
    assert_eq!(view.trigger_deferrable_event(Ev::A), Action::Deliver(Ev::A));
    assert_eq!(view.resume(), Action::Done);
}

#[test]
fn events_during_a_deferrable_event_go_out_when_it_returns() {
    let mut view: ViewState<Ev> = ViewState::new(false);
    view.set_window_handler();
    // The handler is busy with a deferrable event ...
    assert_eq!(view.trigger_deferrable_event(Ev::A), Action::Deliver(Ev::A));
    // ... while more events and a frame come in.
    assert_eq!(view.trigger_deferrable_event(Ev::B), Action::Done);
    assert_eq!(view.trigger_deferrable_event(Ev::C), Action::Done);
    assert_eq!(view.trigger_frame(), Action::Done);
    assert_eq!(view.resume(), Action::Deliver(Ev::B));
    assert_eq!(view.resume(), Action::Deliver(Ev::C));
    assert_eq!(view.resume(), Action::Done);
    assert!(view.handler_free());
    // The frame asked for meanwhile runs after the next triggered event.
    let first = view.trigger_event(Ev::Main);
    assert_eq!(drive(&mut view, first), vec![
        Action::DeliverTriggered(Ev::Main),
        Action::RunFrame,
        Action::Done,
    ]);
}

#[test]
fn events_during_the_triggered_event_go_out_before_it_ends() {
    let mut view: ViewState<Ev> = ViewState::new(false);
    view.set_window_handler();
    assert_eq!(view.trigger_event(Ev::Main), Action::DeliverTriggered(Ev::Main));
    assert_eq!(view.trigger_deferrable_event(Ev::A), Action::Done);
    assert_eq!(view.trigger_deferrable_event(Ev::B), Action::Done);
    assert_eq!(view.resume(), Action::Deliver(Ev::A));
    assert_eq!(view.resume(), Action::Deliver(Ev::B));
    assert_eq!(view.resume(), Action::Done);
    assert!(view.handler_free());
    // Nothing is left over for the next event.
    let first = view.trigger_event(Ev::C);
    assert_eq!(drive(&mut view, first), vec![Action::DeliverTriggered(Ev::C), Action::Done]);
}

#[test]
fn events_during_the_triggered_event_go_out_after_the_frame() {
    let mut view: ViewState<Ev> = ViewState::new(false);
    view.set_window_handler();
    assert_eq!(view.trigger_event(Ev::Main), Action::DeliverTriggered(Ev::Main));
    assert_eq!(view.trigger_frame(), Action::Done);
    assert_eq!(view.trigger_deferrable_event(Ev::A), Action::Done);
    assert_eq!(view.resume(), Action::RunFrame);
    assert_eq!(view.trigger_deferrable_event(Ev::B), Action::Done);
    assert_eq!(view.resume(), Action::Deliver(Ev::A));
    assert_eq!(view.resume(), Action::Deliver(Ev::B));
    assert_eq!(view.resume(), Action::Done);
    assert!(view.handler_free());
}

#[test]
fn frame_runs_before_the_events_that_waited() {
    let mut view: ViewState<Ev> = ViewState::new(false);
    view.set_window_handler();
    assert_eq!(view.trigger_frame(), Action::RunFrame);
    assert_eq!(view.trigger_deferrable_event(Ev::A), Action::Done);
    assert_eq!(view.trigger_deferrable_event(Ev::B), Action::Done);
    // A frame asked for during a frame is dropped once the frame is done.
    assert_eq!(view.trigger_frame(), Action::Done);
    assert_eq!(view.resume(), Action::Deliver(Ev::A));
    assert_eq!(view.resume(), Action::Deliver(Ev::B));
    assert_eq!(view.resume(), Action::Done);
    let first = view.trigger_event(Ev::Main);
    assert_eq!(drive(&mut view, first), vec![Action::DeliverTriggered(Ev::Main), Action::Done]);
}

#[test]
fn closing_a_parentless_view() {
    let mut view: ViewState<Ev> = ViewState::new(true);
    view.set_window_handler();
    assert_eq!(view.trigger_event(Ev::Main), Action::DeliverTriggered(Ev::Main));
    assert_eq!(view.trigger_frame(), Action::Done);
    assert_eq!(view.resume(), Action::RunFrame);
    assert_eq!(view.resume(), Action::Done);
    assert_eq!(view.trigger_deferrable_event(Ev::A), Action::Deliver(Ev::A));
    assert_eq!(view.trigger_deferrable_event(Ev::B), Action::Done);
    assert_eq!(view.resume(), Action::Deliver(Ev::B));
    assert_eq!(view.resume(), Action::Done);
    let first = view.close(Ev::WillClose);
    assert_eq!(drive(&mut view, first), vec![
        Action::DeliverTriggered(Ev::WillClose),
        Action::CloseWindow,
        Action::StopApp,
    ]);
    assert!(!view.is_open());
    assert_eq!(view.close(Ev::WillClose), Action::Done);
    assert!(!view.is_open());
}

#[test]
fn view_is_open_while_its_window_closes() {
    let mut view: ViewState<Ev> = ViewState::new(true);
    view.set_window_handler();
    assert_eq!(view.close(Ev::WillClose), Action::DeliverTriggered(Ev::WillClose));
    assert_eq!(view.resume(), Action::CloseWindow);
    assert!(view.is_open());
    // The handler is free while the window closes.
    assert_eq!(view.trigger_deferrable_event(Ev::A), Action::Deliver(Ev::A));
    assert_eq!(view.resume(), Action::Done);
    assert_eq!(view.resume(), Action::StopApp);
    assert!(!view.is_open());
}

#[test]
fn closing_a_parented_view() {
    let mut view: ViewState<Ev> = ViewState::new(false);
    view.set_window_handler();
    let first = view.close(Ev::WillClose);
    assert_eq!(drive(&mut view, first), vec![Action::DeliverTriggered(Ev::WillClose), Action::Done]);
    assert!(!view.is_open());
    assert_eq!(view.close(Ev::WillClose), Action::Done);
}

#[test]
fn window_focus() {
    let view: ViewState<Ev> = ViewState::new(false);
    let mut window = Window::new(&view);
    assert!(!window.has_focus(None));
    assert!(window.has_focus(Some(WindowFocus { is_key_window: true, first_responder_is_view: true })));
    assert!(!window.has_focus(Some(WindowFocus { is_key_window: false, first_responder_is_view: true })));
    assert!(!window.has_focus(Some(WindowFocus { is_key_window: true, first_responder_is_view: false })));
    assert!(window.focus(true));
    assert!(!window.focus(false));
    assert!(window.is_open());
}

#[test]
fn handler_availability() {
    let mut view: ViewState<Ev> = ViewState::new(false);
    assert!(view.handler_idle());
    assert!(!view.handler_free());
    view.set_window_handler();
    assert!(view.handler_free());
    assert_eq!(view.trigger_event(Ev::Main), Action::DeliverTriggered(Ev::Main));
    assert!(!view.handler_idle());
    assert!(!view.handler_free());
    assert_eq!(view.resume(), Action::Done);
    assert!(view.handler_free());
}

#[test]
fn resuming_a_free_view_does_nothing() {
    let mut view: ViewState<Ev> = ViewState::new(false);
    view.set_window_handler();
    assert_eq!(view.resume(), Action::Done);
    assert!(view.handler_free());
    assert!(view.is_open());
}
