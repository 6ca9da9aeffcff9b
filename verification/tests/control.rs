use geph_bootstrap::control::{
    ControlEvent, ControlHandler, ControlReply, HandlerResult, ShutdownSignal,
};

#[test]
fn fresh_signal_is_not_raised() {
    let signal = ShutdownSignal::new();
    assert!(!signal.raised());
}

#[test]
fn signal_is_raised_once() {
    let mut signal = ShutdownSignal::new();
    assert!(signal.raise());
    assert!(signal.raised());
    assert!(!signal.raise());
    assert!(!signal.raise());
    assert!(signal.raised());
}

#[test]
fn stop_is_acknowledged_and_signals_shutdown() {
    let mut handler = ControlHandler::new();
    assert!(!handler.shutdown_requested());
    let reply = handler.handle(ControlEvent::Stop);
    assert_eq!(reply, ControlReply { result: HandlerResult::NoError, signal_shutdown: true });
    assert!(handler.shutdown_requested());
}

#[test]
fn interrogate_is_acknowledged_and_does_nothing() {
    let mut handler = ControlHandler::new();
    let reply = handler.handle(ControlEvent::Interrogate);
    assert_eq!(reply, ControlReply { result: HandlerResult::NoError, signal_shutdown: false });
    assert!(!handler.shutdown_requested());
}

#[test]
fn other_controls_are_not_implemented() {
    let mut handler = ControlHandler::new();
    let reply = handler.handle(ControlEvent::Other);
    assert_eq!(
        reply,
        ControlReply { result: HandlerResult::NotImplemented, signal_shutdown: false }
    );
    assert!(!handler.shutdown_requested());
}

#[test]
fn second_stop_is_acknowledged_but_does_not_signal_again() {
    let mut handler = ControlHandler::new();
    let first = handler.handle(ControlEvent::Stop);
    let second = handler.handle(ControlEvent::Stop);
    let third = handler.handle(ControlEvent::Stop);
    assert!(first.signal_shutdown);
    assert_eq!(second, ControlReply { result: HandlerResult::NoError, signal_shutdown: false });
    assert_eq!(third, ControlReply { result: HandlerResult::NoError, signal_shutdown: false });
}

#[test]
fn any_number_of_stops_writes_one_value() {
    let events = [
        ControlEvent::Interrogate,
        ControlEvent::Other,
        ControlEvent::Stop,
        ControlEvent::Interrogate,
        ControlEvent::Stop,
        ControlEvent::Other,
        ControlEvent::Stop,
    ];
    let mut handler = ControlHandler::new();
    let mut written = 0;
    for event in events {
        if handler.handle(event).signal_shutdown {
            written += 1;
        }
    }
    assert_eq!(written, 1);
}

#[test]
fn no_stop_writes_no_value() {
    let events = [ControlEvent::Interrogate, ControlEvent::Other, ControlEvent::Interrogate];
    let mut handler = ControlHandler::new();
    let mut written = 0;
    for event in events {
        if handler.handle(event).signal_shutdown {
            written += 1;
        }
    }
    assert_eq!(written, 0);
    assert!(!handler.shutdown_requested());
}

#[test]
fn shutdown_channel_receives_exactly_one_value() {
    let (sender, receiver) = std::sync::mpsc::channel();
    let mut handler = ControlHandler::new();
    for event in [ControlEvent::Stop, ControlEvent::Stop, ControlEvent::Interrogate] {
        if handler.handle(event).signal_shutdown {
            sender.send(()).unwrap();
        }
    }
    drop(sender);
    assert_eq!(receiver.iter().count(), 1);
}
