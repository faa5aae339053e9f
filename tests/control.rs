use physx_lines::control::{handle_event, Transition, ViewerEvent};

#[test]
fn close_request_quits() {
    let e = ViewerEvent::Window { close_requested: true, escape_down: false };
    assert_eq!(handle_event(e), Transition::Quit);
}

#[test]
fn escape_quits() {
    let e = ViewerEvent::Window { close_requested: false, escape_down: true };
    assert_eq!(handle_event(e), Transition::Quit);
}

#[test]
fn plain_window_event_stays() {
    let e = ViewerEvent::Window { close_requested: false, escape_down: false };
    assert_eq!(handle_event(e), Transition::Stay);
}

#[test]
fn other_event_stays() {
    assert_eq!(handle_event(ViewerEvent::Other), Transition::Stay);
}
