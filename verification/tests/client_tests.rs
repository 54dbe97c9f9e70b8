use qemu_display::client::{Client, ClientAction, Event, VncEvent};
use qemu_display::image::Rect;
use qemu_display::mouse::MouseButton;

fn request() -> Event {
    Event::Vnc(VncEvent::FramebufferUpdateRequest {
        incremental: true,
        x_position: 0,
        y_position: 0,
        width: 640,
        height: 480,
    })
}

/// Handles an event and reports its actions done.
fn step(c: &mut Client, ev: Option<Event>, keymap: &[u16]) -> (bool, Vec<ClientAction>) {
    let res = c.handle_event(ev, keymap);
    c.actions_done();
    res
}

/// Handles a client message and reports its actions done.
fn vnc(c: &mut Client, ev: VncEvent, keymap: &[u16]) -> Vec<ClientAction> {
    let res = c.handle_vnc_event(ev, keymap);
    c.actions_done();
    res
}

fn console_update() -> Event {
    Event::ConsoleUpdate(Rect { left: 0, top: 0, width: 1, height: 1 })
}

#[test]
fn new_client_owes_nothing() {
    let c = Client::new(true);
    assert!(c.share());
    assert!(!c.update_pending());
}

#[test]
fn update_sent_when_requested_after_change() {
    let mut c = Client::new(false);
    assert_eq!(step(&mut c, Some(console_update()), &[]), (true, vec![]));
    assert!(!c.update_pending());
    assert_eq!(
        step(&mut c, Some(request()), &[]),
        (true, vec![ClientAction::SendFramebufferUpdate])
    );
    assert!(!c.update_pending());
    // nothing changed since: a new request waits
    assert_eq!(step(&mut c, Some(request()), &[]), (true, vec![]));
    assert_eq!(step(&mut c, None, &[]), (true, vec![]));
}

#[test]
fn request_before_change_waits_for_change() {
    let mut c = Client::new(false);
    assert_eq!(step(&mut c, Some(request()), &[]), (true, vec![]));
    assert_eq!(step(&mut c, Some(console_update()), &[]), (true, vec![]));
    assert!(c.update_pending());
    assert_eq!(
        step(&mut c, None, &[]),
        (true, vec![ClientAction::SendFramebufferUpdate])
    );
    assert!(!c.update_pending());
}

#[test]
fn send_framebuffer_update_only_when_owed() {
    let mut c = Client::new(false);
    assert_eq!(c.send_framebuffer_update(), vec![]);
    c.actions_done();
    step(&mut c, Some(console_update()), &[]);
    assert_eq!(c.send_framebuffer_update(), vec![]);
    c.actions_done();
    assert!(!c.update_pending());
}

#[test]
fn disconnection_ends_session() {
    let mut c = Client::new(false);
    step(&mut c, Some(console_update()), &[]);
    assert_eq!(step(&mut c, Some(Event::Disconnected), &[]), (false, vec![]));
    assert!(!c.update_pending());
}

#[test]
fn keys_are_translated() {
    let keymap: Vec<u16> = vec![0, 0, 30, 48];
    let mut c = Client::new(false);
    assert_eq!(
        vnc(&mut c, VncEvent::KeyEvent { down: true, key: 2 }, &keymap),
        vec![ClientAction::KeyPress(30)]
    );
    assert_eq!(
        vnc(&mut c, VncEvent::KeyEvent { down: false, key: 3 }, &keymap),
        vec![ClientAction::KeyRelease(48)]
    );
    // a keysym past the end of the map is ignored
    assert_eq!(vnc(&mut c, VncEvent::KeyEvent { down: true, key: 4 }, &keymap), vec![]);
}

#[test]
fn pointer_presses_and_releases_changes() {
    let mut c = Client::new(false);
    let ev = VncEvent::PointerEvent { button_mask: 0b101, x_position: 10, y_position: 20 };
    assert_eq!(
        vnc(&mut c, ev, &[]),
        vec![
            ClientAction::MousePress(MouseButton::Left),
            ClientAction::MousePress(MouseButton::Right),
            ClientAction::MouseSetAbsPosition(10, 20),
        ]
    );
    let ev = VncEvent::PointerEvent { button_mask: 0b110, x_position: 11, y_position: 21 };
    assert_eq!(
        vnc(&mut c, ev, &[]),
        vec![
            ClientAction::MousePress(MouseButton::Middle),
            ClientAction::MouseRelease(MouseButton::Left),
            ClientAction::MouseSetAbsPosition(11, 21),
        ]
    );
    let ev = VncEvent::PointerEvent { button_mask: 0b110, x_position: 12, y_position: 22 };
    assert_eq!(vnc(&mut c, ev, &[]), vec![ClientAction::MouseSetAbsPosition(12, 22)]);
    let ev = VncEvent::PointerEvent { button_mask: 0, x_position: 0, y_position: 0 };
    assert_eq!(
        vnc(&mut c, ev, &[]),
        vec![
            ClientAction::MouseRelease(MouseButton::Middle),
            ClientAction::MouseRelease(MouseButton::Right),
            ClientAction::MouseSetAbsPosition(0, 0),
        ]
    );
}

#[test]
fn other_messages_are_ignored() {
    let mut c = Client::new(false);
    assert_eq!(step(&mut c, Some(Event::Vnc(VncEvent::Other)), &[]), (true, vec![]));
}

#[test]
fn state_moves_on_only_once_actions_are_done() {
    let mut c = Client::new(false);
    step(&mut c, Some(console_update()), &[]);
    assert_eq!(
        c.handle_event(Some(request()), &[]),
        (true, vec![ClientAction::SendFramebufferUpdate])
    );
    // while the update is being sent, it is still owed
    assert!(c.update_pending());
    c.actions_done();
    assert!(!c.update_pending());

    // buttons count as held only once their presses are done
    let ev = VncEvent::PointerEvent { button_mask: 1, x_position: 0, y_position: 0 };
    assert_eq!(
        c.handle_vnc_event(ev, &[]),
        vec![ClientAction::MousePress(MouseButton::Left), ClientAction::MouseSetAbsPosition(0, 0)]
    );
    // the presses were not done: the same event asks for them again
    assert_eq!(
        c.handle_vnc_event(ev, &[]),
        vec![ClientAction::MousePress(MouseButton::Left), ClientAction::MouseSetAbsPosition(0, 0)]
    );
    c.actions_done();
    assert_eq!(c.handle_vnc_event(ev, &[]), vec![ClientAction::MouseSetAbsPosition(0, 0)]);
}
