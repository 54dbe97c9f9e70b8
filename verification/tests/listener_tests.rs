use qemu_display::console_listener::{
    ConsoleEvent, ConsoleEventQueue, ConsoleListener, ListenerError, ScanoutDMABUF,
};

#[test]
fn listener_hands_messages_on() {
    let mut l = ConsoleListener::new(ConsoleEventQueue::new());
    l.scanout(2, 1, 8, 0x20020888, vec![1, 2, 3, 4, 5, 6, 7, 8]);
    l.update(1, 0, 1, 1, 4, 0x20020888, vec![9, 9, 9, 9]);
    assert!(l.scanout_dmabuf(7, 640, 480, 2560, 0x34325258, 0, true).is_ok());
    assert!(l.update_dmabuf(0, 0, 10, 10).is_ok());
    l.mouse_set(3, 4, 1);
    l.cursor_define(1, 1, 0, 0, vec![0, 0, 0, 255]);
    l.disconnect();
    let ev = l.handler.events();
    assert_eq!(ev.len(), 7);
    match &ev[0] {
        ConsoleEvent::Scanout(s) => {
            assert_eq!((s.width, s.height, s.stride, s.format), (2, 1, 8, 0x20020888));
            assert_eq!(s.data, vec![1, 2, 3, 4, 5, 6, 7, 8]);
        }
        _ => panic!("expected a scanout"),
    }
    match &ev[1] {
        ConsoleEvent::Update(u) => {
            assert_eq!((u.x, u.y, u.w, u.h, u.stride, u.format), (1, 0, 1, 1, 4, 0x20020888));
            assert_eq!(u.data, vec![9, 9, 9, 9]);
        }
        _ => panic!("expected an update"),
    }
    match &ev[2] {
        ConsoleEvent::ScanoutDMABUF(s) => {
            assert_eq!((s.fd, s.width, s.height, s.stride), (7, 640, 480, 2560));
            assert_eq!((s.fourcc, s.modifier, s.y0_top), (0x34325258, 0, true));
        }
        _ => panic!("expected a DMA buffer scanout"),
    }
    match &ev[3] {
        ConsoleEvent::UpdateDMABUF(u) => assert_eq!((u.x, u.y, u.w, u.h), (0, 0, 10, 10)),
        _ => panic!("expected a DMA buffer update"),
    }
    match &ev[4] {
        ConsoleEvent::MouseSet(m) => assert_eq!((m.x, m.y, m.on), (3, 4, 1)),
        _ => panic!("expected a mouse position"),
    }
    match &ev[5] {
        ConsoleEvent::CursorDefine(c) => {
            assert_eq!((c.width, c.height, c.hot_x, c.hot_y), (1, 1, 0, 0));
            assert_eq!(c.data, vec![0, 0, 0, 255]);
        }
        _ => panic!("expected a cursor"),
    }
    assert!(matches!(ev[6], ConsoleEvent::Disconnected));
}

#[test]
fn shared_maps_are_refused() {
    let mut l = ConsoleListener::new(ConsoleEventQueue::new());
    match l.scanout_map(1, 0, 640, 480, 2560, 0x20020888) {
        Err(ListenerError::NotSupported(m)) => {
            assert_eq!(m, "Shared map is not support on !windows")
        }
        Ok(()) => panic!("a shared map scanout was accepted"),
    }
    match l.update_map(0, 0, 1, 1) {
        Err(ListenerError::NotSupported(m)) => {
            assert_eq!(m, "Shared map is not support on !windows")
        }
        Ok(()) => panic!("a shared map update was accepted"),
    }
    assert!(l.handler.events().is_empty());
}

#[test]
fn dmabuf_descriptor_is_released_once() {
    let mut s = ScanoutDMABUF {
        fd: 5,
        width: 1,
        height: 1,
        stride: 4,
        fourcc: 0,
        modifier: 0,
        y0_top: false,
    };
    assert_eq!(s.take_fd(), Some(5));
    assert_eq!(s.fd, -1);
    assert_eq!(s.take_fd(), None);
    assert_eq!(s.into_raw_fd(), -1);
}

#[test]
fn dmabuf_without_descriptor() {
    let mut s = ScanoutDMABUF {
        fd: -1,
        width: 1,
        height: 1,
        stride: 4,
        fourcc: 0,
        modifier: 0,
        y0_top: false,
    };
    assert_eq!(s.take_fd(), None);
    let s = ScanoutDMABUF {
        fd: 9,
        width: 1,
        height: 1,
        stride: 4,
        fourcc: 0,
        modifier: 0,
        y0_top: false,
    };
    assert_eq!(s.into_raw_fd(), 9);
}

#[test]
fn queue_hands_events_over_once() {
    let mut l = ConsoleListener::new(ConsoleEventQueue::new());
    l.mouse_set(1, 2, 0);
    l.disconnect();
    let taken = l.handler.take_events();
    assert_eq!(taken.len(), 2);
    assert!(matches!(taken[0], ConsoleEvent::MouseSet(m) if (m.x, m.y, m.on) == (1, 2, 0)));
    assert!(matches!(taken[1], ConsoleEvent::Disconnected));
    assert!(l.handler.events().is_empty());
    assert!(l.handler.take_events().is_empty());
}
