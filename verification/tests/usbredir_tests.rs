use qemu_display::usbredir::device_state_reply;

#[test]
fn switch_succeeds() {
    let r = device_state_reply(true, Ok(true));
    assert_eq!(r.active, Some(true));
    assert!(r.error.is_none());
    let r = device_state_reply(false, Ok(false));
    assert_eq!(r.active, Some(false));
    assert!(r.error.is_none());
}

#[test]
fn switch_on_fails() {
    let r = device_state_reply(true, Err("no free channel".to_string()));
    assert_eq!(r.active, Some(false));
    assert_eq!(r.error.as_deref(), Some("no free channel"));
}

#[test]
fn switch_off_fails() {
    let r = device_state_reply(false, Err("busy".to_string()));
    assert_eq!(r.active, None);
    assert_eq!(r.error.as_deref(), Some("busy"));
}
