use qemu_display::console::console_object_path;

#[test]
fn console_paths() {
    assert_eq!(console_object_path(0), "/org/qemu/Display1/Console_0");
    assert_eq!(console_object_path(7), "/org/qemu/Display1/Console_7");
    assert_eq!(console_object_path(10), "/org/qemu/Display1/Console_10");
    assert_eq!(console_object_path(42), "/org/qemu/Display1/Console_42");
    assert_eq!(console_object_path(u32::MAX), "/org/qemu/Display1/Console_4294967295");
}

#[test]
fn console_paths_differ() {
    assert_ne!(console_object_path(1), console_object_path(11));
    assert_ne!(console_object_path(12), console_object_path(21));
}
