use qemu_display::mouse::{button_difference, button_mask_to_set, has_button, MouseButton};

#[test]
fn mask_bits_name_buttons_in_order() {
    assert_eq!(button_mask_to_set(0), vec![]);
    assert_eq!(button_mask_to_set(0b0000_0001), vec![MouseButton::Left]);
    assert_eq!(button_mask_to_set(0b0000_0010), vec![MouseButton::Middle]);
    assert_eq!(button_mask_to_set(0b0000_0100), vec![MouseButton::Right]);
    assert_eq!(button_mask_to_set(0b0000_1000), vec![MouseButton::WheelUp]);
    assert_eq!(button_mask_to_set(0b0001_0000), vec![MouseButton::WheelDown]);
    assert_eq!(
        button_mask_to_set(0b0001_0101),
        vec![MouseButton::Left, MouseButton::Right, MouseButton::WheelDown]
    );
}

#[test]
fn high_mask_bits_are_ignored() {
    assert_eq!(button_mask_to_set(0b1110_0000), vec![]);
    assert_eq!(button_mask_to_set(0xff).len(), 5);
}

#[test]
fn difference_keeps_order() {
    let a = vec![MouseButton::Left, MouseButton::Middle, MouseButton::WheelUp];
    let b = vec![MouseButton::Middle, MouseButton::Right];
    assert_eq!(button_difference(&a, &b), vec![MouseButton::Left, MouseButton::WheelUp]);
    assert_eq!(button_difference(&b, &a), vec![MouseButton::Right]);
    assert_eq!(button_difference(&a, &a), vec![]);
}

#[test]
fn membership() {
    let a = vec![MouseButton::Left, MouseButton::WheelUp];
    assert!(has_button(&a, MouseButton::WheelUp));
    assert!(!has_button(&a, MouseButton::Right));
}
