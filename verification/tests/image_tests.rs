use qemu_display::console_listener::{ConsoleEvent, Cursor, MouseSet, Scanout, Update};
use qemu_display::image::{
    image_from_vec, pixman_xrgb, BgraImage, ImageError, Rect, PIXMAN_X8R8G8B8,
};

#[test]
fn pixman_xrgb_format() {
    let f = pixman_xrgb();
    assert_eq!(f.bits_per_pixel, 32);
    assert_eq!(f.depth, 24);
    assert!(f.big_endian);
    assert!(f.true_colour);
    assert_eq!((f.red_max, f.green_max, f.blue_max), (255, 255, 255));
    assert_eq!((f.red_shift, f.green_shift, f.blue_shift), (16, 8, 0));
    assert_eq!(PIXMAN_X8R8G8B8, 0x20020888);
}

#[test]
fn new_image_is_black() {
    let img = BgraImage::new(3, 2);
    assert_eq!((img.width(), img.height()), (3, 2));
    assert_eq!(img.as_raw(), &vec![0u8; 24]);
}

#[test]
fn packed_data_is_kept() {
    // one byte more than the 2x2 image needs: a packed layout keeps it all
    let data: Vec<u8> = (0u8..17).collect();
    let img = image_from_vec(PIXMAN_X8R8G8B8, 2, 2, 8, data.clone());
    assert_eq!((img.width(), img.height()), (2, 2));
    assert_eq!(img.as_raw(), &data);
}

#[test]
fn strided_data_is_packed() {
    // 2x2 pixels, rows 12 bytes apart: the last 4 bytes of each row are padding
    let data: Vec<u8> = (0u8..24).collect();
    let img = image_from_vec(PIXMAN_X8R8G8B8, 2, 2, 12, data);
    assert_eq!(
        img.as_raw(),
        &vec![0, 1, 2, 3, 4, 5, 6, 7, 12, 13, 14, 15, 16, 17, 18, 19]
    );
}

#[test]
fn strided_data_without_last_padding() {
    // the last row needs no padding after it
    let data: Vec<u8> = (0u8..20).collect();
    let img = image_from_vec(PIXMAN_X8R8G8B8, 2, 2, 12, data);
    assert_eq!(
        img.as_raw(),
        &vec![0, 1, 2, 3, 4, 5, 6, 7, 12, 13, 14, 15, 16, 17, 18, 19]
    );
}

#[test]
fn empty_image() {
    let img = image_from_vec(PIXMAN_X8R8G8B8, 0, 0, 0, vec![]);
    assert_eq!((img.width(), img.height()), (0, 0));
    assert!(img.as_raw().is_empty());
}

#[test]
fn copy_from_paints_rectangle() {
    let mut img = BgraImage::new(3, 2);
    let src = image_from_vec(PIXMAN_X8R8G8B8, 1, 1, 4, vec![1, 2, 3, 4]);
    assert_eq!(img.copy_from(&src, 2, 1), Ok(()));
    let mut want = vec![0u8; 24];
    want[20..24].copy_from_slice(&[1, 2, 3, 4]);
    assert_eq!(img.as_raw(), &want);
}

#[test]
fn copy_from_refuses_what_does_not_fit() {
    let mut img = BgraImage::new(3, 2);
    let src = image_from_vec(PIXMAN_X8R8G8B8, 2, 1, 8, vec![1; 8]);
    assert_eq!(img.copy_from(&src, 2, 0), Err(ImageError::DimensionMismatch));
    assert_eq!(img.copy_from(&src, 0, 2), Err(ImageError::DimensionMismatch));
    assert_eq!(img.as_raw(), &vec![0u8; 24]);
    assert_eq!(img.copy_from(&src, 1, 1), Ok(()));
}

#[test]
fn scanout_replaces_image() {
    let mut img = BgraImage::new(1, 1);
    let ev = ConsoleEvent::Scanout(Scanout {
        width: 2,
        height: 1,
        stride: 8,
        format: PIXMAN_X8R8G8B8,
        data: vec![1, 2, 3, 4, 5, 6, 7, 8],
    });
    assert_eq!(img.apply_console_event(ev), None);
    assert_eq!((img.width(), img.height()), (2, 1));
    assert_eq!(img.as_raw(), &vec![1, 2, 3, 4, 5, 6, 7, 8]);
}

#[test]
fn update_paints_and_asks_redraw() {
    let mut img = BgraImage::new(2, 2);
    let ev = ConsoleEvent::Update(Update {
        x: 1,
        y: 1,
        w: 1,
        h: 1,
        stride: 4,
        format: PIXMAN_X8R8G8B8,
        data: vec![9, 8, 7, 6],
    });
    assert_eq!(
        img.apply_console_event(ev),
        Some(Rect { left: 1, top: 1, width: 1, height: 1 })
    );
    let mut want = vec![0u8; 16];
    want[12..16].copy_from_slice(&[9, 8, 7, 6]);
    assert_eq!(img.as_raw(), &want);
}

#[test]
fn full_update_replaces_image() {
    let mut img = BgraImage::new(1, 2);
    let ev = ConsoleEvent::Update(Update {
        x: 0,
        y: 0,
        w: 1,
        h: 2,
        stride: 8,
        format: PIXMAN_X8R8G8B8,
        data: vec![1, 2, 3, 4, 0, 0, 0, 0, 5, 6, 7, 8],
    });
    assert_eq!(
        img.apply_console_event(ev),
        Some(Rect { left: 0, top: 0, width: 1, height: 2 })
    );
    assert_eq!((img.width(), img.height()), (1, 2));
    assert_eq!(img.as_raw(), &vec![1, 2, 3, 4, 5, 6, 7, 8]);
}

#[test]
fn cursor_and_mouse_events_change_nothing() {
    let mut img = BgraImage::new(1, 1);
    let c = ConsoleEvent::CursorDefine(Cursor { width: 1, height: 1, hot_x: 0, hot_y: 0, data: vec![1, 1, 1, 1] });
    assert_eq!(img.apply_console_event(c), None);
    let m = ConsoleEvent::MouseSet(MouseSet { x: 1, y: 1, on: 1 });
    assert_eq!(img.apply_console_event(m), None);
    assert_eq!(img.apply_console_event(ConsoleEvent::Disconnected), None);
    assert_eq!(img.as_raw(), &vec![0u8; 4]);
}

#[test]
fn dimensions_cut_to_16_bits() {
    let img = image_from_vec(PIXMAN_X8R8G8B8, 65537, 1, 0, vec![0u8; 4 * 65537]);
    assert_eq!(img.dimensions(), (1, 1));
    assert_eq!(img.full_rect(), Rect { left: 0, top: 0, width: 1, height: 1 });
    let img = BgraImage::new(640, 480);
    assert_eq!(img.dimensions(), (640, 480));
    assert_eq!(img.full_rect(), Rect { left: 0, top: 0, width: 640, height: 480 });
}

#[test]
fn packed_rows_of_no_height_keep_data() {
    // two pixels wide, no rows: the crate keeps the samples as the buffer
    let img = image_from_vec(PIXMAN_X8R8G8B8, 2, 0, 8, vec![1, 2, 3]);
    assert_eq!((img.width(), img.height()), (2, 0));
    assert_eq!(img.as_raw(), &vec![1, 2, 3]);
}

#[test]
fn single_column_of_no_height_is_copied() {
    // one pixel wide, no rows: not row-major packed for the crate, so copied
    let img = image_from_vec(PIXMAN_X8R8G8B8, 1, 0, 4, vec![1, 2, 3]);
    assert_eq!((img.width(), img.height()), (1, 0));
    assert!(img.as_raw().is_empty());
}

#[test]
fn packed_full_update_becomes_buffer() {
    let mut img = BgraImage::new(1, 2);
    let ev = ConsoleEvent::Update(Update {
        x: 0,
        y: 0,
        w: 1,
        h: 2,
        stride: 4,
        format: PIXMAN_X8R8G8B8,
        data: vec![1, 2, 3, 4, 5, 6, 7, 8, 9],
    });
    assert_eq!(
        img.apply_console_event(ev),
        Some(Rect { left: 0, top: 0, width: 1, height: 2 })
    );
    assert_eq!(img.as_raw(), &vec![1, 2, 3, 4, 5, 6, 7, 8, 9]);
}

#[test]
fn partial_update_keeps_buffer_length() {
    // a buffer with a byte past its pixels, from a packed scanout
    let mut img = image_from_vec(PIXMAN_X8R8G8B8, 2, 1, 8, vec![0, 0, 0, 0, 0, 0, 0, 0, 7]);
    let ev = ConsoleEvent::Update(Update {
        x: 1,
        y: 0,
        w: 1,
        h: 1,
        stride: 4,
        format: PIXMAN_X8R8G8B8,
        data: vec![1, 2, 3, 4],
    });
    assert_eq!(
        img.apply_console_event(ev),
        Some(Rect { left: 1, top: 0, width: 1, height: 1 })
    );
    assert_eq!(img.as_raw(), &vec![0, 0, 0, 0, 1, 2, 3, 4, 7]);
}
