use singularity_win_compositor::capture::{
    bgra_to_rgba, capture_window, BitmapInfo, Capture, CaptureAction, ClientRect,
};

fn rect(left: i32, top: i32, right: i32, bottom: i32) -> ClientRect {
    ClientRect { left, top, right, bottom }
}

const BITS: [u8; 24] = [
    1, 2, 3, 0, 4, 5, 6, 9, 7, 8, 9, 255, 10, 11, 12, 0, 13, 14, 15, 0, 16, 17, 18, 0,
];

const PIXELS: [u8; 24] = [
    3, 2, 1, 255, 6, 5, 4, 255, 9, 8, 7, 255, 12, 11, 10, 255, 15, 14, 13, 255, 18, 17, 16, 255,
];

#[test]
fn red_and_blue_change_places() {
    assert_eq!(bgra_to_rgba(&BITS), PIXELS);
    assert_eq!(bgra_to_rgba(&[]), []);
}

#[test]
fn incomplete_pixel_is_dropped() {
    assert_eq!(bgra_to_rgba(&[1, 2, 3, 4, 5, 6, 7]), [3, 2, 1, 255]);
}

#[test]
fn exchanging_twice_restores_the_colours() {
    let twice = bgra_to_rgba(&bgra_to_rgba(&BITS));
    for i in 0..BITS.len() {
        assert_eq!(twice[i], if i % 4 == 3 { 255 } else { BITS[i] });
    }
}

#[test]
fn frame_has_the_size_of_the_client_area() {
    let frame = capture_window(Some(rect(0, 0, 3, 2)), true, true, &BITS).unwrap();
    assert_eq!((frame.width, frame.height), (3, 2));
    assert_eq!(frame.rgba, PIXELS);
}

#[test]
fn pixels_keep_their_place() {
    let frame = capture_window(Some(rect(-1, 5, 1, 8)), true, true, &BITS).unwrap();
    assert_eq!((frame.width, frame.height), (2, 3));
    let image = image::RgbaImage::from_vec(2, 3, frame.rgba).unwrap();
    assert_eq!(image.get_pixel(1, 2).0, [18, 17, 16, 255]);
    assert_eq!(image.get_pixel(0, 1).0, [9, 8, 7, 255]);
}

#[test]
fn no_frame_without_a_client_area() {
    assert!(capture_window(None, true, true, &[]).is_none());
    assert!(capture_window(Some(rect(0, 0, 0, 4)), true, true, &[]).is_none());
    assert!(capture_window(Some(rect(0, 0, 4, 0)), true, true, &[]).is_none());
    assert!(capture_window(Some(rect(4, 0, 0, 4)), true, true, &[]).is_none());
}

#[test]
fn no_frame_without_a_bitmap() {
    assert!(capture_window(Some(rect(0, 0, 3, 2)), false, true, &[]).is_none());
}

#[test]
fn no_frame_of_what_was_not_drawn() {
    assert!(capture_window(Some(rect(0, 0, 3, 2)), true, false, &[]).is_none());
}

#[test]
fn edges_too_far_apart_cannot_be_measured() {
    assert!(rect(0, 0, i32::MAX, i32::MAX).is_measurable());
    assert!(!rect(-1, 0, i32::MAX, 1).is_measurable());
    assert!(!rect(0, i32::MAX, 1, -2).is_measurable());
}

#[test]
fn capture_cleans_up_in_order() {
    let mut capture = Capture::new();
    assert_eq!(capture.action(), CaptureAction::MeasureClient);
    capture.measured(Some(rect(0, 0, 3, 2)));
    assert_eq!(capture.action(), CaptureAction::CreateDc);
    capture.done();
    let info = BitmapInfo { width: 3, height: -2, planes: 1, bit_count: 32, compression: 0 };
    assert_eq!(capture.action(), CaptureAction::CreateBitmap(info));
    capture.bitmap_created(true);
    assert_eq!(capture.action(), CaptureAction::SelectBitmap);
    capture.done();
    assert_eq!(capture.action(), CaptureAction::Print(3));
    capture.printed(true);
    assert_eq!(capture.action(), CaptureAction::Flush);
    capture.done();
    assert_eq!(capture.action(), CaptureAction::ReadBits);
    assert_eq!(capture.byte_len(), Some(24));
    capture.bits_read(&BITS);
    assert_eq!(capture.action(), CaptureAction::RestoreObject);
    capture.done();
    assert_eq!(capture.action(), CaptureAction::DeleteBitmap);
    capture.done();
    assert_eq!(capture.action(), CaptureAction::DeleteDc);
    capture.done();
    assert_eq!(capture.action(), CaptureAction::Finish);
    assert_eq!(capture.into_frame().unwrap().rgba, PIXELS);
}

#[test]
fn failed_bitmap_leaves_only_the_context_to_delete() {
    let mut capture = Capture::new();
    capture.measured(Some(rect(0, 0, 3, 2)));
    capture.done();
    capture.bitmap_created(false);
    assert_eq!(capture.action(), CaptureAction::DeleteDc);
    capture.done();
    assert_eq!(capture.action(), CaptureAction::Finish);
    assert!(capture.into_frame().is_none());
}

#[test]
fn failed_drawing_is_flushed_and_cleaned_up() {
    let mut capture = Capture::new();
    capture.measured(Some(rect(0, 0, 3, 2)));
    capture.done();
    capture.bitmap_created(true);
    capture.done();
    capture.printed(false);
    assert_eq!(capture.action(), CaptureAction::Flush);
    capture.done();
    assert_eq!(capture.action(), CaptureAction::RestoreObject);
}

#[test]
fn empty_client_area_creates_nothing() {
    let mut capture = Capture::new();
    capture.measured(Some(rect(0, 0, 0, 0)));
    assert_eq!(capture.action(), CaptureAction::Finish);
}

#[test]
fn too_many_bytes_are_noticed() {
    for (width, height, len) in [
        (23170, 23170, Some(2147395600)),
        (536870911, 1, Some(2147483644)),
        (536870912, 1, None),
        (i32::MAX, i32::MAX, None),
    ] {
        let mut capture = Capture::new();
        capture.measured(Some(rect(0, 0, width, height)));
        capture.done();
        capture.bitmap_created(true);
        capture.done();
        capture.printed(true);
        capture.done();
        assert_eq!(capture.byte_len(), len);
    }
}
