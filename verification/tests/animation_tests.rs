use mizu::animation::{decode_rle, FrameCursor};

#[test]
fn runs_expand_in_order() {
    assert_eq!(decode_rle(&[(3, 0), (2, 1), (0, 1), (1, 0)]), vec![0, 0, 0, 1, 1, 0]);
    assert_eq!(decode_rle(&[]), Vec::<u8>::new());
}

#[test]
fn a_full_frame_decodes_to_every_pixel() {
    let frame: Vec<(u16, u8)> = vec![(1800, 1), (1800, 0)];
    let px = decode_rle(&frame);
    assert_eq!(px.len(), 80 * 45);
    assert_eq!(px[1799], 1);
    assert_eq!(px[1800], 0);
}

#[test]
fn cursor_wraps_after_the_last_frame() {
    let mut c = FrameCursor::new();
    assert_eq!(c.frame, 0);
    for _ in 0..5 {
        c.advance(3);
    }
    assert_eq!(c.frame, 2);
    c.advance(3);
    assert_eq!(c.frame, 0);
}

#[test]
fn cursor_decodes_the_current_frame() {
    let f0: &[(u16, u8)] = &[(2, 1)];
    let f1: &[(u16, u8)] = &[(1, 0), (1, 1)];
    let frames = [f0, f1];
    let mut c = FrameCursor::new();
    assert_eq!(c.decode_current(&frames), vec![1, 1]);
    c.advance(2);
    assert_eq!(c.decode_current(&frames), vec![0, 1]);
}
