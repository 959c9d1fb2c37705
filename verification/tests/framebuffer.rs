use sandbox_backend::framebuffer::{clear_framebuffer, draw_crosshair, BACKGROUND};

#[test]
fn clear_sets_opaque_background() {
    let mut fb = vec![7u8; 10];
    clear_framebuffer(&mut fb);
    assert_eq!(fb, vec![30, 30, 30, 255, 30, 30, 30, 255, 7, 7]);
    assert_eq!(BACKGROUND, 30);
}

fn pixel(fb: &[u8], w: usize, x: usize, y: usize) -> [u8; 4] {
    let i = (y * w + x) * 4;
    [fb[i], fb[i + 1], fb[i + 2], fb[i + 3]]
}

#[test]
fn crosshair_black_centre_white_arms() {
    let (w, h) = (25usize, 25usize);
    let mut fb = vec![0u8; w * h * 4];
    clear_framebuffer(&mut fb);
    draw_crosshair(&mut fb, w, h, 12, 12);
    assert_eq!(pixel(&fb, w, 12, 12), [0, 0, 0, 255]);
    assert_eq!(pixel(&fb, w, 13, 12), [0, 0, 0, 255]);
    assert_eq!(pixel(&fb, w, 12, 11), [0, 0, 0, 255]);
    assert_eq!(pixel(&fb, w, 14, 12), [255, 255, 255, 255]);
    assert_eq!(pixel(&fb, w, 2, 12), [255, 255, 255, 255]);
    assert_eq!(pixel(&fb, w, 12, 22), [255, 255, 255, 255]);
    assert_eq!(pixel(&fb, w, 1, 12), [30, 30, 30, 255]);
    assert_eq!(pixel(&fb, w, 13, 13), [30, 30, 30, 255]);
}

#[test]
fn crosshair_clipped_at_edges() {
    let (w, h) = (4usize, 3usize);
    let mut fb = vec![9u8; w * h * 4];
    draw_crosshair(&mut fb, w, h, 0, 0);
    assert_eq!(pixel(&fb, w, 0, 0), [0, 0, 0, 255]);
    assert_eq!(pixel(&fb, w, 3, 0), [255, 255, 255, 255]);
    assert_eq!(pixel(&fb, w, 0, 2), [255, 255, 255, 255]);
    assert_eq!(pixel(&fb, w, 1, 1), [9, 9, 9, 9]);
}

#[test]
fn crosshair_outside_changes_nothing() {
    let mut fb = vec![5u8; 8 * 8 * 4];
    let before = fb.clone();
    draw_crosshair(&mut fb, 8, 8, -20, 40);
    assert_eq!(fb, before);
}

#[test]
fn crosshair_with_dimensions_beyond_i32() {
    let mut empty: Vec<u8> = vec![];
    draw_crosshair(&mut empty, 1usize << 31, 0, 0, 0);
    assert!(empty.is_empty());
    let mut fb = vec![7u8; 16];
    draw_crosshair(&mut fb, (1usize << 32) + 4, 1, 0, 0);
    assert_eq!(fb, vec![0, 0, 0, 255, 0, 0, 0, 255, 255, 255, 255, 255, 255, 255, 255, 255]);
    let mut fb2 = vec![7u8; 16];
    draw_crosshair(&mut fb2, 1usize << 31, 1, 0, 0);
    assert_eq!(fb2, vec![7u8; 16]);
}
