use rust_os::graphics::{pixel_offset, rgb_to_vga, Color};

#[test]
fn pixel_offsets_clip_at_screen_edges() {
    assert_eq!(pixel_offset(0, 0), Some(0));
    assert_eq!(pixel_offset(639, 479), Some(479 * 640 + 639));
    assert_eq!(pixel_offset(640, 0), None);
    assert_eq!(pixel_offset(0, 480), None);
}

#[test]
fn palette_lookup() {
    assert_eq!(rgb_to_vga(Color::white()), 15);
    assert_eq!(rgb_to_vga(Color::black()), 0);
    assert_eq!(rgb_to_vga(Color::dark_gray()), 8);
    assert_eq!(rgb_to_vga(Color::blue()), 9);
    assert_eq!(rgb_to_vga(Color::new(1, 2, 3)), 7);
}
