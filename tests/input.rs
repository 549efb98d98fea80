use rust_os::keyboard::{Key, Keyboard};
use rust_os::mouse::{Mouse, MouseButton};

#[test]
fn key_down_records_key_and_modifiers() {
    let mut k = Keyboard::new();
    let e = k.key_down(Key::LeftShift);
    assert!(e.pressed && e.shift && !e.ctrl);
    let e = k.key_down(Key::A);
    assert!(e.shift);
    assert_eq!(e.key, Key::A);
    assert!(k.is_key_pressed(Key::A));
    assert!(k.is_key_pressed(Key::LeftShift));
    assert!(!k.is_key_pressed(Key::B));
}

#[test]
fn key_up_releases_key_and_modifier() {
    let mut k = Keyboard::new();
    k.key_down(Key::RightCmd);
    k.key_down(Key::Q);
    k.key_down(Key::Q);
    let e = k.key_up(Key::Q);
    assert!(!e.pressed && e.cmd);
    assert!(!k.is_key_pressed(Key::Q));
    let e = k.key_up(Key::RightCmd);
    assert!(!e.cmd);
    assert!(!k.is_key_pressed(Key::RightCmd));
}

#[test]
fn mouse_buttons_and_motion() {
    let mut m = Mouse::new();
    assert_eq!((m.x, m.y), (320, 240));
    m.button_down(MouseButton::Left);
    m.button_down(MouseButton::Middle);
    assert!(m.left_button && m.middle_button && !m.right_button);
    m.button_up(MouseButton::Left);
    assert!(!m.left_button && m.middle_button);
    m.move_to(5, 6);
    m.scroll(-3);
    assert_eq!((m.x, m.y, m.scroll_delta), (5, 6, -3));
}
