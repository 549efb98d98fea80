use rust_os::graphics::{Color, DrawOp};
use rust_os::window_manager::{ContentKind, Window, WindowManager};

fn win(title: &str, x: usize, y: usize, w: usize, h: usize) -> Window {
    Window::new(title.to_string(), x, y, w, h, Color::white())
}

fn stack_of(n: usize) -> WindowManager {
    let mut wm = WindowManager::new();
    for i in 0..n {
        wm.add_window(win(&format!("w{}", i), 10 * i, 10 * i, 100, 100));
    }
    wm
}

fn flags(wm: &WindowManager) -> Vec<bool> {
    (0..wm.window_count()).map(|i| wm.window(i).is_focused).collect()
}

#[test]
fn first_added_window_is_focused() {
    let wm = stack_of(4);
    assert_eq!(wm.focused(), Some(0));
    assert_eq!(flags(&wm), vec![true, false, false, false]);
}

#[test]
fn added_window_with_focus_flag_does_not_steal_focus() {
    let mut wm = stack_of(1);
    let mut w = win("late", 0, 0, 10, 10);
    w.is_focused = true;
    wm.add_window(w);
    assert_eq!(wm.focused(), Some(0));
    assert_eq!(flags(&wm), vec![true, false]);
}

#[test]
fn focus_moves_flag_and_ignores_bad_index() {
    let mut wm = stack_of(3);
    wm.focus_window(2);
    assert_eq!(wm.focused(), Some(2));
    assert_eq!(flags(&wm), vec![false, false, true]);
    wm.focus_window(7);
    assert_eq!(wm.focused(), Some(2));
}

#[test]
fn close_focused_moves_focus_below() {
    let mut wm = stack_of(4);
    wm.focus_window(2);
    wm.close_window(2);
    assert_eq!(wm.window_count(), 3);
    assert_eq!(wm.focused(), Some(1));
    assert_eq!(flags(&wm), vec![false, true, false]);
}

#[test]
fn close_focused_bottom_window_focuses_new_bottom() {
    let mut wm = stack_of(3);
    wm.close_window(0);
    assert_eq!(wm.focused(), Some(0));
    assert_eq!(wm.window(0).title, "w1");
    assert!(wm.window(0).is_focused);
}

#[test]
fn close_below_focus_shifts_focus_index() {
    let mut wm = stack_of(3);
    wm.focus_window(2);
    wm.close_window(0);
    assert_eq!(wm.focused(), Some(1));
    assert_eq!(wm.window(1).title, "w2");
}

#[test]
fn close_last_window_clears_focus_and_bad_index_is_ignored() {
    let mut wm = stack_of(1);
    wm.close_window(3);
    assert_eq!(wm.window_count(), 1);
    wm.close_window(0);
    assert_eq!(wm.window_count(), 0);
    assert_eq!(wm.focused(), None);
}

#[test]
fn close_focused_skips_minimized_neighbour() {
    let mut wm = stack_of(4);
    wm.minimize_window(1);
    wm.focus_window(2);
    wm.close_window(2);
    assert_eq!(wm.focused(), Some(0));
}

#[test]
fn minimize_focused_hands_focus_to_lowest_shown() {
    let mut wm = stack_of(3);
    wm.minimize_window(0);
    assert_eq!(wm.focused(), Some(1));
    wm.minimize_window(1);
    assert_eq!(wm.focused(), Some(2));
    wm.minimize_window(2);
    assert_eq!(wm.focused(), None);
    assert_eq!(flags(&wm), vec![false, false, false]);
}

#[test]
fn minimized_window_cannot_take_focus() {
    let mut wm = stack_of(3);
    wm.minimize_window(2);
    wm.focus_window(2);
    assert_eq!(wm.focused(), Some(0));
}

#[test]
fn maximize_covers_desktop_between_bars_and_toggles() {
    let mut wm = stack_of(2);
    wm.maximize_window(1);
    let w = wm.window(1);
    assert!(w.is_maximized);
    assert_eq!((w.x, w.y, w.width, w.height), (0, 24, 640, 396));
    wm.maximize_window(1);
    assert!(!wm.window(1).is_maximized);
    wm.maximize_window(9);
    assert_eq!(wm.window_count(), 2);
}

#[test]
fn hit_test_prefers_highest_index_and_skips_minimized() {
    let mut wm = WindowManager::new();
    wm.add_window(win("a", 0, 0, 100, 100));
    wm.add_window(win("b", 50, 50, 100, 100));
    assert_eq!(wm.get_window_at_point(60, 60), Some(1));
    assert_eq!(wm.get_window_at_point(10, 10), Some(0));
    assert_eq!(wm.get_window_at_point(150, 150), None);
    assert_eq!(wm.get_window_at_point(149, 149), Some(1));
    wm.minimize_window(1);
    assert_eq!(wm.get_window_at_point(60, 60), Some(0));
}

#[test]
fn draw_all_puts_focused_window_last() {
    let mut wm = stack_of(4);
    wm.focus_window(1);
    let mut ops = Vec::new();
    let order = wm.draw_all(&mut ops);
    assert_eq!(order, vec![0, 2, 3, 1]);
    assert!(!ops.is_empty());
}

#[test]
fn draw_all_skips_minimized_windows() {
    let mut wm = stack_of(3);
    wm.minimize_window(2);
    let mut ops = Vec::new();
    assert_eq!(wm.draw_all(&mut ops), vec![1, 0]);
    wm.minimize_window(0);
    wm.minimize_window(1);
    let mut none = Vec::new();
    assert_eq!(wm.draw_all(&mut none), Vec::<usize>::new());
    assert!(none.is_empty());
}

#[test]
fn minimized_window_draws_nothing() {
    let mut w = Window::with_content("t".to_string(), ContentKind::Terminal, 0, 0, 200, 100, Color::black());
    let mut ops = vec![DrawOp::Clear { color: Color::white() }];
    w.is_minimized = true;
    w.draw(&mut ops);
    assert_eq!(ops.len(), 1);
    w.is_minimized = false;
    w.draw(&mut ops);
    assert!(ops.len() > 1);
    assert!(matches!(ops[0], DrawOp::Clear { .. }));
}

#[test]
fn window_draw_shows_title() {
    let w = Window::new("Notes".to_string(), 5, 5, 200, 100, Color::white());
    let mut ops = Vec::new();
    w.draw(&mut ops);
    assert!(ops.iter().any(|op| matches!(op, DrawOp::Text { text, .. } if text == "Notes")));
}
