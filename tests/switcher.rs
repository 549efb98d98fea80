use rust_os::mission_control::MissionControl;
use rust_os::graphics::{Color, DrawOp};

#[test]
fn switch_clamps_at_both_ends() {
    let mut m = MissionControl::new();
    m.switch_space(-1);
    assert_eq!(m.current_space, 0);
    for _ in 0..5 {
        m.switch_space(1);
    }
    assert_eq!(m.current_space, m.desktop_spaces.len() - 1);
    m.switch_space(0);
    assert_eq!(m.current_space, 1);
    m.switch_space(-3);
    assert_eq!(m.current_space, 0);
}

#[test]
fn switch_on_empty_list_stays_put() {
    let mut m = MissionControl::new();
    m.desktop_spaces.clear();
    m.switch_space(1);
    m.switch_space(-1);
    assert_eq!(m.current_space, 0);
}

#[test]
fn entry_progress_rises_while_shown_and_caps() {
    let mut m = MissionControl::new();
    m.update();
    assert_eq!(m.animation_progress, 0);
    m.show();
    m.update();
    assert_eq!(m.animation_progress, 5);
    for _ in 0..30 {
        m.update();
    }
    assert_eq!(m.animation_progress, 100);
    m.close();
    assert!(!m.is_visible);
    m.show();
    assert_eq!(m.animation_progress, 0);
}

#[test]
fn starts_with_two_desktops() {
    let m = MissionControl::new();
    assert_eq!(m.desktop_spaces.len(), 2);
    assert_eq!(m.desktop_spaces[1].id, 1);
    let mut ops = Vec::new();
    m.draw(&mut ops);
    assert!(ops.is_empty());
}

#[test]
fn only_current_desktop_gets_blue_border_and_label() {
    let mut m = MissionControl::new();
    m.show();
    m.switch_space(1);
    let mut ops = Vec::new();
    m.draw(&mut ops);
    let borders: Vec<Color> = ops
        .iter()
        .filter_map(|op| match op {
            DrawOp::Outline { color, .. } => Some(*color),
            _ => None,
        })
        .collect();
    assert_eq!(borders, vec![Color::gray(), Color::blue()]);
    let labels: Vec<String> = ops
        .iter()
        .filter_map(|op| match op {
            DrawOp::Text { text, y: 260, .. } => Some(text.clone()),
            _ => None,
        })
        .collect();
    assert_eq!(labels, vec!["Desktop".to_string(), "Current Desktop".to_string()]);
}
