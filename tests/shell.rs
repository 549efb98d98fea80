use rust_os::desktop::{clock_text, scheduled_input, scheduled_notices, Desktop, Layer, Notice, ShellEvent};
use rust_os::graphics::DrawOp;

#[test]
fn init_opens_starter_windows_and_notifications() {
    let mut d = Desktop::new();
    d.init();
    let wm = &d.window_manager;
    assert_eq!(wm.window_count(), 4);
    let titles: Vec<String> = (0..4).map(|i| wm.window(i).title.clone()).collect();
    assert_eq!(
        titles,
        vec![
            "Finder".to_string(),
            "Terminal \u{2014} zsh \u{2014} 80\u{d7}24".to_string(),
            "System Preferences".to_string(),
            "Safari \u{2014} RustOS Documentation".to_string(),
        ]
    );
    assert_eq!(wm.focused(), Some(0));
    assert!(wm.window(0).is_focused);
    assert!((1..4).all(|i| !wm.window(i).is_focused));
    let nc = &d.notification_center;
    assert_eq!(nc.len(), 2);
    assert_eq!(nc.get(0).title, "Welcome to RustOS");
    assert_eq!(nc.get(1).title, "System Ready");
    assert!(nc.get(0).y < nc.get(1).y);
    assert_eq!((nc.get(0).y, nc.get(1).y), (50, 140));
}

#[test]
fn scripted_search_at_frame_180() {
    let mut d = Desktop::new();
    d.init();
    d.time_counter = 180;
    d.handle_events();
    assert!(d.spotlight.is_visible());
    assert_eq!(d.spotlight.query(), &vec!['t', 'e', 'r']);
    assert_eq!(d.spotlight.results().len(), 1);
    assert_eq!(d.spotlight.results()[0].title, "Terminal");
    d.time_counter = 240;
    d.handle_events();
    assert!(!d.spotlight.is_visible());
}

#[test]
fn scripts_at_given_frames() {
    assert_eq!(scheduled_input(180).len(), 4);
    assert_eq!(scheduled_input(420), vec![ShellEvent::ShowSwitcher]);
    assert_eq!(scheduled_input(660), vec![ShellEvent::HideModal]);
    assert!(scheduled_input(181).is_empty());
    assert_eq!(scheduled_notices(300), vec![ShellEvent::Notify(Notice::MemoryUpdate)]);
    assert!(scheduled_notices(301).is_empty());
}

#[test]
fn update_posts_scripted_notification_and_ages_queue() {
    let mut d = Desktop::new();
    d.init();
    d.time_counter = 299;
    d.update();
    assert_eq!(d.time_counter, 300);
    assert_eq!(d.notification_center.len(), 3);
    assert_eq!(d.notification_center.get(2).title, "Memory Update");
    assert_eq!(d.notification_center.get(2).y, 230);
    assert_eq!(d.notification_center.get(0).age, 1);
}

#[test]
fn frame_layers_follow_overlay_state() {
    let mut d = Desktop::new();
    d.init();
    let mut ops = Vec::new();
    assert_eq!(
        d.draw(&mut ops),
        vec![Layer::Wallpaper, Layer::Windows, Layer::MenuBar, Layer::Dock, Layer::Notifications, Layer::Pointer]
    );
    assert!(matches!(ops.last(), Some(DrawOp::Pointer { x: 320, y: 240 })));
    d.apply_event(ShellEvent::ShowSearch);
    d.apply_event(ShellEvent::ShowModal);
    let mut ops = Vec::new();
    assert_eq!(
        d.draw(&mut ops),
        vec![
            Layer::Wallpaper,
            Layer::Windows,
            Layer::MenuBar,
            Layer::Dock,
            Layer::Search,
            Layer::Notifications,
            Layer::Modal,
            Layer::Pointer,
        ]
    );
}

#[test]
fn switcher_replaces_desktop_pass() {
    let mut d = Desktop::new();
    d.init();
    d.apply_event(ShellEvent::ShowSearch);
    d.apply_event(ShellEvent::ShowSwitcher);
    let mut ops = Vec::new();
    assert_eq!(d.draw(&mut ops), vec![Layer::Wallpaper, Layer::Switcher]);
    assert!(!ops.iter().any(|op| matches!(op, DrawOp::Text { text, .. } if text == "Finder")));
    d.apply_event(ShellEvent::HideSwitcher);
    let mut ops = Vec::new();
    assert!(d.draw(&mut ops).contains(&Layer::Windows));
}

#[test]
fn notify_event_posts_below_queue() {
    let mut d = Desktop::new();
    d.apply_event(ShellEvent::Notify(Notice::NetworkStatus));
    assert_eq!(d.notification_center.len(), 1);
    assert_eq!(d.notification_center.get(0).message, "Connected to RustOS Network");
}

#[test]
fn clock_starts_at_noon() {
    assert_eq!(clock_text(0), "12:00:00 AM");
    assert_eq!(clock_text(61), "12:01:01 AM");
    assert_eq!(clock_text(3600), "1:00:00 PM");
    assert_eq!(clock_text(3600 * 11 + 59), "11:00:59 PM");
    assert_eq!(clock_text(3600 * 12), "12:00:00 PM");
    assert_eq!(clock_text(3600 * 13), "13:00:00 PM");
}

#[test]
fn pointer_follows_set_position() {
    let mut d = Desktop::new();
    d.set_pointer(12, 34);
    let mut ops = Vec::new();
    let _ = d.draw(&mut ops);
    assert!(matches!(ops.last(), Some(DrawOp::Pointer { x: 12, y: 34 })));
}

#[test]
fn switcher_frame_holds_no_window_primitives() {
    let mut d = Desktop::new();
    d.init();
    d.apply_event(ShellEvent::ShowSwitcher);
    let mut ops = Vec::new();
    let _ = d.draw(&mut ops);
    // 480 gradient rows, 5 shapes, then the switcher: backdrop, 5 per desktop, hint.
    assert_eq!(ops.len(), 480 + 5 + 1 + 2 * 5 + 1);
}

#[test]
fn modal_dialog_is_drawn_after_notifications() {
    let mut d = Desktop::new();
    d.init();
    d.apply_event(ShellEvent::ShowModal);
    let mut ops = Vec::new();
    let _ = d.draw(&mut ops);
    let pos = |s: &str| ops.iter().position(|op| matches!(op, DrawOp::Text { text, .. } if text == s)).unwrap();
    assert!(pos("System Ready") < pos("About This Mac"));
    assert!(pos("Finder") < pos("System Ready"));
}

#[test]
fn fresh_shell_geometry() {
    let d = Desktop::new();
    assert_eq!((d.menu_bar_height, d.dock_height, d.dock_y), (24, 60, 420));
    let mut d = d;
    d.init();
    let w = d.window_manager.window(1);
    assert_eq!((w.x, w.y, w.width, w.height), (200, 120, 450, 300));
}
