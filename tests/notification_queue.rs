use rust_os::notifications::{Notification, NotificationCenter};

fn titles(c: &NotificationCenter) -> Vec<String> {
    (0..c.len()).map(|i| c.get(i).title.clone()).collect()
}

#[test]
fn enqueue_offsets_by_queue_length() {
    let mut c = NotificationCenter::new();
    for k in 0..4usize {
        c.show_notification(format!("n{}", k), "m".to_string());
        assert_eq!(c.get(k).y, 50 + 90 * k);
        assert_eq!(c.get(k).x, 640);
        assert_eq!(c.get(k).age, 0);
    }
}

#[test]
fn notification_expires_after_lifetime_plus_one_updates() {
    let mut c = NotificationCenter::new();
    c.show_notification("a".to_string(), "m".to_string());
    for _ in 0..300 {
        c.update();
    }
    assert_eq!(c.len(), 1);
    assert_eq!(c.get(0).age, 300);
    c.update();
    assert_eq!(c.len(), 0);
}

#[test]
fn expiry_removes_one_and_keeps_sibling_offsets() {
    let mut c = NotificationCenter::new();
    c.show_notification("old".to_string(), "m".to_string());
    for _ in 0..100 {
        c.update();
    }
    c.show_notification("mid".to_string(), "m".to_string());
    c.show_notification("new".to_string(), "m".to_string());
    assert_eq!(c.get(1).y, 140);
    assert_eq!(c.get(2).y, 230);
    for _ in 0..200 {
        c.update();
    }
    assert_eq!(c.len(), 3);
    c.update();
    assert_eq!(c.len(), 2);
    assert_eq!(titles(&c), vec!["mid".to_string(), "new".to_string()]);
    assert_eq!(c.get(0).y, 140);
    assert_eq!(c.get(1).y, 230);
}

#[test]
fn new_notification_after_removal_is_not_restacked() {
    let mut c = NotificationCenter::new();
    c.show_notification("first".to_string(), "m".to_string());
    c.show_notification("second".to_string(), "m".to_string());
    for _ in 0..301 {
        c.update();
    }
    assert_eq!(c.len(), 0);
    c.show_notification("third".to_string(), "m".to_string());
    assert_eq!(c.get(0).y, 50);
}

#[test]
fn notification_slides_toward_rest_position() {
    let mut n = Notification::new("t".to_string(), "m".to_string());
    n.update();
    assert_eq!(n.x, 620);
    assert_eq!(n.age, 1);
    for _ in 0..29 {
        n.update();
    }
    assert_eq!(n.x, 320);
    assert!(!n.is_expired());
}

#[test]
fn draw_emits_every_queued_notification() {
    let mut c = NotificationCenter::new();
    let mut empty = Vec::new();
    c.draw(&mut empty);
    assert!(empty.is_empty());
    c.show_notification("a".to_string(), "b".to_string());
    let mut one = Vec::new();
    c.draw(&mut one);
    c.show_notification("c".to_string(), "d".to_string());
    let mut two = Vec::new();
    c.draw(&mut two);
    assert_eq!(two.len(), 2 * one.len());
}
