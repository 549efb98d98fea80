use rust_os::graphics::DrawOp;
use rust_os::spotlight::{catalog_matches, starts_with_query, Spotlight};

fn titles(s: &Spotlight) -> Vec<String> {
    s.results().iter().map(|r| r.title.clone()).collect()
}

#[test]
fn typing_ter_finds_only_terminal() {
    let mut s = Spotlight::new();
    s.show();
    s.add_character('t');
    s.add_character('e');
    s.add_character('r');
    assert_eq!(titles(&s), vec!["Terminal".to_string()]);
    assert_eq!(s.results()[0].subtitle, "Utilities");
    s.move_selection(1);
    assert_eq!(s.selected_index(), 0);
    s.move_selection(-1);
    assert_eq!(s.selected_index(), 0);
}

#[test]
fn matching_ignores_case() {
    let mut s = Spotlight::new();
    s.show();
    s.add_character('T');
    s.add_character('E');
    s.add_character('R');
    assert_eq!(titles(&s), vec!["Terminal".to_string()]);
}

#[test]
fn show_lists_whole_catalog() {
    let mut s = Spotlight::new();
    assert!(s.results().is_empty());
    s.show();
    assert!(s.is_visible());
    assert_eq!(
        titles(&s),
        vec!["Terminal".to_string(), "Finder".to_string(), "System Preferences".to_string()]
    );
}

#[test]
fn either_keyword_finds_preferences() {
    let mut s = Spotlight::new();
    s.show();
    s.add_character('p');
    assert_eq!(titles(&s), vec!["System Preferences".to_string()]);
    s.backspace();
    s.add_character('s');
    assert_eq!(titles(&s), vec!["System Preferences".to_string()]);
}

#[test]
fn selection_wraps_both_ways() {
    let mut s = Spotlight::new();
    s.show();
    s.move_selection(-1);
    assert_eq!(s.selected_index(), 2);
    s.move_selection(1);
    assert_eq!(s.selected_index(), 0);
    s.move_selection(1);
    s.move_selection(1);
    assert_eq!(s.selected_index(), 2);
    s.move_selection(0);
    assert_eq!(s.selected_index(), 2);
}

#[test]
fn query_change_resets_selection() {
    let mut s = Spotlight::new();
    s.show();
    s.move_selection(1);
    assert_eq!(s.selected_index(), 1);
    s.add_character('f');
    assert_eq!(s.selected_index(), 0);
    assert_eq!(titles(&s), vec!["Finder".to_string()]);
}

#[test]
fn no_match_leaves_selection_alone() {
    let mut s = Spotlight::new();
    s.show();
    s.add_character('x');
    assert!(s.results().is_empty());
    s.move_selection(1);
    s.move_selection(-1);
    assert_eq!(s.selected_index(), 0);
}

#[test]
fn backspace_on_empty_query_keeps_it_empty() {
    let mut s = Spotlight::new();
    s.show();
    s.backspace();
    assert!(s.query().is_empty());
    assert_eq!(s.results().len(), 3);
    s.add_character('f');
    s.add_character('i');
    s.backspace();
    assert_eq!(s.query(), &vec!['f']);
}

#[test]
fn close_keeps_query_for_reopening_and_show_resets_it() {
    let mut s = Spotlight::new();
    s.show();
    s.add_character('f');
    s.close();
    assert!(!s.is_visible());
    assert_eq!(s.query(), &vec!['f']);
    assert_eq!(titles(&s), vec!["Finder".to_string()]);
    s.show();
    assert!(s.query().is_empty());
}

#[test]
fn drawn_panel_shows_query_text() {
    let mut s = Spotlight::new();
    let mut hidden = Vec::new();
    s.draw(&mut hidden);
    assert!(hidden.is_empty());
    s.show();
    s.add_character('F');
    s.add_character('i');
    let mut ops = Vec::new();
    s.draw(&mut ops);
    assert!(ops.iter().any(|op| matches!(op, DrawOp::Text { text, .. } if text == "Fi")));
    assert!(ops.iter().any(|op| matches!(op, DrawOp::Text { text, .. } if text == "Finder")));
}

#[test]
fn prefix_check_and_catalog_on_folded_query() {
    assert!(starts_with_query("terminal", &vec!['t', 'e']));
    assert!(starts_with_query("terminal", &vec![]));
    assert!(!starts_with_query("terminal", &vec!['T']));
    assert!(!starts_with_query("ab", &vec!['a', 'b', 'c']));
    let r = catalog_matches(&vec!['s', 'y']);
    assert_eq!(r.len(), 1);
    assert_eq!(r[0].title, "System Preferences");
    assert_eq!(catalog_matches(&vec![]).len(), 3);
    assert!(catalog_matches(&vec!['T']).is_empty());
}

#[test]
fn only_selected_row_is_highlighted() {
    let mut s = Spotlight::new();
    s.show();
    s.move_selection(1);
    let mut ops = Vec::new();
    s.draw(&mut ops);
    let blue = rust_os::graphics::Color::blue();
    let highlights: Vec<usize> = ops
        .iter()
        .filter_map(|op| match op {
            DrawOp::RoundedRect { y, color, .. } if *color == blue => Some(*y),
            _ => None,
        })
        .collect();
    assert_eq!(highlights, vec![100 + 80 + 50 - 5]);
}
