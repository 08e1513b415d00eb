use pane_confirm::decimal::decimal_string;
use pane_confirm::registry::PaneInfo;
use pane_confirm::registry::SnapshotRegistry;
use pane_confirm::registry::TabInfo;

fn pane(id: u32, title: &str, focused: bool) -> PaneInfo {
    PaneInfo { id, title: title.to_string(), is_focused: focused }
}

fn tab(position: usize, name: &str, active: bool) -> TabInfo {
    TabInfo { position, name: name.to_string(), active }
}

#[test]
fn focus_capture_sets_focused_and_target() {
    let mut r = SnapshotRegistry::new();
    r.apply_pane_snapshot(&vec![(0, vec![pane(3, "log", false), pane(7, "shell", true)])]);
    assert_eq!(r.focused(), Some(7));
    assert_eq!(r.target(), Some(7));
}

#[test]
fn no_focus_keeps_previous_focus() {
    let mut r = SnapshotRegistry::new();
    r.apply_pane_snapshot(&vec![(0, vec![pane(7, "shell", true)])]);
    assert_eq!(r.focused(), Some(7));
    r.apply_pane_snapshot(&vec![(0, vec![pane(9, "other", false)])]);
    assert_eq!(r.focused(), Some(7));
    assert_eq!(r.target(), Some(7));
}

#[test]
fn no_focus_on_empty_registry_stays_empty() {
    let mut r = SnapshotRegistry::new();
    r.apply_pane_snapshot(&vec![(0, vec![pane(9, "other", false)])]);
    assert_eq!(r.focused(), None);
    assert_eq!(r.target(), None);
}

#[test]
fn last_focused_entry_wins() {
    let mut r = SnapshotRegistry::new();
    r.apply_pane_snapshot(&vec![
        (0, vec![pane(1, "a", true)]),
        (1, vec![pane(2, "b", true)]),
    ]);
    assert_eq!(r.focused(), Some(2));
}

#[test]
fn pane_snapshot_replaces_whole_view() {
    let mut r = SnapshotRegistry::new();
    r.apply_pane_snapshot(&vec![
        (0, vec![pane(1, "a", false), pane(2, "b", true)]),
        (1, vec![pane(3, "c", false)]),
    ]);
    assert_eq!(r.panes.len(), 3);
    r.apply_pane_snapshot(&vec![(0, vec![pane(2, "b", true)])]);
    assert_eq!(r.panes.len(), 1);
    assert!(r.lookup(1).is_none());
    assert!(r.lookup(3).is_none());
    assert!(r.lookup(2).is_some());
}

#[test]
fn placeholder_tab_until_tab_snapshot_arrives() {
    let mut r = SnapshotRegistry::new();
    r.apply_pane_snapshot(&vec![(0, vec![pane(2, "b", true)]), (12, vec![pane(5, "e", false)])]);
    assert_eq!(r.lookup(2).unwrap().tab_info.name, "Tab 0");
    assert_eq!(r.lookup(5).unwrap().tab_info.name, "Tab 12");
    assert!(!r.lookup(2).unwrap().tab_info.active);
}

#[test]
fn tab_snapshot_patches_matching_records_in_place() {
    let mut r = SnapshotRegistry::new();
    r.apply_pane_snapshot(&vec![
        (0, vec![pane(1, "a", false), pane(2, "b", true)]),
        (1, vec![pane(3, "c", false)]),
    ]);
    r.apply_tab_snapshot(&vec![tab(0, "editor", true)]);
    assert_eq!(r.lookup(1).unwrap().tab_info.name, "editor");
    assert_eq!(r.lookup(2).unwrap().tab_info.name, "editor");
    assert!(r.lookup(2).unwrap().tab_info.active);
    assert_eq!(r.lookup(3).unwrap().tab_info.name, "Tab 1");
    assert_eq!(r.panes.len(), 3);
    assert_eq!(r.focused(), Some(2));
}

#[test]
fn later_tab_of_same_position_wins() {
    let mut r = SnapshotRegistry::new();
    r.apply_pane_snapshot(&vec![(0, vec![pane(1, "a", false)])]);
    r.apply_tab_snapshot(&vec![tab(0, "first", false), tab(0, "second", false)]);
    assert_eq!(r.lookup(1).unwrap().tab_info.name, "second");
}

#[test]
fn tab_snapshot_for_unoccupied_position_is_a_noop() {
    let mut r = SnapshotRegistry::new();
    r.apply_pane_snapshot(&vec![(0, vec![pane(1, "a", true)])]);
    r.apply_tab_snapshot(&vec![tab(3, "editor", false)]);
    assert_eq!(r.panes.len(), 1);
    assert_eq!(r.lookup(1).unwrap().tab_info.name, "Tab 0");
    assert_eq!(r.focused(), Some(1));
}

#[test]
fn tab_snapshot_on_empty_registry_is_a_noop() {
    let mut r = SnapshotRegistry::new();
    r.apply_tab_snapshot(&vec![tab(3, "editor", false)]);
    assert_eq!(r.panes.len(), 0);
    assert_eq!(r.focused(), None);
}

#[test]
fn lookup_finds_first_match_and_reports_absence() {
    let mut r = SnapshotRegistry::new();
    r.apply_pane_snapshot(&vec![(0, vec![pane(4, "a", false), pane(6, "b", false)])]);
    let found = r.lookup(6).unwrap();
    assert_eq!(found.pane_info.id, 6);
    assert_eq!(found.pane_info.title, "b");
    assert!(r.lookup(5).is_none());
}

#[test]
fn render_text_without_focus() {
    let r = SnapshotRegistry::new();
    assert_eq!(r.render_text(), "No current pane selected");
}

#[test]
fn render_text_with_merged_record() {
    let mut r = SnapshotRegistry::new();
    r.apply_pane_snapshot(&vec![(0, vec![pane(7, "shell", true)])]);
    assert_eq!(r.render_text(), "Pane ID: 7 | Tab: Tab 0 | Title: shell");
    r.apply_tab_snapshot(&vec![tab(0, "editor", true)]);
    assert_eq!(r.render_text(), "Pane ID: 7 | Tab: editor | Title: shell");
}

#[test]
fn render_text_with_vanished_pane() {
    let mut r = SnapshotRegistry::new();
    r.apply_pane_snapshot(&vec![(0, vec![pane(7, "shell", true)])]);
    r.apply_pane_snapshot(&vec![(0, vec![pane(9, "other", false)])]);
    assert_eq!(r.focused(), Some(7));
    assert_eq!(r.render_text(), "Pane ID: 7");
}

#[test]
fn decimal_rendering_exact_values() {
    assert_eq!(decimal_string(0), "0");
    assert_eq!(decimal_string(9), "9");
    assert_eq!(decimal_string(10), "10");
    assert_eq!(decimal_string(305), "305");
    assert_eq!(decimal_string(u64::MAX), "18446744073709551615");
}
