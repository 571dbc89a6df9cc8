use vr_media_overlay::players::{PlayerCache, LIST_REFRESH_MS, METADATA_REFRESH_MS};

fn ids(names: &[&str]) -> Vec<String> {
    names.iter().map(|s| s.to_string()).collect()
}

#[test]
fn selection_follows_player_across_refresh() {
    let mut c = PlayerCache::new(ids(&["A", "B", "C"]), 0);
    c.pick(1);
    c.refresh(ids(&["C", "B", "D"]), 3000);
    assert_eq!(c.selected(), 1);
    assert_eq!(c.selected_id(), Some("B".to_string()));

    let mut c = PlayerCache::new(ids(&["A", "B", "C"]), 0);
    c.pick(1);
    c.refresh(ids(&["D", "C", "E", "B"]), 3000);
    assert_eq!(c.selected(), 3);
}

#[test]
fn selection_falls_back_to_first_when_player_gone() {
    let mut c = PlayerCache::new(ids(&["A", "B", "C"]), 0);
    c.pick(2);
    c.refresh(ids(&["A", "B"]), 3000);
    assert_eq!(c.selected(), 0);
    c.refresh(ids(&[]), 6000);
    assert_eq!(c.selected(), 0);
    assert_eq!(c.selected_id(), None);
    assert_eq!(c.len(), 0);
}

#[test]
fn pick_past_the_list_is_ignored() {
    let mut c = PlayerCache::new(ids(&["A", "B"]), 0);
    c.pick(5);
    assert_eq!(c.selected(), 0);
    c.pick(1);
    assert_eq!(c.selected(), 1);
}

#[test]
fn clamp_selection_gives_selected_index() {
    let mut c = PlayerCache::new(ids(&["A", "B", "C"]), 0);
    c.pick(2);
    assert_eq!(c.clamp_selection(), Some(2));
    c.refresh(ids(&["C"]), 3000);
    assert_eq!(c.clamp_selection(), Some(0));
    let mut empty = PlayerCache::new(ids(&[]), 0);
    assert_eq!(empty.clamp_selection(), None);
}

#[test]
fn list_refresh_is_due_after_three_seconds() {
    let c = PlayerCache::new(ids(&["A"]), 1000);
    assert_eq!(LIST_REFRESH_MS, 3000);
    assert!(!c.list_refresh_due(1000));
    assert!(!c.list_refresh_due(3999));
    assert!(c.list_refresh_due(4000));
    assert!(!c.list_refresh_due(0));
}

#[test]
fn metadata_not_refetched_within_a_second() {
    let mut c = PlayerCache::new(ids(&["A", "B"]), 0);
    assert_eq!(METADATA_REFRESH_MS, 1000);
    assert!(!c.metadata_due(999));
    assert!(c.metadata_due(1000));
    c.note_metadata_fetch(1000);
    assert!(!c.metadata_due(1000));
    assert!(!c.metadata_due(1999));
    assert!(c.metadata_due(2000));
}

#[test]
fn metadata_refetched_on_selection_change() {
    let mut c = PlayerCache::new(ids(&["A", "B"]), 0);
    c.note_metadata_fetch(100);
    c.pick(1);
    assert!(c.metadata_due(101));
    c.note_metadata_fetch(101);
    assert!(!c.metadata_due(102));
}
