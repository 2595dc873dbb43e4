use music_core::model::{LibraryError, Playlist};
use music_core::playlists::PlaylistCollection;

fn strings(xs: &[&str]) -> Vec<String> {
    xs.iter().map(|s| s.to_string()).collect()
}

fn pairs(p: &Playlist) -> Vec<(u64, String)> {
    p.entries.iter().map(|e| (e.position, e.track_path.clone())).collect()
}

fn owned(xs: &[(u64, &str)]) -> Vec<(u64, String)> {
    xs.iter().map(|(n, s)| (*n, s.to_string())).collect()
}

#[test]
fn create_then_get_lists_entries_in_order() {
    let mut c = PlaylistCollection::new();
    c.create("1700000000000".to_string(), "X".to_string(), None, strings(&["a", "b", "c"]));
    let p = c.get(&"1700000000000".to_string()).unwrap();
    assert_eq!(p.name, "X");
    assert_eq!(p.cover_asset, None);
    assert_eq!(pairs(p), owned(&[(0, "a"), (1, "b"), (2, "c")]));
}

#[test]
fn create_keeps_cover_name() {
    let mut c = PlaylistCollection::new();
    c.create("7".to_string(), "Y".to_string(), Some("cover_7.webp".to_string()), vec![]);
    let p = c.get(&"7".to_string()).unwrap();
    assert_eq!(p.cover_asset.as_deref(), Some("cover_7.webp"));
    assert!(p.entries.is_empty());
}

#[test]
fn get_unknown_id_is_not_found() {
    let mut c = PlaylistCollection::new();
    c.create("1".to_string(), "A".to_string(), None, strings(&["a"]));
    assert!(matches!(c.get(&"2".to_string()), Err(LibraryError::NotFound)));
    assert!(matches!(PlaylistCollection::new().get(&"1".to_string()), Err(LibraryError::NotFound)));
}

#[test]
fn replace_then_get_lists_new_order() {
    let mut c = PlaylistCollection::new();
    c.create("1".to_string(), "A".to_string(), None, strings(&["a", "b", "c"]));
    c.create("2".to_string(), "B".to_string(), None, strings(&["z"]));
    assert_eq!(c.replace_entries(&"1".to_string(), strings(&["c", "a"])), Ok(()));
    assert_eq!(pairs(c.get(&"1".to_string()).unwrap()), owned(&[(0, "c"), (1, "a")]));
    assert_eq!(pairs(c.get(&"2".to_string()).unwrap()), owned(&[(0, "z")]));
}

#[test]
fn replace_unknown_id_changes_nothing() {
    let mut c = PlaylistCollection::new();
    c.create("1".to_string(), "A".to_string(), None, strings(&["a"]));
    assert_eq!(c.replace_entries(&"9".to_string(), strings(&["q"])), Err(LibraryError::NotFound));
    assert_eq!(pairs(c.get(&"1".to_string()).unwrap()), owned(&[(0, "a")]));
}

#[test]
fn appends_rank_from_old_count() {
    let mut c = PlaylistCollection::new();
    c.create("1".to_string(), "A".to_string(), None, vec![]);
    assert_eq!(c.append_entries(&"1".to_string(), strings(&["a", "b"])), Ok(()));
    assert_eq!(c.append_entries(&"1".to_string(), vec![]), Ok(()));
    assert_eq!(c.append_entries(&"1".to_string(), strings(&["c", "d", "e"])), Ok(()));
    let p = c.get(&"1".to_string()).unwrap();
    assert_eq!(p.entries.len(), 5);
    assert_eq!(
        pairs(p),
        owned(&[(0, "a"), (1, "b"), (2, "c"), (3, "d"), (4, "e")])
    );
}

#[test]
fn append_keeps_existing_positions() {
    let mut c = PlaylistCollection::new();
    c.create("1".to_string(), "A".to_string(), None, strings(&["a", "b"]));
    let mut items = c.into_vec();
    items[0].entries[1].position = 9;
    let mut c = PlaylistCollection::from_vec(items);
    assert_eq!(c.append_entries(&"1".to_string(), strings(&["c"])), Ok(()));
    assert_eq!(pairs(c.get(&"1".to_string()).unwrap()), owned(&[(0, "a"), (9, "b"), (2, "c")]));
}

#[test]
fn append_unknown_id_is_not_found() {
    let mut c = PlaylistCollection::new();
    assert_eq!(c.append_entries(&"1".to_string(), strings(&["a"])), Err(LibraryError::NotFound));
    assert!(c.list().is_empty());
}

#[test]
fn delete_removes_playlist_and_returns_cover() {
    let mut c = PlaylistCollection::new();
    c.create("1".to_string(), "A".to_string(), Some("cover_1.webp".to_string()), strings(&["a"]));
    c.create("2".to_string(), "B".to_string(), None, strings(&["b"]));
    assert_eq!(c.delete(&"1".to_string()), Ok(Some("cover_1.webp".to_string())));
    let ids: Vec<&str> = c.list().iter().map(|p| p.id.as_str()).collect();
    assert_eq!(ids, vec!["2"]);
    assert!(matches!(c.get(&"1".to_string()), Err(LibraryError::NotFound)));
    assert_eq!(c.delete(&"2".to_string()), Ok(None));
    assert!(c.list().is_empty());
}

#[test]
fn delete_removes_every_playlist_with_the_id() {
    let mut c = PlaylistCollection::new();
    c.create("5".to_string(), "first".to_string(), Some("cover_a.webp".to_string()), vec![]);
    c.create("6".to_string(), "other".to_string(), None, vec![]);
    c.create("5".to_string(), "second".to_string(), Some("cover_b.webp".to_string()), vec![]);
    assert_eq!(c.delete(&"5".to_string()), Ok(Some("cover_a.webp".to_string())));
    let names: Vec<&str> = c.list().iter().map(|p| p.name.as_str()).collect();
    assert_eq!(names, vec!["other"]);
}

#[test]
fn delete_unknown_id_is_not_found() {
    let mut c = PlaylistCollection::new();
    c.create("1".to_string(), "A".to_string(), None, vec![]);
    assert_eq!(c.delete(&"2".to_string()), Err(LibraryError::NotFound));
    assert_eq!(c.list().len(), 1);
}

#[test]
fn list_keeps_creation_order() {
    let mut c = PlaylistCollection::new();
    for id in ["3", "1", "2"] {
        c.create(id.to_string(), id.to_string(), None, vec![]);
    }
    let ids: Vec<&str> = c.list().iter().map(|p| p.id.as_str()).collect();
    assert_eq!(ids, vec!["3", "1", "2"]);
}
