use magic_nix_cache::snapshot::PathSnapshot;
use magic_nix_cache::store_path::StorePath;

fn path(name: &str) -> StorePath {
    StorePath::new(name.to_string())
}

fn paths(names: &[&str]) -> Vec<StorePath> {
    names.iter().map(|name| path(name)).collect()
}

#[test]
fn store_path_keeps_its_name() {
    let p = path("/nix/store/abc-hello");
    assert_eq!(p.as_str(), "/nix/store/abc-hello");
    assert_eq!(p.clone(), p);
    assert_eq!(p.into_string(), "/nix/store/abc-hello".to_string());
}

#[test]
fn store_paths_are_equal_by_name() {
    assert_eq!(path("a"), path("a"));
    assert_ne!(path("a"), path("b"));
    assert_ne!(path("a"), path("A"));
}

#[test]
fn new_snapshot_is_empty() {
    let snapshot = PathSnapshot::new();
    assert_eq!(snapshot.len(), 0);
    assert!(snapshot.is_empty());
    assert!(!snapshot.contains(&path("a")));
    assert!(snapshot.paths().is_empty());
}

#[test]
fn snapshot_counts_each_path_once() {
    let snapshot = PathSnapshot::from_paths(paths(&["a", "b", "a", "c", "b"]));
    assert_eq!(snapshot.len(), 3);
    assert!(!snapshot.is_empty());
    assert_eq!(snapshot.paths(), &paths(&["a", "b", "c"]));
}

#[test]
fn snapshot_tells_its_members() {
    let snapshot = PathSnapshot::from_paths(paths(&["a", "b"]));
    assert!(snapshot.contains(&path("a")));
    assert!(snapshot.contains(&path("b")));
    assert!(!snapshot.contains(&path("c")));
    assert!(!snapshot.contains(&path("")));
}

#[test]
fn difference_is_final_without_original() {
    let original = PathSnapshot::from_paths(paths(&["a", "b"]));
    let last = PathSnapshot::from_paths(paths(&["a", "b", "c"]));
    assert_eq!(last.difference(&original), paths(&["c"]));
}

#[test]
fn difference_is_disjoint_from_original() {
    let original = PathSnapshot::from_paths(paths(&["b", "d", "x"]));
    let last = PathSnapshot::from_paths(paths(&["e", "d", "c", "b", "a"]));
    let new_paths = last.difference(&original);
    assert_eq!(new_paths, paths(&["e", "c", "a"]));
    for p in &new_paths {
        assert!(!original.contains(p));
        assert!(last.contains(p));
    }
}

#[test]
fn difference_of_equal_snapshots_is_empty() {
    let original = PathSnapshot::from_paths(paths(&["a", "b"]));
    let last = PathSnapshot::from_paths(paths(&["b", "a"]));
    assert_eq!(last.difference(&original), paths(&[]));
}

#[test]
fn difference_with_empty_original_is_everything() {
    let original = PathSnapshot::new();
    let last = PathSnapshot::from_paths(paths(&["b", "a", "b"]));
    assert_eq!(last.difference(&original), paths(&["b", "a"]));
}

#[test]
fn difference_ignores_paths_that_went_away() {
    let original = PathSnapshot::from_paths(paths(&["a", "b", "gone"]));
    let last = PathSnapshot::from_paths(paths(&["a", "b"]));
    assert_eq!(last.difference(&original), paths(&[]));
    assert_eq!(original.difference(&last), paths(&["gone"]));
}

#[test]
fn cloned_snapshot_holds_the_same_paths() {
    let snapshot = PathSnapshot::from_paths(paths(&["b", "a", "b"]));
    let copy = snapshot.clone();
    assert_eq!(copy.len(), 2);
    assert_eq!(copy.paths(), snapshot.paths());
    assert!(copy.contains(&path("a")));
    assert!(!copy.contains(&path("c")));
}
