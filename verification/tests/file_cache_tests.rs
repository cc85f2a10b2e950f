use dev_scope::file_cache::{
    make_checksum, FileCache, FileCacheData, FileCacheStatus, NoOpCache, PathState,
};

#[test]
fn noop_cache_always_changed() {
    let mut cache = NoOpCache::default();
    let state = PathState::File(b"content".to_vec());
    cache.update_cache_entry("g", "/a", &state);
    assert_eq!(FileCacheStatus::FileChanged, cache.check_file("g", "/a", &state));
}

#[test]
fn checksums_of_states() {
    assert_eq!(Some("<not exist>".to_string()), make_checksum(&PathState::Missing));
    assert_eq!(Some("<dir>".to_string()), make_checksum(&PathState::Directory));
    assert_eq!(None, make_checksum(&PathState::Unreadable));
    assert_eq!(
        Some("2cf24dba5fb0a30e26e83b2ac5b9e29e1b161e5c1fa7425e73043362938b9824".to_string()),
        make_checksum(&PathState::File(b"hello".to_vec()))
    );
}

#[test]
fn test_check_file_not_in_cache() {
    let cache = FileCacheData::new();
    let state = PathState::File(b"content".to_vec());
    assert_eq!(FileCacheStatus::FileChanged, cache.check_file("test-group", "/t/test.txt", &state));
}

#[test]
fn test_check_file_matches_cache() {
    let mut cache = FileCacheData::new();
    let state = PathState::File(b"content".to_vec());
    cache.update_cache_entry("test-group", "/t/test.txt", &state);
    assert_eq!(FileCacheStatus::FileMatches, cache.check_file("test-group", "/t/test.txt", &state));
}

#[test]
fn test_check_file_changed_content() {
    let mut cache = FileCacheData::new();
    cache.update_cache_entry("test-group", "/t/test.txt", &PathState::File(b"original content".to_vec()));
    let modified = PathState::File(b"modified content".to_vec());
    assert_eq!(FileCacheStatus::FileChanged, cache.check_file("test-group", "/t/test.txt", &modified));
}

#[test]
fn groups_are_isolated() {
    let mut cache = FileCacheData::new();
    let state = PathState::File(b"content".to_vec());
    cache.update_cache_entry("group-a", "/f", &state);
    assert_eq!(FileCacheStatus::FileChanged, cache.check_file("group-b", "/f", &state));
    assert_eq!(FileCacheStatus::FileMatches, cache.check_file("group-a", "/f", &state));
}

#[test]
fn unreadable_file_is_never_recorded() {
    let mut cache = FileCacheData::new();
    cache.update_cache_entry("g", "/f", &PathState::Unreadable);
    assert_eq!(None, cache.lookup("g", "/f"));
    assert_eq!(FileCacheStatus::FileChanged, cache.check_file("g", "/f", &PathState::Unreadable));
}

#[test]
fn missing_and_directory_markers_match_themselves() {
    let mut cache = FileCacheData::new();
    cache.update_cache_entry("g", "/missing", &PathState::Missing);
    cache.update_cache_entry("g", "/dir", &PathState::Directory);
    assert_eq!(FileCacheStatus::FileMatches, cache.check_file("g", "/missing", &PathState::Missing));
    assert_eq!(FileCacheStatus::FileMatches, cache.check_file("g", "/dir", &PathState::Directory));
    assert_eq!(FileCacheStatus::FileChanged, cache.check_file("g", "/dir", &PathState::Missing));
}

#[test]
fn entries_round_trip() {
    let mut cache = FileCacheData::new();
    cache.record("g", "/f", "abcd1234".to_string());
    cache.record("g", "/f", "ffff".to_string());
    let copy = FileCacheData::from_entries(cache.entries());
    assert_eq!(Some("ffff"), copy.lookup("g", "/f"));
    assert_eq!(1, copy.entries().len());
}

#[test]
fn cache_survives_write_and_reload() {
    let mut cache = FileCacheData::new();
    let a = PathState::File(b"first".to_vec());
    let b = PathState::File(b"second".to_vec());
    cache.update_cache_entry("g", "/a", &a);
    cache.update_cache_entry("g", "/b", &b);
    cache.update_cache_entry("h", "/a", &b);
    let saved = cache.entries().clone();
    let reloaded = FileCacheData::from_entries(&saved);
    assert_eq!(FileCacheStatus::FileMatches, reloaded.check_file("g", "/a", &a));
    assert_eq!(FileCacheStatus::FileMatches, reloaded.check_file("g", "/b", &b));
    assert_eq!(FileCacheStatus::FileMatches, reloaded.check_file("h", "/a", &b));
    assert_eq!(FileCacheStatus::FileChanged, reloaded.check_file("h", "/a", &a));
    assert_eq!(cache.lookup("g", "/a"), reloaded.lookup("g", "/a"));
}

#[test]
fn filename_gets_preprended_with_basepath() {
    let actual = dev_scope::file_cache::make_absolute("/Users/first.last/path/to/project", "foo.txt");
    assert_eq!("/Users/first.last/path/to/project/foo.txt", &actual)
}

#[test]
fn wildcard_does_not_get_replaced() {
    let actual = dev_scope::file_cache::make_absolute("/Users/first.last/path/to/project", "*.txt");
    assert_eq!("/Users/first.last/path/to/project/*.txt", &actual)
}

#[test]
fn path_from_root_does_not_get_replaced() {
    let actual = dev_scope::file_cache::make_absolute("/Users/first.last/path/to/project", "/etc/project/foo.txt");
    assert_eq!("/etc/project/foo.txt", &actual)
}

#[test]
fn relative_paths_are_not_resolved() {
    let actual = dev_scope::file_cache::make_absolute("/Users/first.last/path/to/project", "../foo.txt");
    assert_eq!("/Users/first.last/path/to/project/../foo.txt", &actual)
}

#[test]
fn tilde_resolves() {
    let actual = dev_scope::file_cache::make_absolute("/Users/first.last/path/to/project", "~/foo.txt");
    assert_ne!("/Users/first.last/path/foo.txt", &actual);
    assert_eq!("/Users/first.last/path/to/project/~/foo.txt", &actual)
}

#[test]
fn rewritten_file_is_changed() {
    let mut cache = FileCacheData::new();
    cache.update_cache_entry("g", "/a", &PathState::File(b"before".to_vec()));
    assert_eq!(FileCacheStatus::FileMatches, cache.check_file("g", "/a", &PathState::File(b"before".to_vec())));
    assert_eq!(FileCacheStatus::FileChanged, cache.check_file("g", "/a", &PathState::File(b"after".to_vec())));
}
