use dev_scope::doctor_run::{get_cache, should_migrate, DoctorRunArgs};

const DEFAULT_DIR: &str = "/home/user/.cache/scope";

#[test]
fn test_get_cache_returns_noop_when_no_cache_is_true() {
    let args = DoctorRunArgs {
        no_cache: true,
        cache_dir: None,
        ..Default::default()
    };

    let cache = get_cache(&args, Some(DEFAULT_DIR));

    assert_eq!(cache.path(), None);
}

#[test]
fn test_get_cache_no_cache_takes_precedence_over_cache_dir() {
    let args = DoctorRunArgs {
        no_cache: true,
        cache_dir: Some("/custom/path".to_string()),
        ..Default::default()
    };

    let cache = get_cache(&args, Some(DEFAULT_DIR));

    assert_eq!(cache.path(), None);
}

#[test]
fn test_get_cache_uses_default_path_when_cache_dir_is_none() {
    let args = DoctorRunArgs {
        no_cache: false,
        cache_dir: None,
        ..Default::default()
    };

    let cache = get_cache(&args, Some(DEFAULT_DIR));

    let expected_path = format!("{}/{}", DEFAULT_DIR, "cache-file.json");
    assert_eq!(cache.path(), Some(expected_path));
}

#[test]
fn test_get_cache_empty_cache_dir_uses_default() {
    let args = DoctorRunArgs {
        no_cache: false,
        cache_dir: Some("".to_string()),
        ..Default::default()
    };

    let cache = get_cache(&args, Some(DEFAULT_DIR));

    assert_eq!(cache.path(), Some("cache-file.json".to_string()));
}

#[test]
fn test_get_cache_uses_provided_cache_dir() {
    let args = DoctorRunArgs {
        no_cache: false,
        cache_dir: Some("/custom/path".to_string()),
        ..Default::default()
    };

    let cache = get_cache(&args, Some(DEFAULT_DIR));

    assert_eq!(cache.path(), Some("/custom/path/cache-file.json".to_string()));
}

#[test]
fn test_get_cache_no_migration_when_using_tmp_scope() {
    let args = DoctorRunArgs {
        no_cache: false,
        cache_dir: Some("/tmp/scope".to_string()),
        ..Default::default()
    };

    let cache = get_cache(&args, Some(DEFAULT_DIR));

    assert_eq!(cache.path(), Some("/tmp/scope/cache-file.json".to_string()));
    assert!(!should_migrate("/tmp/scope", true, false));
}

#[test]
fn cache_dir_with_trailing_separator_is_not_doubled() {
    let args = DoctorRunArgs {
        cache_dir: Some("/custom/path/".to_string()),
        ..Default::default()
    };
    assert_eq!(
        get_cache(&args, None).path(),
        Some("/custom/path/cache-file.json".to_string())
    );
}

#[test]
fn migration_only_when_old_exists_and_new_missing() {
    assert!(should_migrate("/custom/path", true, false));
    assert!(!should_migrate("/custom/path", false, false));
    assert!(!should_migrate("/custom/path", true, true));
}

#[test]
fn run_fix_defaults_to_true() {
    let args = DoctorRunArgs::default();
    assert!(args.run_fix());
    let off = DoctorRunArgs {
        fix: Some(false),
        ..Default::default()
    };
    assert!(!off.run_fix());
}
