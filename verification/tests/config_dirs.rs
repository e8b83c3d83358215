use config_finder::ConfigDirs;

#[test]
fn empty_has_no_paths() {
    let cd = ConfigDirs::empty();
    assert!(cd.paths().is_empty());
}

#[test]
fn add_path_appends_segment() {
    let mut cd = ConfigDirs::empty();
    cd.add_path("my/config/path");
    assert_eq!(cd.paths(), &vec!["my/config/path/.config".to_string()]);
}

#[test]
fn add_path_keeps_existing_segment() {
    let mut cd = ConfigDirs::empty();
    cd.add_path("my/config/path");
    cd.add_path("my/other/path/.config");
    assert_eq!(
        cd.paths(),
        &vec![
            "my/config/path/.config".to_string(),
            "my/other/path/.config".to_string(),
        ]
    );
}

#[test]
fn add_path_is_idempotent() {
    let mut cd = ConfigDirs::empty();
    cd.add_path("workspace");
    cd.add_path("workspace");
    cd.add_path("workspace");
    assert_eq!(cd.paths(), &vec!["workspace/.config".to_string()]);
}

#[test]
fn add_path_dedupes_across_spellings() {
    // The bare path and the path with the segment already present
    // normalize to the same stored value.
    let mut cd = ConfigDirs::empty();
    cd.add_path("a");
    cd.add_path("a/.config");
    assert_eq!(cd.paths(), &vec!["a/.config".to_string()]);
}

#[test]
fn add_all_paths_until_walks_up_nearest_first() {
    let mut cd = ConfigDirs::empty();
    cd.add_all_paths_until("a/b/c", "a");
    assert_eq!(
        cd.paths(),
        &vec![
            "a/b/c/.config".to_string(),
            "a/b/.config".to_string(),
            "a/.config".to_string(),
        ]
    );
}

#[test]
fn add_all_paths_until_includes_container() {
    let mut cd = ConfigDirs::empty();
    cd.add_all_paths_until("look/my/config/path", "look/my");
    assert_eq!(
        cd.paths(),
        &vec![
            "look/my/config/path/.config".to_string(),
            "look/my/config/.config".to_string(),
            "look/my/.config".to_string(),
        ]
    );
}

#[test]
fn add_all_paths_until_outside_container_is_a_no_op() {
    let mut cd = ConfigDirs::empty();
    cd.add_all_paths_until("my/config/path", "other");
    assert!(cd.paths().is_empty());
}

#[test]
fn add_all_paths_until_absolute_paths() {
    let mut cd = ConfigDirs::empty();
    cd.add_all_paths_until("/srv/app/repo", "/srv");
    assert_eq!(
        cd.paths(),
        &vec![
            "/srv/app/repo/.config".to_string(),
            "/srv/app/.config".to_string(),
            "/srv/.config".to_string(),
        ]
    );
}

#[test]
fn add_root_etc_adds_bare_etc_once() {
    let mut cd = ConfigDirs::empty();
    cd.add_root_etc();
    cd.add_root_etc();
    assert_eq!(cd.paths(), &vec!["/etc".to_string()]);
}

#[test]
fn add_current_dir_adds_only_once() {
    let mut cd = ConfigDirs::empty();
    assert!(cd.add_current_dir(Some("first")).is_ok());
    // A second call changes nothing, even though the resolved
    // directory now differs.
    assert!(cd.add_current_dir(Some("second")).is_ok());
    assert_eq!(cd.paths(), &vec!["first/.config".to_string()]);
}

#[test]
fn add_current_dir_failure_is_reported_and_retryable() {
    let mut cd = ConfigDirs::empty();
    assert!(cd.add_current_dir(None).is_err());
    assert!(cd.paths().is_empty());
    assert!(cd.add_current_dir(Some("work")).is_ok());
    assert_eq!(cd.paths(), &vec!["work/.config".to_string()]);
    // After the first success, a failing resolution no longer matters.
    assert!(cd.add_current_dir(None).is_ok());
    assert_eq!(cd.paths(), &vec!["work/.config".to_string()]);
}

#[test]
fn platform_dir_absolute_override_is_taken_as_is() {
    let mut cd = ConfigDirs::empty();
    cd.add_platform_config_dir_from(Some("/home/.shared_configs"), Some("/home/testuser"));
    assert_eq!(cd.paths(), &vec!["/home/.shared_configs".to_string()]);
}

#[test]
fn platform_dir_falls_back_to_home_with_segment() {
    let mut cd = ConfigDirs::empty();
    cd.add_platform_config_dir_from(Some("relative/override"), Some("/home/testuser"));
    assert_eq!(cd.paths(), &vec!["/home/testuser/.config".to_string()]);

    let mut cd = ConfigDirs::empty();
    cd.add_platform_config_dir_from(None, Some("/home/testuser"));
    assert_eq!(cd.paths(), &vec!["/home/testuser/.config".to_string()]);
}

#[test]
fn platform_dir_unresolved_can_be_retried() {
    let mut cd = ConfigDirs::empty();
    cd.add_platform_config_dir_from(None, None);
    assert!(cd.paths().is_empty());
    cd.add_platform_config_dir_from(Some("not/absolute"), Some("relative/home"));
    assert!(cd.paths().is_empty());
    // The flag is still clear, so a later resolution succeeds.
    cd.add_platform_config_dir_from(Some("/etc/xdg"), None);
    assert_eq!(cd.paths(), &vec!["/etc/xdg".to_string()]);
}

#[test]
fn platform_dir_resolves_at_most_once() {
    let mut cd = ConfigDirs::empty();
    cd.add_platform_config_dir_from(Some("/first"), None);
    cd.add_platform_config_dir_from(Some("/second"), None);
    assert_eq!(cd.paths(), &vec!["/first".to_string()]);
}

#[test]
fn platform_dir_with_live_home_lookup() {
    // With an absolute override, the home directory is never
    // consulted and the result is exact.
    let mut cd = ConfigDirs::empty();
    cd.add_platform_config_dir(Some("/home/.shared_configs"));
    assert_eq!(cd.paths(), &vec!["/home/.shared_configs".to_string()]);

    // Without one, whatever the platform reports, at most one
    // directory is added, and a second call adds nothing more.
    let mut cd = ConfigDirs::empty();
    cd.add_platform_config_dir(None);
    let first = cd.paths().clone();
    assert!(first.len() <= 1);
    cd.add_platform_config_dir(None);
    assert_eq!(cd.paths(), &first);
}
