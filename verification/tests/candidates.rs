use config_finder::{ConfigDirs, WithLocal};

#[test]
fn with_local_inserts_before_extension() {
    let wl = WithLocal::new("app", "ext");
    assert_eq!(wl.path(), "app.ext");
    assert_eq!(wl.local_path(), "app.local.ext");
}

#[test]
fn with_local_empty_extension() {
    let wl = WithLocal::new("app", "");
    assert_eq!(wl.path(), "app");
    assert_eq!(wl.local_path(), "app.local");
}

#[test]
fn with_local_empty_base() {
    let wl = WithLocal::new("", "ext");
    assert_eq!(wl.path(), ".ext");
    assert_eq!(wl.local_path(), ".local.ext");
}

#[test]
fn with_local_into_paths() {
    let wl = WithLocal::new("zellij", "kdl");
    assert_eq!(
        wl.into_paths(),
        ("zellij.kdl".to_string(), "zellij.local.kdl".to_string())
    );
}

#[test]
fn search_yields_candidates_in_insertion_order() {
    let mut cd = ConfigDirs::empty();
    cd.add_path("start");
    cd.add_path("second");
    cd.add_path("end");
    let mut app_files = cd.search("my-app", "main", "kdl");

    let wl = app_files.next().unwrap();
    assert_eq!(wl.path(), "start/.config/my-app/main.kdl");
    assert_eq!(wl.local_path(), "start/.config/my-app/main.local.kdl");

    let wl = app_files.next_back().unwrap();
    assert_eq!(wl.path(), "end/.config/my-app/main.kdl");
    assert_eq!(wl.local_path(), "end/.config/my-app/main.local.kdl");

    let wl = app_files.next().unwrap();
    assert_eq!(wl.path(), "second/.config/my-app/main.kdl");
    assert_eq!(wl.local_path(), "second/.config/my-app/main.local.kdl");

    // Front and back have met: the walk is exhausted, permanently.
    assert!(app_files.next().is_none());
    assert!(app_files.next().is_none());
    assert!(app_files.next_back().is_none());
}

#[test]
fn search_reverse_order() {
    let mut cd = ConfigDirs::empty();
    cd.add_path("p1");
    cd.add_path("p2");
    cd.add_path("p3");
    let mut it = cd.search("app", "base", "toml");
    assert_eq!(it.next_back().unwrap().path(), "p3/.config/app/base.toml");
    assert_eq!(it.next_back().unwrap().path(), "p2/.config/app/base.toml");
    assert_eq!(it.next_back().unwrap().path(), "p1/.config/app/base.toml");
    assert!(it.next_back().is_none());
    assert!(it.next().is_none());
}

#[test]
fn search_without_app_subdirectory() {
    let mut cd = ConfigDirs::empty();
    cd.add_path("start");
    let mut app_files = cd.search("", "my-app", "kdl");
    let wl = app_files.next().unwrap();
    assert_eq!(wl.path(), "start/.config/my-app.kdl");
    assert_eq!(wl.local_path(), "start/.config/my-app.local.kdl");
    assert!(app_files.next().is_none());
}

#[test]
fn search_without_extension() {
    let mut cd = ConfigDirs::empty();
    cd.add_path("start");
    let mut app_files = cd.search("my-app", "main", "");
    let wl = app_files.next().unwrap();
    assert_eq!(wl.path(), "start/.config/my-app/main");
    assert_eq!(wl.local_path(), "start/.config/my-app/main.local");
    assert!(app_files.next().is_none());
}

#[test]
fn search_on_empty_accumulator_yields_nothing() {
    let cd = ConfigDirs::empty();
    let mut it = cd.search("app", "base", "ext");
    assert_eq!(it.size_hint(), (0, Some(0)));
    assert!(it.next().is_none());
    assert!(it.next_back().is_none());
}

#[test]
fn size_hint_is_exact_at_every_step() {
    let mut cd = ConfigDirs::empty();
    cd.add_path("a");
    cd.add_path("b");
    cd.add_path("c");
    let mut it = cd.search("app", "base", "ext");
    assert_eq!(it.size_hint(), (3, Some(3)));
    it.next();
    assert_eq!(it.size_hint(), (2, Some(2)));
    it.next_back();
    assert_eq!(it.size_hint(), (1, Some(1)));
    it.next();
    assert_eq!(it.size_hint(), (0, Some(0)));
    it.next();
    assert_eq!(it.size_hint(), (0, Some(0)));
}

#[test]
fn count_counts_what_is_left() {
    let mut cd = ConfigDirs::empty();
    cd.add_path("a");
    cd.add_path("b");
    cd.add_path("c");
    let it = cd.search("app", "base", "ext");
    assert_eq!(it.count(), 3);

    let mut it = cd.search("app", "base", "ext");
    it.next();
    assert_eq!(it.count(), 2);
}

#[test]
fn nth_skips_ahead() {
    let mut cd = ConfigDirs::empty();
    cd.add_path("a");
    cd.add_path("b");
    cd.add_path("c");
    let mut it = cd.search("app", "base", "ext");
    let wl = it.nth(1).unwrap();
    assert_eq!(wl.path(), "b/.config/app/base.ext");
    assert_eq!(it.size_hint(), (1, Some(1)));

    // Overshooting exhausts the walk.
    let mut it = cd.search("app", "base", "ext");
    assert!(it.nth(3).is_none());
    assert_eq!(it.size_hint(), (0, Some(0)));
    assert!(it.next().is_none());
}

#[test]
fn last_takes_the_hindmost() {
    let mut cd = ConfigDirs::empty();
    cd.add_path("a");
    cd.add_path("b");
    let it = cd.search("app", "base", "ext");
    assert_eq!(it.last().unwrap().path(), "b/.config/app/base.ext");

    let cd = ConfigDirs::empty();
    assert!(cd.search("app", "base", "ext").last().is_none());
}

#[test]
fn forward_and_backward_consume_each_directory_once() {
    let mut cd = ConfigDirs::empty();
    cd.add_path("p1");
    cd.add_path("p2");
    cd.add_path("p3");
    cd.add_path("p4");
    let mut it = cd.search("app", "base", "ext");
    let mut seen: Vec<String> = Vec::new();
    loop {
        let from_front = match it.next() {
            Some(wl) => wl,
            None => break,
        };
        seen.push(from_front.path().to_string());
        if let Some(from_back) = it.next_back() {
            seen.push(from_back.path().to_string());
        }
    }
    seen.sort();
    assert_eq!(
        seen,
        vec![
            "p1/.config/app/base.ext".to_string(),
            "p2/.config/app/base.ext".to_string(),
            "p3/.config/app/base.ext".to_string(),
            "p4/.config/app/base.ext".to_string(),
        ]
    );
}

#[test]
fn search_joins_under_absolute_directories() {
    let mut cd = ConfigDirs::empty();
    cd.add_root_etc();
    let mut it = cd.search("my-app", "main", "kdl");
    let wl = it.next().unwrap();
    assert_eq!(wl.path(), "/etc/my-app/main.kdl");
    assert_eq!(wl.local_path(), "/etc/my-app/main.local.kdl");
}
