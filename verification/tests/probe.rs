use slimevr_lib::probe::{select_java, valid_java_paths, Candidate, MINIMUM_JAVA_VERSION};

fn candidate(path: &str, version: Option<u32>) -> Candidate {
    Candidate { path: path.to_string(), version }
}

fn runtime(path: &str, version: u32) -> (String, u32) {
    (path.to_string(), version)
}

#[test]
fn minimum_version_is_seventeen() {
    assert_eq!(MINIMUM_JAVA_VERSION, 17);
}

#[test]
fn no_candidates_no_runtimes() {
    assert_eq!(valid_java_paths(&Vec::new()), Vec::new());
}

#[test]
fn newer_versions_come_first() {
    let candidates = vec![
        candidate("/usr/lib/jvm/17/bin/java", Some(17)),
        candidate("/usr/lib/jvm/21/bin/java", Some(21)),
        candidate("/usr/lib/jvm/19/bin/java", Some(19)),
    ];
    assert_eq!(
        valid_java_paths(&candidates),
        vec![
            runtime("/usr/lib/jvm/21/bin/java", 21),
            runtime("/usr/lib/jvm/19/bin/java", 19),
            runtime("/usr/lib/jvm/17/bin/java", 17)
        ]
    );
}

#[test]
fn equal_versions_keep_the_order_of_their_locations() {
    let candidates = vec![
        candidate("home", Some(17)),
        candidate("path-a", Some(21)),
        candidate("path-b", Some(17)),
        candidate("system", Some(21)),
        candidate("registry", Some(17)),
    ];
    assert_eq!(
        valid_java_paths(&candidates),
        vec![
            runtime("path-a", 21),
            runtime("system", 21),
            runtime("home", 17),
            runtime("path-b", 17),
            runtime("registry", 17)
        ]
    );
}

#[test]
fn old_and_unreadable_candidates_are_skipped() {
    let candidates = vec![
        candidate("eight", Some(8)),
        candidate("broken", None),
        candidate("sixteen", Some(16)),
        candidate("seventeen", Some(17)),
        candidate("zero", Some(0)),
        candidate("eighteen", Some(18)),
    ];
    assert_eq!(
        valid_java_paths(&candidates),
        vec![runtime("eighteen", 18), runtime("seventeen", 17)]
    );
}

#[test]
fn minimum_version_itself_is_accepted() {
    let candidates = vec![candidate("exact", Some(MINIMUM_JAVA_VERSION))];
    assert_eq!(valid_java_paths(&candidates), vec![runtime("exact", 17)]);
    let below = vec![candidate("below", Some(MINIMUM_JAVA_VERSION - 1))];
    assert_eq!(valid_java_paths(&below), Vec::new());
}

#[test]
fn largest_version_is_ranked() {
    let candidates = vec![candidate("a", Some(17)), candidate("b", Some(u32::MAX))];
    assert_eq!(valid_java_paths(&candidates), vec![runtime("b", u32::MAX), runtime("a", 17)]);
}

#[test]
fn too_old_runtimes_are_never_selected() {
    let candidates = vec![
        candidate("eight", Some(8)),
        candidate("eleven", Some(11)),
        candidate("sixteen", Some(16)),
    ];
    let installed = valid_java_paths(&candidates);
    assert!(installed.is_empty());
    assert_eq!(select_java(None, &installed), None);
}

#[test]
fn bundled_runtime_wins() {
    let installed = vec![runtime("/usr/bin/java", 21)];
    assert_eq!(
        select_java(Some("/opt/slimevr/jre/bin/java".to_string()), &installed),
        Some("/opt/slimevr/jre/bin/java".to_string())
    );
    assert_eq!(
        select_java(Some("/opt/slimevr/jre/bin/java".to_string()), &Vec::new()),
        Some("/opt/slimevr/jre/bin/java".to_string())
    );
}

#[test]
fn first_installed_runtime_is_taken_without_a_bundled_one() {
    let installed = vec![runtime("/usr/lib/jvm/21/bin/java", 21), runtime("/usr/bin/java", 17)];
    assert_eq!(select_java(None, &installed), Some("/usr/lib/jvm/21/bin/java".to_string()));
}

#[test]
fn nothing_bundled_nothing_installed_selects_nothing() {
    assert_eq!(select_java(None, &Vec::new()), None);
}

#[test]
fn newest_installed_runtime_is_selected() {
    let candidates = vec![
        candidate("old", Some(11)),
        candidate("good", Some(17)),
        candidate("best", Some(22)),
        candidate("also-best", Some(22)),
    ];
    assert_eq!(select_java(None, &valid_java_paths(&candidates)), Some("best".to_string()));
}
