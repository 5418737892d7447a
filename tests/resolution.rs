use turnocare::layout::{after_probe, first_probe, resolve, BackendLocation, LayoutKind, NotFound, Resolution};

#[test]
fn production_layout_is_selected_with_its_working_dir() {
    assert_eq!(first_probe(), Resolution::Probe(LayoutKind::Production));
    let step = after_probe(LayoutKind::Production, true);
    let loc = match step {
        Resolution::Found(loc) => loc,
        other => panic!("unexpected {:?}", other),
    };
    assert_eq!(loc.kind, LayoutKind::Production);
    assert_eq!(loc.working_dir(), vec!["_up_", "Backend"]);
    assert_eq!(loc.entry_path(), vec!["_up_", "Backend", "src", "start.js"]);
}

#[test]
fn production_wins_whatever_the_development_candidate() {
    let prod = BackendLocation { kind: LayoutKind::Production };
    assert_eq!(resolve(true, false), Ok(prod));
    assert_eq!(resolve(true, true), Ok(prod));
}

#[test]
fn development_layout_is_the_fallback() {
    assert_eq!(after_probe(LayoutKind::Production, false), Resolution::Probe(LayoutKind::Development));
    let loc = BackendLocation { kind: LayoutKind::Development };
    assert_eq!(after_probe(LayoutKind::Development, true), Resolution::Found(loc));
    assert_eq!(resolve(false, true), Ok(loc));
    assert_eq!(loc.working_dir(), vec!["Backend"]);
    assert_eq!(loc.entry_path(), vec!["Backend", "src", "index.js"]);
}

#[test]
fn neither_candidate_is_not_found_with_both_paths() {
    assert_eq!(after_probe(LayoutKind::Development, false), Resolution::Missing(NotFound {}));
    assert_eq!(resolve(false, false), Err(NotFound {}));
    let (prod, dev) = NotFound {}.attempted_paths();
    assert_eq!(prod, vec!["_up_", "Backend", "src", "start.js"]);
    assert_eq!(dev, vec!["Backend", "src", "index.js"]);
}
