use turnocare::layout::{BackendLocation, LayoutKind};
use turnocare::logs::{capture_log_mode, diagnostics_log_mode, OpenMode, DIAGNOSTICS_LOG_NAME, STDERR_LOG_NAME, STDOUT_LOG_NAME};
use turnocare::registry::{Hook, Registry, WindowEvent};
use turnocare::startup::{plan_launch, Action, DiagEntry, Phase, Startup, CREATE_NO_WINDOW, INTERPRETER};

#[test]
fn session_launches_production_after_one_probe() {
    let mut s = Startup::new(false);
    assert!(matches!(s.trace[0], DiagEntry::SessionHeader));
    assert!(matches!(s.trace[1], DiagEntry::ResourceDir));
    assert_eq!(s.next_action(), Action::Probe(LayoutKind::Production));
    s.on_probe(true);
    let prod = BackendLocation { kind: LayoutKind::Production };
    assert_eq!(s.next_action(), Action::Launch(prod));
    assert_eq!(s.trace.len(), 4);
    assert!(matches!(s.trace[2], DiagEntry::Probed { kind: LayoutKind::Production, exists: true }));
    assert!(matches!(s.trace[3], DiagEntry::Selected(loc) if loc == prod));
    assert!(s.on_launch(Ok(4242)));
    assert!(matches!(s.trace[4], DiagEntry::Launched { pid: 4242 }));
    assert_eq!(s.phase, Phase::Finished);
    assert_eq!(s.next_action(), Action::Done);
}

#[test]
fn session_without_backend_logs_both_paths_and_never_launches() {
    let mut s = Startup::new(false);
    s.on_probe(false);
    assert_eq!(s.next_action(), Action::Probe(LayoutKind::Development));
    s.on_probe(false);
    assert_eq!(s.next_action(), Action::Done);
    assert_eq!(s.trace.len(), 5);
    assert!(matches!(s.trace[2], DiagEntry::Probed { kind: LayoutKind::Production, exists: false }));
    assert!(matches!(s.trace[3], DiagEntry::Probed { kind: LayoutKind::Development, exists: false }));
    assert!(matches!(s.trace[4], DiagEntry::Missing(_)));
}

#[test]
fn debug_session_without_backend_gives_the_hint() {
    let mut s = Startup::new(true);
    s.on_probe(false);
    s.on_probe(false);
    assert_eq!(s.trace.len(), 5);
    assert!(matches!(s.trace[4], DiagEntry::DevHint));
    assert_eq!(s.phase, Phase::Finished);
}

#[test]
fn failed_launch_leaves_registry_empty_and_hook_finds_nothing() {
    let mut s = Startup::new(false);
    s.on_probe(true);
    let store = s.on_launch(Err("executable not found".to_string()));
    assert!(!store);
    assert_eq!(s.trace.len(), 6);
    match &s.trace[4] {
        DiagEntry::LaunchFailed { error } => assert_eq!(error, "executable not found"),
        other => panic!("unexpected {:?}", other),
    }
    assert!(matches!(s.trace[5], DiagEntry::InstallHint));
    let mut registry: Registry<u32> = Registry::new();
    assert!(registry.is_empty());
    let mut hook = Hook::new();
    let mut kills = 0;
    assert!(!hook.on_window_event(WindowEvent::Destroyed, &mut registry, |_h| kills += 1));
    assert_eq!(kills, 0);
    assert_eq!(hook, Hook::Fired);
}

#[test]
fn store_then_take_twice_terminates_once() {
    let mut registry: Registry<u32> = Registry::new();
    assert_eq!(registry.store(7), None);
    assert!(!registry.is_empty());
    let mut killed = Vec::new();
    assert!(registry.take_and_terminate(|h| killed.push(h)));
    assert!(registry.is_empty());
    assert!(!registry.take_and_terminate(|h| killed.push(h)));
    assert_eq!(killed, vec![7]);
    assert!(registry.is_empty());
}

#[test]
fn take_on_fresh_registry_calls_nothing() {
    let mut registry: Registry<u32> = Registry::new();
    let mut calls = 0;
    assert!(!registry.take_and_terminate(|_h| calls += 1));
    assert_eq!(calls, 0);
    assert_eq!(registry.take(), None);
}

#[test]
fn sealed_registry_refuses_a_store() {
    let mut registry: Registry<u32> = Registry::new();
    assert_eq!(registry.take(), None);
    assert_eq!(registry.store(9), Some(9));
    assert!(registry.is_empty());
    let mut full: Registry<u32> = Registry::new();
    assert_eq!(full.store(1), None);
    assert_eq!(full.store(2), Some(2));
    assert_eq!(full.take(), Some(1));
}

#[test]
fn hook_fires_once_and_ignores_other_events() {
    let mut registry: Registry<u32> = Registry::new();
    registry.store(11);
    let mut hook = Hook::new();
    let mut killed = Vec::new();
    assert!(!hook.on_window_event(WindowEvent::Other, &mut registry, |h| killed.push(h)));
    assert_eq!(hook, Hook::Armed);
    assert!(!registry.is_empty());
    assert!(hook.on_window_event(WindowEvent::Destroyed, &mut registry, |h| killed.push(h)));
    assert!(!hook.on_window_event(WindowEvent::Destroyed, &mut registry, |h| killed.push(h)));
    assert_eq!(killed, vec![11]);
    assert!(registry.is_empty());
}

#[test]
fn capture_logs_truncate_and_diagnostics_append() {
    assert_eq!(capture_log_mode(), OpenMode::Truncate);
    assert_eq!(diagnostics_log_mode(), OpenMode::Append);
    assert_eq!(DIAGNOSTICS_LOG_NAME, "turnocare-backend.log");
    assert_eq!(STDOUT_LOG_NAME, "backend-stdout.log");
    assert_eq!(STDERR_LOG_NAME, "backend-stderr.log");
}

#[test]
fn launch_plan_redirects_what_opened_and_hides_console() {
    let dev = BackendLocation { kind: LayoutKind::Development };
    let plan = plan_launch(dev, true, false, true);
    assert_eq!(plan.program, INTERPRETER);
    assert_eq!(plan.program, "node");
    assert_eq!(plan.entry, vec!["Backend", "src", "index.js"]);
    assert_eq!(plan.working_dir, vec!["Backend"]);
    assert!(plan.stdout_to_file);
    assert!(!plan.stderr_to_file);
    assert_eq!(plan.creation_flags, Some(CREATE_NO_WINDOW));
    assert_eq!(CREATE_NO_WINDOW, 0x0800_0000);
    let plain = plan_launch(dev, false, true, false);
    assert!(!plain.stdout_to_file);
    assert!(plain.stderr_to_file);
    assert_eq!(plain.creation_flags, None);
}
