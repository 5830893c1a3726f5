use helix_plugins::events::{
    HostEvent, HostKeyCode, HostKeyEvent, HostKeyModifiers, HostMouseEvent, HostMouseEventKind,
};
use helix_plugins::plugin::{HandlerOutcome, Plugin, PluginSource};
use helix_plugins::StartFailure;
use helix_plugins::{DispatchOutcome, DispatchReport, PluginManager};

fn source(file_name: &str, script: &str) -> PluginSource {
    PluginSource { file_name: file_name.to_string(), script: Ok(script.to_string()) }
}

fn manager_with(sources: Vec<PluginSource>) -> PluginManager {
    let mut manager = PluginManager::new();
    let reports = manager.load_plugins(sources);
    for report in &reports {
        assert!(
            matches!(report, helix_plugins::LoadReport::Loaded { .. }),
            "expected every test plugin to load, got {:?}",
            report
        );
    }
    let failures = manager.start_plugins();
    assert!(failures.is_empty(), "expected every test plugin to start: {:?}", failures);
    manager
}

fn key_a() -> HostEvent {
    HostEvent::Key(HostKeyEvent {
        code: HostKeyCode::Char('a'),
        modifiers: HostKeyModifiers { bits: 0 },
    })
}

fn scroll_down_at(column: u16, row: u16) -> HostEvent {
    HostEvent::Mouse(HostMouseEvent {
        kind: HostMouseEventKind::ScrollDown,
        column,
        row,
        modifiers: HostKeyModifiers { bits: 0 },
    })
}

fn is_delivered(report: &DispatchReport) -> bool {
    matches!(report.outcome, DispatchOutcome::Delivered)
}

#[test]
fn missing_mouse_handler_is_a_silent_no_op() {
    let mut manager = manager_with(vec![source(
        "keys_only.rhai",
        "fn on_key_press(ev) { }",
    )]);
    let reports = manager.handle_term_event(scroll_down_at(1, 1));
    assert_eq!(reports.len(), 1);
    assert_eq!(reports[0].plugin, "keys_only");
    assert!(is_delivered(&reports[0]), "no handler must mean no error: {:?}", reports[0]);
}

#[test]
fn failing_handler_is_reported_and_others_still_receive_the_event() {
    let mut manager = manager_with(vec![
        source("faulty.rhai", "fn on_key_press(ev) { throw \"deliberate fault\"; }"),
        source("quiet.rhai", "let fine = true;"),
        source("also_faulty.rhai", "fn on_key_press(ev) { throw \"second fault\"; }"),
    ]);
    let reports = manager.handle_term_event(key_a());
    assert_eq!(reports.len(), 3);
    match &reports[0].outcome {
        DispatchOutcome::Failed { handler, message } => {
            assert_eq!(reports[0].plugin, "faulty");
            assert_eq!(handler, "on_key_press");
            assert!(message.contains("deliberate fault"), "message was {:?}", message);
        }
        other => panic!("expected a failure for the first plugin, got {:?}", other),
    }
    assert!(is_delivered(&reports[1]));
    match &reports[2].outcome {
        DispatchOutcome::Failed { handler, message } => {
            assert_eq!(handler, "on_key_press");
            assert!(message.contains("second fault"));
        }
        other => panic!("expected the third plugin to fail too, got {:?}", other),
    }
}

#[test]
fn resize_delivers_columns_then_rows() {
    let script = "
        fn on_resize(cols, rows) {
            if cols != 120 { throw \"wrong columns\"; }
            if rows != 40 { throw \"wrong rows\"; }
        }
    ";
    let mut manager = manager_with(vec![source("sizes.rhai", script)]);
    let good = manager.handle_term_event(HostEvent::Resize(120, 40));
    assert!(is_delivered(&good[0]), "exact values in order must pass: {:?}", good[0]);
    let swapped = manager.handle_term_event(HostEvent::Resize(40, 120));
    assert!(!is_delivered(&swapped[0]), "swapped values must reach the handler as such");
}

#[test]
fn key_event_surface_is_visible_to_scripts() {
    let script = "
        fn on_key_press(ev) {
            let expected = \"KeyEvent { code: Char('a'), modifiers: \";
            expected += \"KeyModifiers { shift: false, control: false, alt: false } }\";
            if ev.to_string() != expected { throw \"unexpected rendering\"; }
            if ev.modifiers.shift { throw \"unexpected shift\"; }
            if ev.to_debug() == \"\" { throw \"empty pretty rendering\"; }
        }
    ";
    let mut manager = manager_with(vec![source("inspector.rhai", script)]);
    let reports = manager.handle_term_event(key_a());
    assert!(is_delivered(&reports[0]), "script assertions failed: {:?}", reports[0]);
}

#[test]
fn mouse_event_surface_is_visible_to_scripts() {
    let script = "
        fn on_mouse_event(ev) {
            if ev.column != 10 { throw \"unexpected column\"; }
            if ev.row != 5 { throw \"unexpected row\"; }
            if ev.kind.to_string() != \"ScrollDown\" { throw \"unexpected kind\"; }
            if ev.modifiers.to_string() == \"\" { throw \"empty modifiers\"; }
        }
    ";
    let mut manager = manager_with(vec![source("watcher.rhai", script)]);
    let reports = manager.handle_term_event(scroll_down_at(10, 5));
    assert!(is_delivered(&reports[0]), "script assertions failed: {:?}", reports[0]);
}

#[test]
fn bindings_from_start_persist_across_dispatches() {
    let script = "
        let count = 0;
        fn on_key_press(ev) {
            count += 1;
            if count >= 2 { throw \"second call sees first call's increment\"; }
        }
    ";
    let mut manager = manager_with(vec![source("counter.rhai", script)]);
    let first = manager.handle_term_event(key_a());
    assert!(is_delivered(&first[0]), "first call must pass: {:?}", first[0]);
    let second = manager.handle_term_event(key_a());
    assert!(
        !is_delivered(&second[0]),
        "the counter must have persisted into the second call"
    );
}

#[test]
fn bindings_introduced_inside_a_call_are_discarded() {
    let script = "
        fn on_key_press(ev) { let temporary = 1; }
        fn on_mouse_event(ev) { temporary += 1; }
    ";
    let mut manager = manager_with(vec![source("rewinder.rhai", script)]);
    let key = manager.handle_term_event(key_a());
    assert!(is_delivered(&key[0]));
    // Were `temporary` to survive the key dispatch, the mouse handler
    // could read it; it must instead fail on an unknown variable.
    let mouse = manager.handle_term_event(scroll_down_at(1, 1));
    assert!(
        !is_delivered(&mouse[0]),
        "a call-local binding must not exist for the next call"
    );
}

#[test]
fn start_failure_keeps_the_plugin_dispatchable() {
    let mut manager = PluginManager::new();
    let reports = manager.load_plugins(vec![source(
        "stumbler.rhai",
        "fn on_key_press(ev) { } throw \"startup fault\";",
    )]);
    assert!(matches!(reports[0], helix_plugins::LoadReport::Loaded { .. }));
    let failures = manager.start_plugins();
    assert_eq!(failures.len(), 1);
    assert_eq!(failures[0].plugin, "stumbler");
    assert!(failures[0].message.contains("startup fault"));
    // The plugin stays loaded and still receives events.
    let dispatched = manager.handle_term_event(key_a());
    assert_eq!(dispatched.len(), 1);
    assert_eq!(dispatched[0].plugin, "stumbler");
}

#[test]
fn handler_lookup_distinguishes_missing_from_invoked() {
    let mut plugin = Plugin::try_from(&source(
        "selective.rhai",
        "fn on_key_press(ev) { }",
    ))
    .unwrap();
    plugin.on_start().unwrap();
    let key = HostKeyEvent { code: HostKeyCode::Char('x'), modifiers: HostKeyModifiers { bits: 0 } };
    assert_eq!(plugin.on_key_press(key).unwrap(), HandlerOutcome::Invoked);
    assert_eq!(plugin.on_resize(80, 24).unwrap(), HandlerOutcome::NotDefined);
}

#[test]
fn call_scoped_rewind_applies_to_any_handler_name() {
    let script = "
        let beats = 0;
        fn tick() {
            let local_only = 1;
            beats += local_only;
            if beats >= 2 { throw \"two beats\"; }
        }
    ";
    let mut plugin = Plugin::try_from(&source("ticker.rhai", script)).unwrap();
    plugin.on_start().unwrap();
    let first = plugin.call_script_event_handler_fn("tick", Vec::new());
    assert_eq!(first.unwrap(), HandlerOutcome::Invoked);
    let second = plugin.call_script_event_handler_fn("tick", Vec::new());
    let error = second.unwrap_err();
    assert_eq!(error.handler, "tick");
    assert!(error.message.contains("two beats"));
    let absent = plugin.call_script_event_handler_fn("absent", Vec::new());
    assert_eq!(absent.unwrap(), HandlerOutcome::NotDefined);
}

#[test]
fn bindings_before_a_start_fault_remain() {
    let script = "
        let ready = true;
        fn on_key_press(ev) { if !ready { throw \"binding lost\"; } }
        throw \"late startup fault\";
    ";
    let mut manager = PluginManager::new();
    manager.load_plugins(vec![source("eager.rhai", script)]);
    let failures: Vec<StartFailure> = manager.start_plugins();
    assert!(failures[0].message.contains("late startup fault"));
    // `ready` was bound before the fault; the handler can still read it.
    let reports = manager.handle_term_event(key_a());
    assert!(is_delivered(&reports[0]), "binding made before the fault was lost: {:?}", reports[0]);
}
