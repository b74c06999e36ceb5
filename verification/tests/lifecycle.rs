use invocation_bridge::bridge::{Bridge, ErrorKind, Phase};
use invocation_bridge::command::{Command, HandlerKind, ParamDecl};
use invocation_bridge::plugin::{Event, Plugin};
use invocation_bridge::value::ParamType;

fn greet_command() -> Command {
    Command {
        name: "greet".to_string(),
        params: vec![ParamDecl { name: "name".to_string(), ty: ParamType::Str, required: true }],
        handler: HandlerKind::Greet,
    }
}

fn plugin(id: &str, init_ok: bool, teardown_ok: bool) -> Plugin {
    Plugin { id: id.to_string(), init_ok, teardown_ok }
}

#[test]
fn new_bridge_starts_uninitialized() {
    let b = Bridge::new();
    assert_eq!(b.phase(), Phase::Uninitialized);
}

#[test]
fn register_accepts_a_fresh_name() {
    let mut b = Bridge::new();
    b.begin_registration();
    assert!(b.register(greet_command()).is_ok());
}

#[test]
fn register_refuses_a_duplicate_name() {
    let mut b = Bridge::new();
    b.begin_registration();
    assert!(b.register(greet_command()).is_ok());
    let err = b.register(greet_command()).unwrap_err();
    assert_eq!(err.kind, ErrorKind::DuplicateCommand);
    assert_eq!(err.code, Some("greet".to_string()));
}

#[test]
fn register_before_registration_opens_fails() {
    let mut b = Bridge::new();
    let err = b.register(greet_command()).unwrap_err();
    assert_eq!(err.kind, ErrorKind::RegistryClosed);
}

#[test]
fn register_after_startup_fails_with_registry_closed() {
    let mut b = Bridge::new();
    b.begin_registration();
    assert!(b.register(greet_command()).is_ok());
    let (result, _) = b.startup(vec![plugin("opener", true, true)]);
    assert!(result.is_ok());
    assert_eq!(b.phase(), Phase::Ready);
    let err = b.register(greet_command()).unwrap_err();
    assert_eq!(err.kind, ErrorKind::RegistryClosed);
}

#[test]
fn startup_with_no_plugins_reaches_ready() {
    let mut b = Bridge::new();
    b.begin_registration();
    let (result, events) = b.startup(vec![]);
    assert!(result.is_ok());
    assert_eq!(b.phase(), Phase::Ready);
    assert_eq!(events, vec![]);
}

#[test]
fn startup_initializes_plugins_in_declared_order() {
    let mut b = Bridge::new();
    b.begin_registration();
    let (result, events) = b.startup(vec![plugin("a", true, true), plugin("b", true, true)]);
    assert!(result.is_ok());
    assert_eq!(b.phase(), Phase::Ready);
    assert_eq!(
        events,
        vec![Event::InitOk("a".to_string()), Event::InitOk("b".to_string())]
    );
}

#[test]
fn failed_init_tears_down_earlier_plugin_exactly_once() {
    let mut b = Bridge::new();
    b.begin_registration();
    let (result, events) = b.startup(vec![plugin("a", true, true), plugin("b", false, true)]);
    let err = result.unwrap_err();
    assert_eq!(err.kind, ErrorKind::PluginInitError);
    assert_eq!(err.code, Some("b".to_string()));
    assert_ne!(b.phase(), Phase::Ready);
    assert_eq!(b.phase(), Phase::Stopped);
    assert_eq!(
        events,
        vec![
            Event::InitOk("a".to_string()),
            Event::InitFailed("b".to_string()),
            Event::TeardownOk("a".to_string()),
        ]
    );
    let teardowns = events
        .iter()
        .filter(|e| matches!(e, Event::TeardownOk(id) | Event::TeardownFailed(id) if id == "a"))
        .count();
    assert_eq!(teardowns, 1);
}

#[test]
fn failed_init_skips_later_plugins() {
    let mut b = Bridge::new();
    b.begin_registration();
    let (result, events) = b.startup(vec![plugin("a", false, true), plugin("b", true, true)]);
    let err = result.unwrap_err();
    assert_eq!(err.code, Some("a".to_string()));
    assert_eq!(events, vec![Event::InitFailed("a".to_string())]);
}

#[test]
fn shutdown_tears_down_in_reverse_order() {
    let mut b = Bridge::new();
    b.begin_registration();
    let (result, _) = b.startup(vec![plugin("a", true, true), plugin("b", true, true)]);
    assert!(result.is_ok());
    let events = b.shutdown();
    assert_eq!(b.phase(), Phase::Stopped);
    assert_eq!(
        events,
        vec![Event::TeardownOk("b".to_string()), Event::TeardownOk("a".to_string())]
    );
}

#[test]
fn teardown_failure_is_recorded_and_does_not_block_the_rest() {
    let mut b = Bridge::new();
    b.begin_registration();
    let (result, _) = b.startup(vec![plugin("a", true, false), plugin("b", true, true)]);
    assert!(result.is_ok());
    let events = b.shutdown();
    assert_eq!(b.phase(), Phase::Stopped);
    assert_eq!(
        events,
        vec![Event::TeardownOk("b".to_string()), Event::TeardownFailed("a".to_string())]
    );
}
