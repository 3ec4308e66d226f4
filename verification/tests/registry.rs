//! Selection among the registered backends, and the union of what they can do.
use debug_mcp::capabilities::BackendCapabilities;
use debug_mcp::factory::{BackendFactory, WinDbgFactory};
use debug_mcp::registry::{default_backend_for_os, BackendRegistry};
use std::sync::Arc;

struct StubFactory {
    name: &'static str,
    capabilities: BackendCapabilities,
}

impl StubFactory {
    fn arc(name: &'static str, capabilities: BackendCapabilities) -> Arc<StubFactory> {
        Arc::new(StubFactory { name, capabilities })
    }
}

impl BackendFactory for StubFactory {
    fn name(&self) -> &'static str {
        self.name
    }

    fn capabilities(&self) -> BackendCapabilities {
        self.capabilities
    }
}

fn two_backend_registry() -> BackendRegistry<StubFactory> {
    let mut registry = BackendRegistry::new("a");
    registry.register(StubFactory::arc(
        "a",
        BackendCapabilities { crash_dump: true, ..BackendCapabilities::default() },
    ));
    registry.register(StubFactory::arc(
        "b",
        BackendCapabilities { modules: true, ..BackendCapabilities::default() },
    ));
    registry
}

fn select_err(result: Result<Arc<StubFactory>, String>) -> String {
    match result {
        Ok(f) => panic!("expected an error, got factory '{}'", f.name()),
        Err(e) => e,
    }
}

#[test]
fn explicit_arg_wins_over_env_and_default() {
    let registry = two_backend_registry();
    let f = registry.select_with_env(Some("b"), Some("a")).ok().expect("b is registered");
    assert_eq!(f.name(), "b");
}

#[test]
fn env_overrides_default_when_no_arg() {
    let registry = two_backend_registry();
    let f = registry.select_with_env(None, Some("b")).ok().expect("b is registered");
    assert_eq!(f.name(), "b");
}

#[test]
fn default_used_when_neither_arg_nor_env() {
    let registry = two_backend_registry();
    let f = registry.select_with_env(None, None).ok().expect("default a is registered");
    assert_eq!(f.name(), "a");
}

#[test]
fn unknown_name_errors_listing_available() {
    let registry = two_backend_registry();
    let err = select_err(registry.select_with_env(Some("zzz"), None));
    assert_eq!(err, "unknown backend 'zzz'; available: a, b");
}

#[test]
fn env_unknown_name_errors_listing_available() {
    let registry = two_backend_registry();
    let err = select_err(registry.select_with_env(None, Some("zzz")));
    assert_eq!(err, "unknown backend 'zzz'; available: a, b");
}

#[test]
fn empty_env_falls_through_to_default() {
    let registry = two_backend_registry();
    let f = registry
        .select_with_env(None, Some(""))
        .ok()
        .expect("default a is used when env is empty");
    assert_eq!(f.name(), "a");
}

#[test]
fn an_empty_argument_falls_through_to_the_environment() {
    let registry = two_backend_registry();
    let f = registry.select_with_env(Some(""), Some("b")).ok().expect("b is registered");
    assert_eq!(f.name(), "b");
    let f = registry.select_with_env(Some(""), None).ok().expect("a is the default");
    assert_eq!(f.name(), "a");
}

#[test]
fn unregistered_default_surfaces_unknown_backend_error() {
    let mut registry = BackendRegistry::new("windbg");
    registry.register(StubFactory::arc("lldb", BackendCapabilities::default()));
    let err = select_err(registry.select_with_env(None, None));
    assert_eq!(err, "unknown backend 'windbg'; available: lldb");
}

#[test]
fn capability_union_is_or_of_registered_factories() {
    let registry = two_backend_registry();
    let caps = registry.capabilities();
    assert_eq!(
        caps,
        BackendCapabilities { crash_dump: true, kernel: false, analyze: false, modules: true }
    );
}

#[test]
fn empty_registry_has_all_false_capabilities() {
    let registry: BackendRegistry<StubFactory> = BackendRegistry::new("lldb");
    assert_eq!(registry.capabilities(), BackendCapabilities::default());
    assert!(registry.available_names().is_empty());
    assert_eq!(registry.default_name(), "lldb");
}

#[test]
fn available_names_are_sorted() {
    let mut registry = BackendRegistry::new("a");
    registry.register(StubFactory::arc("b", BackendCapabilities::default()));
    registry.register(StubFactory::arc("a", BackendCapabilities::default()));
    assert_eq!(registry.available_names(), vec!["a", "b"]);
}

#[test]
fn names_sort_by_their_characters() {
    let mut registry = BackendRegistry::new("a");
    for name in ["lldb", "Z", "a", "lldb-dap", "\u{E9}"] {
        registry.register(StubFactory::arc(name, BackendCapabilities::default()));
    }
    assert_eq!(registry.available_names(), vec!["Z", "a", "lldb", "lldb-dap", "\u{E9}"]);
}

#[test]
fn a_name_registered_again_is_replaced() {
    let mut registry = BackendRegistry::new("a");
    registry.register(StubFactory::arc("a", BackendCapabilities::default()));
    registry.register(StubFactory::arc(
        "a",
        BackendCapabilities { kernel: true, ..BackendCapabilities::default() },
    ));
    assert_eq!(registry.available_names(), vec!["a"]);
    let f = registry.select_with_env(Some("a"), None).ok().expect("a is registered");
    assert!(f.capabilities().kernel);
}

#[test]
fn factory_capabilities_are_all_true() {
    let caps = WinDbgFactory::new().capabilities();
    assert_eq!(
        caps,
        BackendCapabilities { crash_dump: true, kernel: true, analyze: true, modules: true }
    );
}

#[test]
fn the_windbg_backend_serves_a_whole_registry() {
    let mut registry = BackendRegistry::new(default_backend_for_os(true));
    registry.register(Arc::new(WinDbgFactory::default()));
    let f = registry.select_with_env(None, None).ok().expect("the default is registered");
    assert_eq!(f.name(), "windbg");
    assert_eq!(default_backend_for_os(false), "lldb");
}

#[test]
fn factories_of_two_kinds_stand_side_by_side() {
    let mut registry: BackendRegistry<dyn BackendFactory> = BackendRegistry::new("lldb");
    registry.register(Arc::new(WinDbgFactory::new()));
    registry.register(StubFactory::arc("lldb", BackendCapabilities::default()));
    assert_eq!(registry.available_names(), vec!["lldb", "windbg"]);
    let windbg = registry.select_with_env(Some("windbg"), None).ok().expect("registered");
    assert!(windbg.capabilities().kernel);
    let lldb = registry.select_with_env(None, None).ok().expect("registered");
    assert_eq!(lldb.name(), "lldb");
    assert!(!lldb.capabilities().kernel);
    assert!(registry.capabilities().crash_dump);
}
