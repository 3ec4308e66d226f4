//! The parts of the engine that need no session.
use debug_mcp::callbacks::{
    exception_breaks, interest_mask, status, CallbackState, EventCallbacks, OutputCallbacks,
    OutputKind, OutputSink, DEBUG_OUTPUT_ERROR, DEBUG_OUTPUT_NORMAL, DEBUG_OUTPUT_PROMPT,
    DEBUG_OUTPUT_WARNING,
};
use debug_mcp::com::{ComApartment, S_FALSE, S_OK};
use debug_mcp::decode::cstr_from_buf;
use debug_mcp::engine::command::{truncate_output, OUTPUT_CAP, TRUNCATED};
use debug_mcp::engine::extensions::{
    candidate_roots, discover_debuggers_root_with, extension_dirs, join_path, select_existing_root,
};
use debug_mcp::engine::inspect::{render_symbol, source_line};
use debug_mcp::engine::memory::parse_disasm_text;
use debug_mcp::engine::modules::{
    module_list, symbol_status, DEBUG_SYMTYPE_CODEVIEW, DEBUG_SYMTYPE_COFF, DEBUG_SYMTYPE_DEFERRED,
    DEBUG_SYMTYPE_DIA, DEBUG_SYMTYPE_EXPORT, DEBUG_SYMTYPE_NONE, DEBUG_SYMTYPE_PDB,
    DEBUG_SYMTYPE_SYM,
};
use debug_mcp::engine::host::{RawModule, Request};
use debug_mcp::engine::session::{command_line, reload_request};
use debug_mcp::engine::{condition_expr, with_reason, Engine, InterruptHandle};
use debug_mcp::error::{connect_error, map_engine_err, BackendError, ComError, EngineError, E_FAIL};
use debug_mcp::types::{ModuleInfo, StopInfo, StopOutcome};
use std::cell::RefCell;
use std::collections::HashSet;
use std::sync::atomic::{AtomicBool, Ordering};
use std::sync::{Arc, Mutex};

const DEFAULT_ROOT: &str = "C:\\Program Files (x86)\\Windows Kits\\10\\Debuggers\\x64";

fn com_error(code: u32) -> ComError {
    ComError { code: code as i32, message: "text".to_string() }
}

#[test]
fn exception_breaks_truth_table() {
    assert!(!exception_breaks(true, 0xC000_0005), "first-chance AV should pass through");
    assert!(exception_breaks(false, 0xC000_0005), "second-chance AV should break");
    assert!(exception_breaks(true, 0x8000_0003), "first-chance initial breakpoint should break");
    assert!(exception_breaks(false, 0x8000_0003), "second-chance initial breakpoint should break");
}

#[test]
fn output_kind_from_mask_classifies() {
    assert_eq!(OutputKind::from_mask(DEBUG_OUTPUT_NORMAL), OutputKind::Normal);
    assert_eq!(OutputKind::from_mask(DEBUG_OUTPUT_ERROR), OutputKind::Error);
    assert_eq!(OutputKind::from_mask(DEBUG_OUTPUT_WARNING), OutputKind::Warning);
    assert_eq!(OutputKind::from_mask(DEBUG_OUTPUT_PROMPT), OutputKind::Prompt);
    assert_eq!(OutputKind::from_mask(0x8000_0000), OutputKind::Other(0x8000_0000));
}

#[test]
fn interrupt_handle_is_send() {
    fn assert_send<T: Send>() {}
    assert_send::<InterruptHandle>();
}

#[test]
fn interrupting_raises_the_shared_flag() {
    let flag = Arc::new(AtomicBool::new(false));
    let handle = InterruptHandle::from_flag(Arc::clone(&flag));
    assert!(!flag.load(Ordering::Acquire));
    handle.interrupt();
    assert!(flag.load(Ordering::Acquire));
    handle.interrupt();
    assert!(flag.load(Ordering::Acquire));
}

#[test]
fn condition_expr_wraps_in_the_cpp_boolean_projection() {
    assert_eq!(condition_expr("i == 5"), "@@c++( (i == 5) ? 1 : 0 )");
    assert_eq!(condition_expr("nonexistent_xyz == 1"), "@@c++( (nonexistent_xyz == 1) ? 1 : 0 )");
    assert_eq!(condition_expr("sum > 0 && i < n"), "@@c++( (sum > 0 && i < n) ? 1 : 0 )");
}

#[test]
fn symbol_status_maps_to_the_neutral_vocabulary() {
    for full in [
        DEBUG_SYMTYPE_PDB,
        DEBUG_SYMTYPE_CODEVIEW,
        DEBUG_SYMTYPE_COFF,
        DEBUG_SYMTYPE_SYM,
        DEBUG_SYMTYPE_DIA,
    ] {
        assert_eq!(symbol_status(full), "pdb");
    }
    assert_eq!(symbol_status(DEBUG_SYMTYPE_EXPORT), "export");
    assert_eq!(symbol_status(DEBUG_SYMTYPE_DEFERRED), "deferred");
    assert_eq!(symbol_status(DEBUG_SYMTYPE_NONE), "none");
    assert_eq!(symbol_status(0xDEAD_BEEF), "none");
    for ty in [
        DEBUG_SYMTYPE_PDB,
        DEBUG_SYMTYPE_EXPORT,
        DEBUG_SYMTYPE_DEFERRED,
        DEBUG_SYMTYPE_NONE,
        0u32,
        12345u32,
    ] {
        let token = symbol_status(ty);
        assert!(
            matches!(token.as_str(), "pdb" | "export" | "deferred" | "none"),
            "symbol_status({ty}) produced an out-of-vocabulary token {token:?}"
        );
    }
}

#[test]
fn module_info_format_contract() {
    let base: u64 = 0x0000_7FFA_1B2C_0000;
    let size: u32 = 2_138_112;
    let modules = module_list(vec![
        None,
        Some(RawModule {
            base,
            name: Some(b"ntdll.dll\0".to_vec()),
            params: Some((size, DEBUG_SYMTYPE_PDB)),
        }),
    ]);
    assert_eq!(modules.len(), 1, "a module that cannot be read is left out");
    let module = &modules[0];
    assert_eq!(
        *module,
        ModuleInfo {
            name: "ntdll.dll".to_string(),
            base: format!("0x{base:016X}"),
            size: size.to_string(),
            symbol_status: symbol_status(DEBUG_SYMTYPE_PDB),
        }
    );
    assert_eq!(module.base, "0x00007FFA1B2C0000");
    assert_eq!(module.base.len(), 18);
    assert!(module.base.starts_with("0x"));
    let hex = &module.base[2..];
    assert_eq!(hex.len(), 16);
    assert!(
        hex.chars().all(|c| c.is_ascii_digit() || ('A'..='F').contains(&c)),
        "base hex digits must be uppercase 0-9A-F, got {hex:?}"
    );
    assert_eq!(module.size, "2138112");
    assert!(module.size.chars().all(|c| c.is_ascii_digit()));
    assert!(matches!(module.symbol_status.as_str(), "pdb" | "export" | "deferred" | "none"));
}

#[test]
fn extension_dirs_all_three_present_in_order() {
    let root = "C:\\Kits\\10\\Debuggers\\x64";
    let dirs = extension_dirs(root, |_: &str| true);
    assert_eq!(
        dirs,
        vec![join_path(root, "winext"), join_path(root, "winxp"), root.to_string()],
        "all three dirs in winext, winxp, base order"
    );
    assert_eq!(dirs.join(";"), format!("{root}\\winext;{root}\\winxp;{root}"));
}

#[test]
fn extension_dirs_only_base_present() {
    let root = "D:\\Sdk\\Debuggers\\x64";
    let dirs = extension_dirs(root, |p: &str| p == root);
    assert_eq!(dirs, vec![root.to_string()]);
    assert_eq!(dirs.join(";"), root);
}

#[test]
fn extension_dirs_skips_absent_winxp() {
    let root = "E:\\WinKit\\Debuggers\\x64";
    let winext = join_path(root, "winext");
    let winxp = join_path(root, "winxp");
    let present: HashSet<String> = [winext.clone(), root.to_string()].into_iter().collect();
    let dirs = extension_dirs(root, |p: &str| present.contains(p));
    assert_eq!(dirs, vec![winext, root.to_string()]);
    assert!(!dirs.contains(&winxp), "winxp must be skipped when it does not exist");
}

#[test]
fn extension_dirs_none_present_is_empty() {
    let root = "F:\\nope\\Debuggers\\x64";
    let dirs = extension_dirs(root, |_: &str| false);
    assert!(dirs.is_empty());
    assert_eq!(dirs.join(";"), "");
}

#[test]
fn select_existing_root_picks_first_existing_in_order() {
    let reg = "C:\\reg\\Debuggers\\x64".to_string();
    let env = "C:\\env\\Debuggers\\x64".to_string();
    let default = "C:\\default\\Debuggers\\x64".to_string();
    let exists_env_default: HashSet<String> = [env.clone(), default.clone()].into_iter().collect();
    let picked = select_existing_root(vec![reg.clone(), env.clone(), default.clone()], |p: &str| {
        exists_env_default.contains(p)
    });
    assert_eq!(picked, Some(env.clone()));
    let picked =
        select_existing_root(vec![reg.clone(), env.clone(), default.clone()], |_: &str| true);
    assert_eq!(picked, Some(reg));
    let picked = select_existing_root(vec![env, default], |_: &str| false);
    assert_eq!(picked, None);
}

#[test]
fn discover_registry_hit_wins_and_joins_trailing_sep_cleanly() {
    let reg_reader = |_wow: bool| Some("C:\\Program Files\\Windows Kits\\10\\".to_string());
    let picked = discover_debuggers_root_with(reg_reader, Some("C:\\sdk".into()), |_: &str| true);
    assert_eq!(
        picked,
        Some("C:\\Program Files\\Windows Kits\\10\\Debuggers\\x64".to_string()),
        "registry candidate must win and the trailing-slash join must not double the separator"
    );
}

#[test]
fn discover_registry_miss_falls_through_to_env() {
    let reg_reader = |_wow: bool| None;
    let picked = discover_debuggers_root_with(reg_reader, Some("C:\\my sdk".into()), |_: &str| true);
    assert_eq!(
        picked,
        Some("C:\\my sdk\\Debuggers\\x64".to_string()),
        "with no registry value the env var candidate must be chosen"
    );
    let picked = discover_debuggers_root_with(|_: bool| None, Some(String::new()), |_: &str| true);
    assert_eq!(picked, Some(DEFAULT_ROOT.to_string()));
}

#[test]
fn discover_both_miss_falls_through_to_default() {
    let picked = discover_debuggers_root_with(|_: bool| None, None, |_: &str| true);
    assert_eq!(picked, Some(DEFAULT_ROOT.to_string()));
}

#[test]
fn discover_nonexistent_registry_path_falls_through_to_existing_env() {
    let env_root = "C:\\real\\Debuggers\\x64".to_string();
    let exists = move |p: &str| p == env_root.as_str();
    let picked = discover_debuggers_root_with(
        |_wow: bool| Some("C:\\ghost".to_string()),
        Some("C:\\real".into()),
        exists,
    );
    assert_eq!(
        picked,
        Some("C:\\real\\Debuggers\\x64".to_string()),
        "a registry path that doesn't exist must not be chosen over an existing env path"
    );
}

#[test]
fn discover_returns_none_when_nothing_exists() {
    let picked =
        discover_debuggers_root_with(|_: bool| Some("C:\\x".to_string()), None, |_: &str| false);
    assert_eq!(picked, None);
}

#[test]
fn discover_dedups_identical_registry_views() {
    let reg_reader = |_wow: bool| Some("C:\\Program Files\\Windows Kits\\10\\".to_string());
    let probed = RefCell::new(Vec::<String>::new());
    let exists = |p: &str| {
        probed.borrow_mut().push(p.to_string());
        false
    };
    let picked = discover_debuggers_root_with(reg_reader, Some("C:\\sdk".into()), exists);
    assert_eq!(picked, None);
    let probed = probed.into_inner();
    let reg_candidate = "C:\\Program Files\\Windows Kits\\10\\Debuggers\\x64".to_string();
    let reg_hits = probed.iter().filter(|p| **p == reg_candidate).count();
    assert_eq!(reg_hits, 1, "one candidate for both views, got probes: {probed:?}");
    assert!(probed.contains(&"C:\\sdk\\Debuggers\\x64".to_string()));
    assert!(probed.contains(&DEFAULT_ROOT.to_string()));
    assert_eq!(probed.first(), Some(&reg_candidate));
}

#[test]
fn the_two_views_of_the_registry_are_both_read() {
    let seen = RefCell::new(Vec::<bool>::new());
    let reader = |wow: bool| {
        seen.borrow_mut().push(wow);
        if wow {
            Some("C:\\wow".to_string())
        } else {
            None
        }
    };
    let picked = discover_debuggers_root_with(reader, None, |_: &str| true);
    assert_eq!(picked, Some("C:\\wow\\Debuggers\\x64".to_string()));
    assert_eq!(seen.into_inner(), vec![false, true]);
}

#[test]
fn candidates_keep_their_order_and_occur_once() {
    let roots = candidate_roots(
        Some("C:\\a".to_string()),
        Some("C:\\b\\".to_string()),
        Some("C:\\a".to_string()),
    );
    assert_eq!(
        roots,
        vec![
            "C:\\a\\Debuggers\\x64".to_string(),
            "C:\\b\\Debuggers\\x64".to_string(),
            DEFAULT_ROOT.to_string(),
        ]
    );
    let own = candidate_roots(
        Some("C:\\Program Files (x86)\\Windows Kits\\10\\".to_string()),
        None,
        None,
    );
    assert_eq!(own, vec![DEFAULT_ROOT.to_string()]);
}

#[test]
fn truncate_output_caps_at_32kb_with_suffix() {
    const CAP: usize = 32768;
    const SUFFIX: &str = "\n\n... (output truncated at 32KB)";
    let small = "EXCEPTION_ACCESS_VIOLATION".to_string();
    assert_eq!(truncate_output(small.clone()), small);
    let exact = "a".repeat(CAP);
    assert_eq!(truncate_output(exact.clone()), exact);
    let big = "b".repeat(CAP + 5000);
    let truncated = truncate_output(big);
    assert!(truncated.ends_with(SUFFIX), "missing truncation suffix");
    let body = &truncated[..truncated.len() - SUFFIX.len()];
    assert_eq!(body.len(), CAP, "body should be capped at exactly 32KB");
    assert!(body.bytes().all(|b| b == b'b'));
}

#[test]
fn truncate_output_rounds_down_to_char_boundary_on_multibyte() {
    const CAP: usize = 32768;
    const SUFFIX: &str = "\n\n... (output truncated at 32KB)";
    let euro = '\u{20AC}';
    assert_eq!(euro.len_utf8(), 3);
    let count = (CAP / 3) + 100;
    let big: String = euro.to_string().repeat(count);
    assert!(big.len() > CAP);
    let truncated = truncate_output(big);
    assert!(truncated.ends_with(SUFFIX), "missing truncation suffix");
    let body = &truncated[..truncated.len() - SUFFIX.len()];
    assert!(body.len() <= CAP, "body must not exceed the cap");
    assert_eq!(body.len() % 3, 0, "cut must land on a 3-byte char boundary");
    let reparsed = std::str::from_utf8(body.as_bytes()).expect("body is valid UTF-8");
    assert!(reparsed.chars().all(|c| c == euro), "no char was split");
}

#[test]
fn truncation_keeps_as_much_as_fits() {
    assert_eq!((OUTPUT_CAP, TRUNCATED), (32768, "\n\n... (output truncated at 32KB)"));
    // Two bytes each: the cap falls between two of them. Four bytes each: so it does there.
    for c in ['\u{E9}', '\u{1F600}'] {
        let big: String = c.to_string().repeat(32768);
        let truncated = truncate_output(big);
        assert_eq!(truncated.len(), OUTPUT_CAP + TRUNCATED.len());
    }
    // One byte before three-byte characters moves every boundary.
    let shifted = format!("a{}", "\u{20AC}".repeat(11000));
    let truncated = truncate_output(shifted);
    assert_eq!(truncated.len() - TRUNCATED.len(), 1 + 3 * 10922);
}

#[test]
fn display_includes_context_and_hresult() {
    let err = EngineError::op("QueryInterface(IDebugControl4)", com_error(0x8000_4002));
    let shown = err.to_string();
    assert!(
        shown.contains("QueryInterface(IDebugControl4)"),
        "the context label is shown: {shown}"
    );
    assert!(shown.contains("0x80004002"), "the hresult is shown: {shown}");
    assert!(shown.contains("failed:"), "wording: {shown}");
}

#[test]
fn accessors_round_trip() {
    let err = EngineError::op("DebugCreate", com_error(0x8000_4005));
    assert_eq!(err.context(), "DebugCreate");
    assert_eq!(err.hresult(), 0x8000_4005u32 as i32);
}

#[test]
fn engine_refusals_show_their_message() {
    let err = EngineError::engine("command contains an interior NUL byte");
    assert_eq!(err.to_string(), "command contains an interior NUL byte");
    assert_eq!(err.context(), "engine");
    assert_eq!(err.hresult(), E_FAIL);
    assert_eq!(E_FAIL, 0x8000_4005u32 as i32);
}

#[test]
fn engine_errors_become_backend_errors() {
    let err = EngineError::op("SetScope", com_error(0x8000_4005));
    let shown = err.to_string();
    match map_engine_err(err) {
        BackendError::Dap { message } => assert_eq!(message, shown),
        other => panic!("expected a refusal of the debugger, got {other:?}"),
    }
}

#[test]
fn init_and_drop_on_a_fresh_thread_succeeds() {
    let mut guard = ComApartment::new(ComError { code: S_OK, message: String::new() })
        .expect("the first initialization");
    assert!(guard.leave(), "the initialization is balanced");
}

#[test]
fn nested_mta_init_is_compatible() {
    let mut outer = ComApartment::new(ComError { code: S_OK, message: String::new() })
        .expect("first initialization");
    let mut inner = ComApartment::new(ComError { code: S_FALSE, message: String::new() })
        .expect("a nested one is compatible");
    assert!(inner.leave());
    assert!(outer.leave());
    assert!(!outer.leave(), "only once");
}

#[test]
fn an_apartment_of_another_kind_is_refused() {
    let err = ComApartment::new(com_error(0x8001_0106)).expect_err("a changed mode");
    assert_eq!(err.hresult(), 0x8001_0106u32 as i32);
    assert_eq!(err.context(), "CoInitializeEx");
}

#[test]
fn events_are_recorded_and_answered() {
    let mut state = CallbackState::default();
    assert_eq!(state.last_stop_reason(), "");
    assert_eq!(state.on_breakpoint(3, 0x1_4000_1000), status(6));
    assert_eq!(state.last_breakpoint_id(), Some(3));
    assert_eq!(state.last_breakpoint_offset(), Some(0x1_4000_1000));
    assert_eq!(state.last_stop_reason(), "Breakpoint 3 hit at 0x140001000");
    // A first-chance fault passes; a second-chance one stops.
    assert_eq!(state.on_exception(0xC000_0005, 0x10, true), status(0));
    assert_eq!(state.on_exception(0xC000_0005, 0x10, false), status(6));
    assert_eq!(state.last_exception_code(), Some(0xC000_0005));
    assert_eq!(state.last_exception_address(), Some(0x10));
    assert_eq!(state.on_exit_process(7), status(6));
    assert_eq!(state.last_exit_code(), Some(7));
    assert_eq!(interest_mask(), 0x1 | 0x2 | 0x10 | 0x20 | 0x40 | 0x200);
}

#[test]
fn output_reaches_the_buffer_and_the_sink() {
    let mut state = CallbackState::new();
    state.record_output(OutputKind::Normal, "before\n");
    assert!(state.take_forwarded().is_empty(), "there is no sink yet");
    state.set_sink(OutputSink::new());
    state.on_output(DEBUG_OUTPUT_WARNING, "careful\n");
    assert_eq!(state.take_output(), "before\ncareful\n");
    let lines = state.take_forwarded();
    assert_eq!(lines.len(), 1);
    assert_eq!(lines[0].kind, OutputKind::Warning);
    assert_eq!(lines[0].text, "careful\n");
    assert!(state.take_forwarded().is_empty());
}

#[test]
fn the_callbacks_share_their_state() {
    let state = Arc::new(Mutex::new(CallbackState::new()));
    let output = OutputCallbacks::new(Arc::clone(&state));
    let events = EventCallbacks::new(Arc::clone(&state));
    output.state.lock().unwrap_or_else(|p| p.into_inner()).on_output(1, "one");
    let _ = events.state.lock().unwrap_or_else(|p| p.into_inner()).on_exit_process(2);
    let mut seen = state.lock().unwrap_or_else(|p| p.into_inner());
    assert_eq!(seen.take_output(), "one");
    assert_eq!(seen.last_exit_code(), Some(2));
}

#[test]
fn a_fresh_engine_can_run() {
    assert!(Engine::new().ensure_runnable().is_ok());
}

#[test]
fn reasons_are_replaced_on_stops_alone() {
    let info = StopInfo {
        reason: "old".to_string(),
        thread_id: 4,
        description: "old".to_string(),
        hit_breakpoint_ids: vec![1],
    };
    match with_reason(StopOutcome::Stopped(info), "new") {
        StopOutcome::Stopped(info) => {
            assert_eq!(info.reason, "new");
            assert_eq!(info.thread_id, 4);
            assert_eq!(info.hit_breakpoint_ids, vec![1]);
        }
        other => panic!("expected a stop, got {other:?}"),
    }
    let exited = with_reason(StopOutcome::Exited { code: Some(3) }, "new");
    assert_eq!(exited, StopOutcome::Exited { code: Some(3) });
}

#[test]
fn command_lines_quote_the_program() {
    assert_eq!(command_line("C:\\a b\\x.exe", &vec![]), "\"C:\\a b\\x.exe\"");
    assert_eq!(
        command_line("x.exe", &vec!["one".to_string(), "two".to_string()]),
        "\"x.exe\" one two"
    );
}

#[test]
fn symbols_reload_for_a_named_module() {
    assert_eq!(
        reload_request("test_target".to_string()),
        Some(Request::Reload("/f test_target".to_string()))
    );
    assert_eq!(reload_request("a\0b".to_string()), None);
}

#[test]
fn symbols_show_their_displacement() {
    assert_eq!(render_symbol("app!main".to_string(), 0), Some("app!main".to_string()));
    assert_eq!(render_symbol("app!main".to_string(), 0x1f), Some("app!main+0x1F".to_string()));
    assert_eq!(render_symbol(String::new(), 4), None);
    assert_eq!(source_line("a.c".to_string(), 7), (Some("a.c".to_string()), 7));
    assert_eq!(source_line(String::new(), 7), (None, 0));
}

#[test]
fn instruction_text_drops_address_and_bytes() {
    assert_eq!(
        parse_disasm_text("00007ff7`bb0a1000 894c2408        mov     dword ptr [rsp+8],ecx\n"),
        "mov dword ptr [rsp+8],ecx"
    );
    assert_eq!(parse_disasm_text("00007ff7`bb0a1000 c3              ret\n"), "ret");
}

#[test]
fn buffers_end_at_their_first_zero() {
    assert_eq!(cstr_from_buf(b"abc\0def"), "abc");
    assert_eq!(cstr_from_buf(b"abc"), "abc");
    assert_eq!(cstr_from_buf(b""), "");
    assert_eq!(cstr_from_buf(&[b'a', 0xff, b'b', 0]), "a\u{FFFD}b", "what is no text is replaced");
}

#[test]
fn backend_errors_show_what_happened() {
    assert_eq!(BackendError::Detect("d".to_string()).to_string(), "d");
    assert_eq!(BackendError::Spawn("s".to_string()).to_string(), "s");
    assert_eq!(BackendError::Dap { message: "m".to_string() }.to_string(), "m");
    assert_eq!(BackendError::Closed.to_string(), "connection closed");
    assert_eq!(BackendError::Unsupported("get_modules").to_string(), "unsupported: get_modules");
}

#[test]
fn connect_errors_name_the_debugger() {
    let found = |name: &str| connect_error(name, BackendError::Detect("why".to_string()));
    assert_eq!(found("lldb"), "failed to find lldb-dap: why");
    assert_eq!(found("windbg"), "Debugging Tools for Windows not found: why");
    assert_eq!(found("gdb"), "failed to find gdb: why");
    let spawned = |name: &str| connect_error(name, BackendError::Spawn("why".to_string()));
    assert_eq!(spawned("lldb"), "failed to spawn lldb-dap: why");
    assert_eq!(spawned("windbg"), "failed to initialize DbgEng: why");
    assert_eq!(spawned("gdb"), "failed to spawn gdb: why");
    assert_eq!(connect_error("windbg", BackendError::Closed), "connection closed");
}
