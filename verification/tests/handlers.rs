//! The tools of the WinDbg backend, driven through a session that a test keeps.
use debug_mcp::capabilities::BackendCapabilities;
use debug_mcp::engine_ops::EngineCmd;
use debug_mcp::error::BackendError;
use debug_mcp::factory::BackendFactory;
use debug_mcp::handlers::{
    crash_analyzed, modules_listed, not_available, require_string, unsupported_active, ActiveTool,
    ConnectFlow, ConnectTool, Effect, Field, FieldValue, HandlerAsk, HandlerStep, SessionState,
    ToolOutcome,
};
use debug_mcp::registry::BackendRegistry;
use debug_mcp::types::{AttachOutcome, DumpOutcome, ModuleInfo, StopInfo};
use std::sync::Arc;

/// What a scripted backend gives back.
enum Script {
    ConnectFails(BackendError),
    Dump(Result<DumpOutcome, BackendError>),
    Kernel(Result<AttachOutcome, BackendError>),
    Cancel,
    Nothing,
}

struct NamedFactory {
    name: &'static str,
}

impl BackendFactory for NamedFactory {
    fn name(&self) -> &'static str {
        self.name
    }

    fn capabilities(&self) -> BackendCapabilities {
        BackendCapabilities::default()
    }
}

struct Harness {
    registry: BackendRegistry<NamedFactory>,
    script: Script,
    state: SessionState,
    is_dump: bool,
    backend: Option<&'static str>,
    pump: bool,
    last_stop: Option<StopInfo>,
    seen: Vec<SessionState>,
    calls: Vec<EngineCmd>,
}

impl Harness {
    fn with(name: &'static str, script: Script) -> Harness {
        let mut registry = BackendRegistry::new(name);
        registry.register(Arc::new(NamedFactory { name }));
        Harness {
            registry,
            script,
            state: SessionState::Idle,
            is_dump: false,
            backend: None,
            pump: false,
            last_stop: None,
            seen: Vec::new(),
            calls: Vec::new(),
        }
    }

    fn new() -> Harness {
        Harness::with("fake", Script::Nothing)
    }

    fn windbg(script: Script) -> Harness {
        Harness::with("windbg", script)
    }

    fn connected(state: SessionState) -> Harness {
        let mut h = Harness::new();
        h.state = state;
        h.backend = Some("fake");
        h
    }

    fn idle(&self) -> Result<(), String> {
        match self.state {
            SessionState::Idle => Ok(()),
            SessionState::Stopped => {
                Err("invalid state: stopped, expected one of: idle".to_string())
            }
            other => Err(format!("invalid state: {other:?}, expected one of: idle")),
        }
    }

    fn stopped(&self) -> Result<(), String> {
        match self.state {
            SessionState::Stopped => Ok(()),
            SessionState::Running => Err("process is running. Use 'pause' first.".to_string()),
            other => Err(format!("invalid state: {other:?}")),
        }
    }

    fn apply(&mut self, effects: Vec<Effect>) {
        for effect in effects {
            match effect {
                Effect::SetState(state) => {
                    self.state = state;
                    self.seen.push(state);
                }
                Effect::Reset => {
                    self.state = SessionState::Idle;
                    self.is_dump = false;
                    self.last_stop = None;
                }
                Effect::ClearBackend => self.backend = None,
                Effect::StoreBackend(name) => self.backend = Some(name),
                Effect::SpawnEventPump => self.pump = true,
                Effect::Cleanup => {
                    self.state = SessionState::Idle;
                    self.backend = None;
                    self.pump = false;
                }
                Effect::SetDump(is_dump) => self.is_dump = is_dump,
                Effect::SetLastStopped(info) => self.last_stop = Some(info),
            }
        }
    }

    fn answer(&mut self, step: HandlerStep) -> Option<ToolOutcome> {
        self.apply(step.effects);
        match step.ask {
            HandlerAsk::Respond(outcome) => Some(outcome),
            HandlerAsk::Call(cmd) => {
                self.calls.push(cmd);
                None
            }
            HandlerAsk::Connect => None,
        }
    }

    fn connect_tool(&mut self, tool: ConnectTool, argument: Option<&str>) -> ToolOutcome {
        let argument = argument.map(|s| s.to_string());
        let (step, flow) = ConnectFlow::begin(tool, self.idle(), argument, &self.registry);
        if let Some(outcome) = self.answer(step) {
            assert!(flow.is_none());
            return outcome;
        }
        let (flow, factory) = flow.expect("a flow that connects");
        assert_eq!(factory.name(), "windbg");
        let script = std::mem::replace(&mut self.script, Script::Nothing);
        let connection = match script {
            Script::ConnectFails(e) => return self.last(flow.connected(Err(e))),
            other => other,
        };
        let step = flow.connected(Ok(()));
        assert!(self.answer(step).is_none());
        let step = match connection {
            Script::Dump(Ok(outcome)) => flow.dump_opened(outcome),
            Script::Kernel(Ok(outcome)) => flow.kernel_attached(outcome),
            Script::Dump(Err(e)) | Script::Kernel(Err(e)) => flow.failed(e),
            Script::Cancel => flow.cancelled(),
            _ => unreachable!(),
        };
        self.last(step)
    }

    fn last(&mut self, step: HandlerStep) -> ToolOutcome {
        self.answer(step).expect("an answer")
    }

    fn open_crash_dump(&mut self, path: Option<&str>) -> ToolOutcome {
        self.connect_tool(ConnectTool::OpenCrashDump, path)
    }

    fn attach_kernel(&mut self, connection: Option<&str>) -> ToolOutcome {
        self.connect_tool(ConnectTool::AttachKernel, connection)
    }

    fn active_tool(&mut self, tool: ActiveTool, reply: Result<ToolOutcome, BackendError>) -> ToolOutcome {
        let step = tool.begin(self.stopped(), self.backend.is_some());
        if let Some(outcome) = self.answer(step) {
            return outcome;
        }
        match reply {
            Ok(outcome) => outcome,
            Err(e) => tool.failed(e, self.backend, self.registry.default_name()),
        }
    }

    fn analyze_crash(&mut self, reply: Result<String, BackendError>) -> ToolOutcome {
        self.active_tool(ActiveTool::AnalyzeCrash, reply.map(crash_analyzed))
    }

    fn get_modules(&mut self, reply: Result<Vec<ModuleInfo>, BackendError>) -> ToolOutcome {
        self.active_tool(ActiveTool::GetModules, reply.map(modules_listed))
    }
}

fn expect_error(outcome: &ToolOutcome) -> &str {
    match outcome {
        ToolOutcome::Error(m) => m,
        other => panic!("expected Error outcome, got {other:?}"),
    }
}

fn expect_json(outcome: &ToolOutcome) -> &Vec<Field> {
    match outcome {
        ToolOutcome::Json(v) => v,
        other => panic!("expected Json outcome, got {other:?}"),
    }
}

fn field<'a>(fields: &'a [Field], name: &str) -> Option<&'a FieldValue> {
    fields.iter().find(|f| f.name == name).map(|f| &f.value)
}

fn text(value: &str) -> FieldValue {
    FieldValue::Text(value.to_string())
}

fn stop_info(reason: &str, thread_id: i64) -> StopInfo {
    StopInfo {
        reason: reason.to_string(),
        thread_id,
        description: String::new(),
        hit_breakpoint_ids: Vec::new(),
    }
}

#[test]
fn open_crash_dump_not_available_when_windbg_unregistered() {
    let mut h = Harness::new();
    let out = h.open_crash_dump(Some("/tmp/core.dmp"));
    assert_eq!(
        expect_error(&out),
        "open_crash_dump is not available: the windbg backend is not registered on this platform"
    );
    assert_eq!(h.state, SessionState::Idle);
    assert_eq!(not_available("open_crash_dump"), expect_error(&out));
}

#[test]
fn open_crash_dump_missing_dump_path_errors() {
    let mut h = Harness::new();
    let out = h.open_crash_dump(None);
    assert_eq!(
        expect_error(&out),
        "missing required parameter: required argument \"dump_path\" not found"
    );
    assert_eq!(h.state, SessionState::Idle);
}

#[test]
fn open_crash_dump_wrong_state_errors_with_idle_guard() {
    let mut h = Harness::new();
    h.state = SessionState::Stopped;
    let out = h.open_crash_dump(Some("/tmp/core.dmp"));
    assert_eq!(expect_error(&out), "invalid state: stopped, expected one of: idle");
    assert_eq!(h.state, SessionState::Stopped);
}

#[test]
fn attach_kernel_rejects_non_net_connection() {
    let mut h = Harness::new();
    let out = h.attach_kernel(Some("tcp:port=50000"));
    assert_eq!(
        expect_error(&out),
        "'connection' must be a KDNET connection string starting with 'net:'"
    );
    assert_eq!(h.state, SessionState::Idle);
}

#[test]
fn attach_kernel_not_available_when_windbg_unregistered() {
    let mut h = Harness::new();
    let out = h.attach_kernel(Some("net:port=50000,key=1.2.3.4"));
    assert_eq!(
        expect_error(&out),
        "attach_kernel is not available: the windbg backend is not registered on this platform"
    );
    assert_eq!(h.state, SessionState::Idle);
}

#[test]
fn attach_kernel_missing_connection_errors() {
    let mut h = Harness::new();
    let out = h.attach_kernel(None);
    assert_eq!(
        expect_error(&out),
        "missing required parameter: required argument \"connection\" not found"
    );
    assert_eq!(h.state, SessionState::Idle);
}

#[test]
fn analyze_crash_unsupported_on_connected_backend() {
    let mut h = Harness::connected(SessionState::Stopped);
    let out = h.analyze_crash(Err(BackendError::Unsupported("analyze_crash")));
    assert_eq!(expect_error(&out), "analyze_crash is not supported by the fake backend");
}

#[test]
fn analyze_crash_requires_stopped_state() {
    let mut h = Harness::connected(SessionState::Running);
    let out = h.analyze_crash(Err(BackendError::Closed));
    assert_eq!(expect_error(&out), "process is running. Use 'pause' first.");
    assert!(h.calls.is_empty());
}

#[test]
fn get_modules_unsupported_on_connected_backend() {
    let mut h = Harness::connected(SessionState::Stopped);
    let out = h.get_modules(Err(BackendError::Unsupported("get_modules")));
    assert_eq!(expect_error(&out), "get_modules is not supported by the fake backend");
}

#[test]
fn get_modules_requires_stopped_state() {
    let mut h = Harness::connected(SessionState::Running);
    let out = h.get_modules(Err(BackendError::Closed));
    assert_eq!(expect_error(&out), "process is running. Use 'pause' first.");
}

#[test]
fn open_crash_dump_success_response_shape() {
    let mut h = Harness::windbg(Script::Dump(Ok(DumpOutcome {
        stop: Some(stop_info("exception", 7)),
        crash_location: Some("crash.c:42".to_string()),
    })));
    let out = h.open_crash_dump(Some("C:\\dumps\\app.dmp"));
    let v = expect_json(&out);
    assert_eq!(field(v, "status"), Some(&text("dump_loaded")));
    assert_eq!(field(v, "program"), Some(&text("C:\\dumps\\app.dmp")));
    assert_eq!(field(v, "stop_reason"), Some(&text("exception")));
    assert_eq!(field(v, "stopped_thread_id"), Some(&FieldValue::Number(7)));
    assert_eq!(field(v, "crash_location"), Some(&text("crash.c:42")));
    assert_eq!(h.state, SessionState::Stopped);
    assert!(h.is_dump);
    assert_eq!(h.calls, vec![EngineCmd::OpenDump { path: "C:\\dumps\\app.dmp".to_string() }]);
    assert_eq!(h.seen, vec![SessionState::Configuring, SessionState::Stopped]);
    assert_eq!(h.backend, Some("windbg"));
    assert!(h.pump);
    assert_eq!(h.last_stop, Some(stop_info("exception", 7)));
}

#[test]
fn open_crash_dump_success_omits_optional_fields_when_absent() {
    let mut h = Harness::windbg(Script::Dump(Ok(DumpOutcome { stop: None, crash_location: None })));
    let out = h.open_crash_dump(Some("/tmp/core.dmp"));
    let v = expect_json(&out);
    assert_eq!(field(v, "status"), Some(&text("dump_loaded")));
    assert_eq!(field(v, "program"), Some(&text("/tmp/core.dmp")));
    assert!(field(v, "stop_reason").is_none());
    assert!(field(v, "stopped_thread_id").is_none());
    assert!(field(v, "crash_location").is_none());
    assert_eq!(h.state, SessionState::Stopped);
    assert!(h.is_dump);
    assert_eq!(h.calls, vec![EngineCmd::OpenDump { path: "/tmp/core.dmp".to_string() }]);
}

#[test]
fn attach_kernel_success_response_shape() {
    let stop = stop_info("kernel-break", 0);
    let mut h = Harness::windbg(Script::Kernel(Ok(AttachOutcome::Stopped(stop))));
    let out = h.attach_kernel(Some("net:port=50000,key=1.2.3.4"));
    let v = expect_json(&out);
    assert_eq!(field(v, "status"), Some(&text("kernel_attached")));
    assert_eq!(field(v, "connection"), Some(&text("net:port=50000,key=1.2.3.4")));
    assert_eq!(field(v, "state"), Some(&text("stopped")));
    assert_eq!(field(v, "stop_reason"), Some(&text("kernel-break")));
    assert_eq!(field(v, "stopped_thread_id"), Some(&FieldValue::Number(0)));
    assert_eq!(h.state, SessionState::Stopped);
    assert_eq!(
        h.calls,
        vec![EngineCmd::AttachKernel { connection: "net:port=50000,key=1.2.3.4".to_string() }]
    );
}

#[test]
fn attach_kernel_terminated_outcome_ends_session() {
    let mut h = Harness::windbg(Script::Kernel(Ok(AttachOutcome::Terminated)));
    let out = h.attach_kernel(Some("net:port=50000,key=1.2.3.4"));
    match &out {
        ToolOutcome::Text(t) => assert!(t.contains("Kernel session ended")),
        other => panic!("expected Text outcome, got {other:?}"),
    }
    assert_eq!(h.state, SessionState::Terminated);
    assert_eq!(
        h.calls,
        vec![EngineCmd::AttachKernel { connection: "net:port=50000,key=1.2.3.4".to_string() }]
    );
}

#[test]
fn open_crash_dump_connect_failure_resets_and_reports_windbg_wording() {
    let failure = BackendError::Detect("no dbgeng".to_string());
    let mut h = Harness::windbg(Script::ConnectFails(failure));
    let out = h.open_crash_dump(Some("/tmp/core.dmp"));
    assert_eq!(expect_error(&out), "Debugging Tools for Windows not found: no dbgeng");
    assert_eq!(h.state, SessionState::Idle);
}

#[test]
fn attach_kernel_connect_failure_resets_and_reports_windbg_wording() {
    let failure = BackendError::Spawn("init failed".to_string());
    let mut h = Harness::windbg(Script::ConnectFails(failure));
    let out = h.attach_kernel(Some("net:port=50000,key=1.2.3.4"));
    assert_eq!(expect_error(&out), "failed to initialize DbgEng: init failed");
    assert_eq!(h.state, SessionState::Idle);
}

#[test]
fn analyze_crash_success_response_shape() {
    let mut h = Harness::connected(SessionState::Stopped);
    let report = "*** Bugcheck Analysis ***\nFAILURE_BUCKET_ID: FOO";
    let out = h.analyze_crash(Ok(report.to_string()));
    assert_eq!(field(expect_json(&out), "analysis"), Some(&text(report)));
    assert_eq!(h.calls, vec![EngineCmd::Analyze]);
}

#[test]
fn get_modules_success_response_shape() {
    let mut h = Harness::connected(SessionState::Stopped);
    let out = h.get_modules(Ok(vec![
        ModuleInfo {
            name: "test_target".to_string(),
            base: "0x0000000140000000".to_string(),
            size: "65536".to_string(),
            symbol_status: "pdb".to_string(),
        },
        ModuleInfo {
            name: "ntdll".to_string(),
            base: "0x00007FFAB0000000".to_string(),
            size: "2031616".to_string(),
            symbol_status: "export".to_string(),
        },
    ]));
    let modules = match field(expect_json(&out), "modules") {
        Some(FieldValue::Modules(modules)) => modules,
        other => panic!("expected a list of modules, got {other:?}"),
    };
    assert_eq!(modules.len(), 2);
    assert_eq!(modules[0].name, "test_target");
    assert_eq!(modules[0].base, "0x0000000140000000");
    assert_eq!(modules[0].size, "65536");
    assert_eq!(modules[0].symbol_status, "pdb");
    assert_eq!(modules[1].name, "ntdll");
    assert_eq!(h.calls, vec![EngineCmd::Modules]);
}

#[test]
fn a_failed_or_cancelled_call_cleans_up() {
    let mut h = Harness::windbg(Script::Dump(Err(BackendError::Dap { message: "bad".to_string() })));
    let out = h.open_crash_dump(Some("x.dmp"));
    assert_eq!(expect_error(&out), "open_crash_dump request failed: bad");
    assert_eq!((h.state, h.backend), (SessionState::Idle, None));
    let mut h = Harness::windbg(Script::Kernel(Err(BackendError::Unsupported("attach_kernel"))));
    let out = h.attach_kernel(Some("net:"));
    assert_eq!(expect_error(&out), "attach_kernel is not supported by the windbg backend");
    let mut h = Harness::windbg(Script::Cancel);
    let out = h.attach_kernel(Some("net:port=1"));
    assert_eq!(expect_error(&out), "attach_kernel timed out: context canceled");
    assert_eq!((h.state, h.backend), (SessionState::Idle, None));
}

#[test]
fn an_active_tool_needs_a_backend() {
    let mut h = Harness::new();
    h.state = SessionState::Stopped;
    let out = h.get_modules(Ok(Vec::new()));
    assert_eq!(expect_error(&out), "get_modules request failed: connection closed");
    let mut h = Harness::connected(SessionState::Stopped);
    let out = h.analyze_crash(Err(BackendError::Dap { message: "bad".to_string() }));
    assert_eq!(expect_error(&out), "analyze_crash request failed: bad");
    assert_eq!(
        unsupported_active("get_modules", None, "lldb"),
        "get_modules is not supported by the lldb backend"
    );
}

#[test]
fn required_arguments_are_named_when_missing() {
    assert_eq!(require_string("x", Some("v".to_string())), Ok("v".to_string()));
    assert_eq!(
        require_string("x", None),
        Err("missing required parameter: required argument \"x\" not found".to_string())
    );
}
