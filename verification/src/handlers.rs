//! The tools that only some backends support: what each does, and what it answers.
//!
//! `open_crash_dump` and `attach_kernel` connect to the WinDbg backend; `analyze_crash` and
//! `get_modules` work on the backend that is connected. A handler says what has to happen to the
//! session, what to wait for, and at last what to answer.
use crate::backend::{attach_kernel, open_dump};
use crate::engine_ops::EngineCmd;
use crate::error::{BackendError, WINDBG, connect_error, connect_error_text};
use crate::factory::BackendFactory;
use crate::registry::BackendRegistry;
use crate::text::{starts_with, text2, text3, text4};
use crate::types::{AttachOutcome, DumpOutcome, ModuleInfo, StopInfo};
use std::sync::Arc;
use vstd::prelude::*;
use vstd::string::*;

verus! {

broadcast use vstd::string::group_string_axioms;

// ---- answers ----

/// The value of a field of an answer.
#[derive(Debug, Clone, PartialEq, Eq)]
pub enum FieldValue {
    Text(String),
    Number(i64),
    Modules(Vec<ModuleInfo>),
}

/// A field of an answer.
#[derive(Debug, Clone, PartialEq, Eq)]
pub struct Field {
    pub name: &'static str,
    pub value: FieldValue,
}

/// What a tool answers: an object with fields, a text, or an error.
#[derive(Debug, Clone, PartialEq, Eq)]
pub enum ToolOutcome {
    Json(Vec<Field>),
    Text(String),
    Error(String),
}

/// A field of an answer, as a value.
pub enum FieldShape {
    Text(Seq<char>, Seq<char>),
    Number(Seq<char>, i64),
    Modules(Seq<char>, Seq<ModuleInfo>),
}

impl Field {
    /// The field, as a value.
    pub open spec fn shape(self) -> FieldShape {
        match self.value {
            FieldValue::Text(text) => FieldShape::Text(self.name@, text@),
            FieldValue::Number(n) => FieldShape::Number(self.name@, n),
            FieldValue::Modules(modules) => FieldShape::Modules(self.name@, modules@),
        }
    }
}

impl ToolOutcome {
    /// Whether the answer is an object with these fields.
    pub open spec fn is_json(self, fields: Seq<FieldShape>) -> bool {
        self matches ToolOutcome::Json(list) && list@.map_values(|f: Field| f.shape()) == fields
    }

    /// Whether the answer is this error.
    pub open spec fn is_error(self, message: Seq<char>) -> bool {
        self matches ToolOutcome::Error(text) && text@ == message
    }
}

fn text_field(name: &'static str, value: String) -> (r: Field)
    ensures
        r.shape() == FieldShape::Text(name@, value@),
{
    Field { name, value: FieldValue::Text(value) }
}

fn number_field(name: &'static str, value: i64) -> (r: Field)
    ensures
        r.shape() == FieldShape::Number(name@, value),
{
    Field { name, value: FieldValue::Number(value) }
}

/// What is answered when a tool needs a backend that this platform does not have.
pub open spec fn not_available_text(tool: Seq<char>) -> Seq<char> {
    tool + " is not available: the windbg backend is not registered on this platform"@
}

/// What is answered when a tool needs a backend that this platform does not have.
pub fn not_available(tool: &str) -> (r: String)
    ensures
        r@ == not_available_text(tool@),
{
    text2(tool, " is not available: the windbg backend is not registered on this platform")
}

/// What is answered when the backend does not support a tool.
pub open spec fn unsupported_text(tool: Seq<char>, backend: Seq<char>) -> Seq<char> {
    tool + " is not supported by the "@ + backend + " backend"@
}

/// What is answered when the backend does not support a tool.
pub fn unsupported(tool: &str, backend: &str) -> (r: String)
    ensures
        r@ == unsupported_text(tool@, backend@),
{
    text4(tool, " is not supported by the ", backend, " backend")
}

/// What is answered when a request failed.
pub open spec fn failed_text(tool: Seq<char>, reason: Seq<char>) -> Seq<char> {
    tool + " request failed: "@ + reason
}

/// What a call without an argument that it needs is answered.
pub open spec fn missing_text(name: Seq<char>) -> Seq<char> {
    "missing required parameter: required argument \""@ + name + "\" not found"@
}

/// An argument that has to be given.
pub fn require_string(name: &str, value: Option<String>) -> (r: Result<String, String>)
    ensures
        match value {
            Some(text) => r == Ok::<String, String>(text),
            None => r matches Err(e) && e@ == missing_text(name@),
        },
{
    match value {
        Some(text) => Ok(text),
        None => Err(
            text3("missing required parameter: required argument \"", name, "\" not found"),
        ),
    }
}

// ---- the session ----

/// The state of a debug session.
#[derive(Debug, Clone, Copy, PartialEq, Eq, Structural)]
pub enum SessionState {
    Idle,
    Configuring,
    Running,
    Stopped,
    Terminated,
}

/// What happens to the session.
#[derive(Debug, Clone, PartialEq, Eq)]
pub enum Effect {
    SetState(SessionState),
    /// Back to idle.
    Reset,
    ClearBackend,
    /// Keep the backend that was connected, under this name.
    StoreBackend(&'static str),
    /// Begin to take events from the connection.
    SpawnEventPump,
    /// Back to idle, with the backend disconnected.
    Cleanup,
    /// Whether the session is a crash dump, which cannot be resumed.
    SetDump(bool),
    SetLastStopped(StopInfo),
}

/// What a handler waits for, or answers.
pub enum HandlerAsk {
    Connect,
    Call(EngineCmd),
    Respond(ToolOutcome),
}

/// One step of a handler: what happens to the session, in order, and then what is waited for.
pub struct HandlerStep {
    pub effects: Vec<Effect>,
    pub ask: HandlerAsk,
}

impl HandlerStep {
    /// Whether the step does nothing to the session and answers with an error.
    pub open spec fn refuses(self, message: Seq<char>) -> bool {
        self.effects@.len() == 0 && self.fails(message)
    }

    /// Whether the step answers with an error.
    pub open spec fn fails(self, message: Seq<char>) -> bool {
        self.ask matches HandlerAsk::Respond(outcome) && outcome.is_error(message)
    }

    /// Whether the step answers with an object.
    pub open spec fn answers(self, fields: Seq<FieldShape>) -> bool {
        self.ask matches HandlerAsk::Respond(outcome) && outcome.is_json(fields)
    }
}

fn refuse(message: String) -> (r: HandlerStep)
    ensures
        r.refuses(message@),
{
    HandlerStep {
        effects: Vec::new(),
        ask: HandlerAsk::Respond(ToolOutcome::Error(message)),
    }
}

fn reset_and_fail(configuring: bool, message: String) -> (r: HandlerStep)
    ensures
        r.fails(message@),
        r.effects@ == (if configuring {
            seq![Effect::SetState(SessionState::Configuring), Effect::Reset, Effect::ClearBackend]
        } else {
            seq![Effect::Reset, Effect::ClearBackend]
        }),
{
    let mut effects: Vec<Effect> = Vec::new();
    if configuring {
        effects.push(Effect::SetState(SessionState::Configuring));
    }
    effects.push(Effect::Reset);
    effects.push(Effect::ClearBackend);
    HandlerStep { effects, ask: HandlerAsk::Respond(ToolOutcome::Error(message)) }
}

fn clean_up_and_fail(message: String) -> (r: HandlerStep)
    ensures
        r.fails(message@),
        r.effects@ == seq![Effect::Cleanup],
{
    let mut effects: Vec<Effect> = Vec::new();
    effects.push(Effect::Cleanup);
    HandlerStep { effects, ask: HandlerAsk::Respond(ToolOutcome::Error(message)) }
}

// ---- the tools that connect ----

/// A tool that connects to the WinDbg backend.
#[derive(Debug, Clone, Copy, PartialEq, Eq, Structural)]
pub enum ConnectTool {
    OpenCrashDump,
    AttachKernel,
}

impl ConnectTool {
    /// The name of the tool.
    pub open spec fn text(self) -> Seq<char> {
        match self {
            ConnectTool::OpenCrashDump => "open_crash_dump"@,
            ConnectTool::AttachKernel => "attach_kernel"@,
        }
    }

    /// The name of the argument that it needs.
    pub open spec fn argument(self) -> Seq<char> {
        match self {
            ConnectTool::OpenCrashDump => "dump_path"@,
            ConnectTool::AttachKernel => "connection"@,
        }
    }

    /// The name of the tool.
    pub fn name(self) -> (r: &'static str)
        ensures
            r@ == self.text(),
    {
        match self {
            ConnectTool::OpenCrashDump => "open_crash_dump",
            ConnectTool::AttachKernel => "attach_kernel",
        }
    }
}

/// What a connection string that is not one for KDNET is answered.
pub const NOT_KDNET: &'static str =
    "'connection' must be a KDNET connection string starting with 'net:'";

/// A tool on its way to a connection: what it was given, and the backend that it connects to.
pub struct ConnectFlow {
    pub tool: ConnectTool,
    pub argument: String,
    pub backend: &'static str,
}

/// Whether `step` begins to connect.
pub open spec fn begins_to_connect(step: HandlerStep) -> bool {
    step.effects@ == seq![Effect::SetState(SessionState::Configuring)] && step.ask is Connect
}

impl ConnectFlow {
    /// Begins a tool that connects. `idle` is the refusal of the session if it is not idle, and
    /// `argument` is the argument that the tool needs. Only the WinDbg backend will do, whatever
    /// the default is.
    pub fn begin<F: BackendFactory + ?Sized>(
        tool: ConnectTool,
        idle: Result<(), String>,
        argument: Option<String>,
        registry: &BackendRegistry<F>,
    ) -> (r: (HandlerStep, Option<(ConnectFlow, Arc<F>)>))
        requires
            registry.well_formed(),
        ensures
            match (idle, argument) {
                (Err(e), _) => r.0.refuses(e@) && r.1 is None,
                (Ok(_), None) => r.0.refuses(missing_text(tool.argument())) && r.1 is None,
                (Ok(_), Some(text)) => if tool is AttachKernel && !"net:"@.is_prefix_of(text@) {
                    r.0.refuses(NOT_KDNET@) && r.1 is None
                } else if registry@.contains_key(WINDBG@) {
                    &&& begins_to_connect(r.0)
                    &&& r.1 matches Some(pair) && pair.0.tool == tool && pair.0.argument == text
                        && pair.0.backend@ == WINDBG@ && pair.1 == registry@[WINDBG@]
                } else {
                    &&& r.0.fails(not_available_text(tool.text()))
                    &&& r.0.effects@ == seq![
                        Effect::SetState(SessionState::Configuring),
                        Effect::Reset,
                        Effect::ClearBackend,
                    ]
                    &&& r.1 is None
                },
            },
    {
        match idle {
            Err(e) => {
                return (refuse(e), None);
            },
            Ok(_) => {},
        }
        let name: &str = match tool {
            ConnectTool::OpenCrashDump => "dump_path",
            ConnectTool::AttachKernel => "connection",
        };
        let argument: String = match require_string(name, argument) {
            Ok(text) => text,
            Err(e) => {
                return (refuse(e), None);
            },
        };
        let kernel: bool = match tool {
            ConnectTool::OpenCrashDump => false,
            ConnectTool::AttachKernel => true,
        };
        if kernel && !starts_with(argument.as_str(), "net:") {
            return (refuse(NOT_KDNET.to_owned()), None);
        }
        proof {
            reveal_strlit("windbg");
        }
        match registry.select_with_env(Some(WINDBG), None) {
            Ok(factory) => {
                let backend: &'static str = factory.name();
                let mut effects: Vec<Effect> = Vec::new();
                effects.push(Effect::SetState(SessionState::Configuring));
                assert(effects@ =~= seq![Effect::SetState(SessionState::Configuring)]);
                (
                    HandlerStep { effects, ask: HandlerAsk::Connect },
                    Some((ConnectFlow { tool, argument, backend }, factory)),
                )
            },
            Err(_) => (reset_and_fail(true, not_available(tool.name())), None),
        }
    }

    /// Goes on from the connection: the backend is kept and its events are taken before it is
    /// asked for anything, so that an early end is not missed.
    pub fn connected(&self, connection: Result<(), BackendError>) -> (r: HandlerStep)
        ensures
            match connection {
                Err(e) => r.fails(connect_error_text(self.backend@, e)) && r.effects@ == seq![
                    Effect::Reset,
                    Effect::ClearBackend,
                ],
                Ok(_) => r.effects@ == seq![
                    Effect::StoreBackend(self.backend),
                    Effect::SpawnEventPump,
                ] && (r.ask matches HandlerAsk::Call(cmd) && match self.tool {
                    ConnectTool::OpenCrashDump => cmd matches EngineCmd::OpenDump { path } && path@
                        == self.argument@,
                    ConnectTool::AttachKernel => cmd matches EngineCmd::AttachKernel { connection }
                        && connection@ == self.argument@,
                }),
            },
    {
        match connection {
            Err(e) => reset_and_fail(false, connect_error(self.backend, e)),
            Ok(_) => {
                let mut effects: Vec<Effect> = Vec::new();
                effects.push(Effect::StoreBackend(self.backend));
                effects.push(Effect::SpawnEventPump);
                assert(effects@ =~= seq![
                    Effect::StoreBackend(self.backend),
                    Effect::SpawnEventPump,
                ]);
                let cmd: EngineCmd = match self.tool {
                    ConnectTool::OpenCrashDump => open_dump(self.argument.as_str()),
                    ConnectTool::AttachKernel => attach_kernel(self.argument.as_str()),
                };
                HandlerStep { effects, ask: HandlerAsk::Call(cmd) }
            },
        }
    }

    /// What is answered when the caller gave up waiting.
    pub fn cancelled(&self) -> (r: HandlerStep)
        ensures
            r.fails(self.tool.text() + " timed out: context canceled"@),
            r.effects@ == seq![Effect::Cleanup],
    {
        clean_up_and_fail(text2(self.tool.name(), " timed out: context canceled"))
    }

    /// What is answered when the request failed after the connection was made.
    pub fn failed(&self, e: BackendError) -> (r: HandlerStep)
        ensures
            r.effects@ == seq![Effect::Cleanup],
            match e {
                BackendError::Unsupported(tool) => r.fails(unsupported_text(tool@, self.backend@)),
                _ => r.fails(failed_text(self.tool.text(), e.shown())),
            },
    {
        match e {
            BackendError::Unsupported(tool) => clean_up_and_fail(unsupported(tool, self.backend)),
            e => clean_up_and_fail(
                text3(self.tool.name(), " request failed: ", e.to_string().as_str()),
            ),
        }
    }

    /// What is answered when a crash dump is open: the session is stopped, and cannot be resumed.
    pub fn dump_opened(&self, outcome: DumpOutcome) -> (r: HandlerStep)
        ensures
            r.effects@ == seq![
                Effect::SetState(SessionState::Stopped),
                Effect::SetDump(true),
            ] + last_stop(outcome.stop),
            r.answers(dump_fields(self.argument@, outcome)),
    {
        let mut effects: Vec<Effect> = Vec::new();
        effects.push(Effect::SetState(SessionState::Stopped));
        effects.push(Effect::SetDump(true));
        let mut fields: Vec<Field> = Vec::new();
        fields.push(text_field("status", "dump_loaded".to_owned()));
        fields.push(text_field("program", self.argument.clone()));
        match outcome.stop {
            Some(info) => {
                fields.push(text_field("stop_reason", info.reason.clone()));
                fields.push(number_field("stopped_thread_id", info.thread_id));
                effects.push(Effect::SetLastStopped(info));
            },
            None => {},
        }
        match outcome.crash_location {
            Some(location) => {
                fields.push(text_field("crash_location", location));
            },
            None => {},
        }
        assert(fields@.map_values(|f: Field| f.shape()) =~= dump_fields(self.argument@, outcome));
        assert(effects@ =~= seq![
            Effect::SetState(SessionState::Stopped),
            Effect::SetDump(true),
        ] + last_stop(outcome.stop));
        HandlerStep { effects, ask: HandlerAsk::Respond(ToolOutcome::Json(fields)) }
    }

    /// What is answered when the attach to a kernel is over: the kernel is stopped, or is gone.
    pub fn kernel_attached(&self, outcome: AttachOutcome) -> (r: HandlerStep)
        ensures
            match outcome {
                AttachOutcome::Stopped(info) => r.effects@ == seq![
                    Effect::SetState(SessionState::Stopped),
                    Effect::SetLastStopped(info),
                ] && r.answers(kernel_fields(self.argument@, info)),
                _ => r.effects@ == seq![Effect::SetState(SessionState::Terminated)] && (
                r.ask matches HandlerAsk::Respond(ToolOutcome::Text(text)) && text@
                    == "Kernel session ended during attach"@),
            },
    {
        let mut effects: Vec<Effect> = Vec::new();
        match outcome {
            AttachOutcome::Stopped(info) => {
                let mut fields: Vec<Field> = Vec::new();
                fields.push(text_field("status", "kernel_attached".to_owned()));
                fields.push(text_field("connection", self.argument.clone()));
                fields.push(text_field("state", "stopped".to_owned()));
                fields.push(text_field("stop_reason", info.reason.clone()));
                fields.push(number_field("stopped_thread_id", info.thread_id));
                assert(fields@.map_values(|f: Field| f.shape()) =~= kernel_fields(
                    self.argument@,
                    info,
                ));
                effects.push(Effect::SetState(SessionState::Stopped));
                effects.push(Effect::SetLastStopped(info));
                HandlerStep { effects, ask: HandlerAsk::Respond(ToolOutcome::Json(fields)) }
            },
            _ => {
                effects.push(Effect::SetState(SessionState::Terminated));
                HandlerStep {
                    effects,
                    ask: HandlerAsk::Respond(
                        ToolOutcome::Text("Kernel session ended during attach".to_owned()),
                    ),
                }
            },
        }
    }
}

/// What the session is told of a stop.
pub open spec fn last_stop(stop: Option<StopInfo>) -> Seq<Effect> {
    match stop {
        Some(info) => seq![Effect::SetLastStopped(info)],
        None => seq![],
    }
}

/// The answer to an open crash dump. Where the dump shows no stop, or no source line of the
/// crash, that is left out.
pub open spec fn dump_fields(path: Seq<char>, outcome: DumpOutcome) -> Seq<FieldShape> {
    seq![
        FieldShape::Text("status"@, "dump_loaded"@),
        FieldShape::Text("program"@, path),
    ] + match outcome.stop {
        Some(info) => seq![
            FieldShape::Text("stop_reason"@, info.reason@),
            FieldShape::Number("stopped_thread_id"@, info.thread_id),
        ],
        None => seq![],
    } + match outcome.crash_location {
        Some(location) => seq![FieldShape::Text("crash_location"@, location@)],
        None => seq![],
    }
}

/// The answer to an attach to a kernel.
pub open spec fn kernel_fields(connection: Seq<char>, info: StopInfo) -> Seq<FieldShape> {
    seq![
        FieldShape::Text("status"@, "kernel_attached"@),
        FieldShape::Text("connection"@, connection),
        FieldShape::Text("state"@, "stopped"@),
        FieldShape::Text("stop_reason"@, info.reason@),
        FieldShape::Number("stopped_thread_id"@, info.thread_id),
    ]
}

// ---- the tools on a connected backend ----

/// A tool on the backend that is connected.
#[derive(Debug, Clone, Copy, PartialEq, Eq, Structural)]
pub enum ActiveTool {
    AnalyzeCrash,
    GetModules,
}

impl ActiveTool {
    /// The name of the tool.
    pub open spec fn text(self) -> Seq<char> {
        match self {
            ActiveTool::AnalyzeCrash => "analyze_crash"@,
            ActiveTool::GetModules => "get_modules"@,
        }
    }

    /// The name of the tool.
    pub fn name(self) -> (r: &'static str)
        ensures
            r@ == self.text(),
    {
        match self {
            ActiveTool::AnalyzeCrash => "analyze_crash",
            ActiveTool::GetModules => "get_modules",
        }
    }

    /// Begins the tool. `stopped` is the refusal of the session if it is not stopped.
    pub fn begin(self, stopped: Result<(), String>, connected: bool) -> (r: HandlerStep)
        ensures
            r.effects@.len() == 0,
            match stopped {
                Err(e) => r.fails(e@),
                Ok(_) => if connected {
                    r.ask == HandlerAsk::Call(
                        match self {
                            ActiveTool::AnalyzeCrash => EngineCmd::Analyze,
                            ActiveTool::GetModules => EngineCmd::Modules,
                        },
                    )
                } else {
                    r.fails(failed_text(self.text(), "connection closed"@))
                },
            },
    {
        match stopped {
            Err(e) => refuse(e),
            Ok(_) => if connected {
                let cmd: EngineCmd = match self {
                    ActiveTool::AnalyzeCrash => EngineCmd::Analyze,
                    ActiveTool::GetModules => EngineCmd::Modules,
                };
                HandlerStep { effects: Vec::new(), ask: HandlerAsk::Call(cmd) }
            } else {
                refuse(text3(self.name(), " request failed: ", "connection closed"))
            },
        }
    }

    /// What is answered when the request failed. `active` is the name of the backend that is
    /// connected, where it is known.
    pub fn failed(self, e: BackendError, active: Option<&str>, default_name: &str) -> (r: ToolOutcome)
        ensures
            match e {
                BackendError::Unsupported(tool) => r.is_error(
                    unsupported_text(
                        tool@,
                        match active {
                            Some(name) => name@,
                            None => default_name@,
                        },
                    ),
                ),
                _ => r.is_error(failed_text(self.text(), e.shown())),
            },
    {
        match e {
            BackendError::Unsupported(tool) => ToolOutcome::Error(
                unsupported_active(tool, active, default_name),
            ),
            e => ToolOutcome::Error(
                text3(self.name(), " request failed: ", e.to_string().as_str()),
            ),
        }
    }
}

/// What is answered when the backend that is connected does not support a tool.
pub fn unsupported_active(tool: &str, active: Option<&str>, default_name: &str) -> (r: String)
    ensures
        r@ == unsupported_text(
            tool@,
            match active {
                Some(name) => name@,
                None => default_name@,
            },
        ),
{
    match active {
        Some(name) => unsupported(tool, name),
        None => unsupported(tool, default_name),
    }
}

/// What is answered with a crash analysis.
pub fn crash_analyzed(report: String) -> (r: ToolOutcome)
    ensures
        r.is_json(seq![FieldShape::Text("analysis"@, report@)]),
{
    let mut fields: Vec<Field> = Vec::new();
    fields.push(text_field("analysis", report));
    assert(fields@.map_values(|f: Field| f.shape()) =~= seq![
        FieldShape::Text("analysis"@, report@),
    ]);
    ToolOutcome::Json(fields)
}

/// What is answered with the loaded modules.
pub fn modules_listed(modules: Vec<ModuleInfo>) -> (r: ToolOutcome)
    ensures
        r.is_json(seq![FieldShape::Modules("modules"@, modules@)]),
{
    let mut fields: Vec<Field> = Vec::new();
    fields.push(Field { name: "modules", value: FieldValue::Modules(modules) });
    assert(fields@.map_values(|f: Field| f.shape()) =~= seq![
        FieldShape::Modules("modules"@, modules@),
    ]);
    ToolOutcome::Json(fields)
}

/// What a tool answers when it has connected names what was asked for and shows the stop that came
/// of it: its reason and its thread.
pub proof fn answers_show_what_was_asked_for(text: Seq<char>, outcome: DumpOutcome, info: StopInfo)
    ensures
        dump_fields(text, outcome).contains(FieldShape::Text("program"@, text)),
        kernel_fields(text, info).contains(FieldShape::Text("connection"@, text)),
        kernel_fields(text, info).contains(FieldShape::Text("stop_reason"@, info.reason@)),
        kernel_fields(text, info).contains(
            FieldShape::Number("stopped_thread_id"@, info.thread_id),
        ),
        outcome.stop matches Some(stop) ==> dump_fields(text, outcome).contains(
            FieldShape::Text("stop_reason"@, stop.reason@),
        ) && dump_fields(text, outcome).contains(
            FieldShape::Number("stopped_thread_id"@, stop.thread_id),
        ) && last_stop(outcome.stop) == seq![Effect::SetLastStopped(stop)],
        outcome.crash_location matches Some(location) ==> dump_fields(text, outcome).contains(
            FieldShape::Text("crash_location"@, location@),
        ),
        outcome.stop is None ==> last_stop(outcome.stop).len() == 0,
{
    let dump = dump_fields(text, outcome);
    let kernel = kernel_fields(text, info);
    assert(dump[1] == FieldShape::Text("program"@, text));
    assert(kernel[1] == FieldShape::Text("connection"@, text));
    assert(kernel[3] == FieldShape::Text("stop_reason"@, info.reason@));
    assert(kernel[4] == FieldShape::Number("stopped_thread_id"@, info.thread_id));
    if let Some(stop) = outcome.stop {
        assert(dump[2] == FieldShape::Text("stop_reason"@, stop.reason@));
        assert(dump[3] == FieldShape::Number("stopped_thread_id"@, stop.thread_id));
    }
    if let Some(location) = outcome.crash_location {
        assert(dump[dump.len() - 1] == FieldShape::Text("crash_location"@, location@));
    }
}

/// An answer is what it is said to be: an error has the very message, and an object the very
/// fields, by name and value and in their order.
pub proof fn answers_are_what_they_are_said_to_be(
    step: HandlerStep,
    outcome: ToolOutcome,
    message: Seq<char>,
    fields: Seq<FieldShape>,
)
    ensures
        step.fails(message) ==> (step.ask matches HandlerAsk::Respond(ToolOutcome::Error(text))
            && text@ == message),
        step.refuses(message) ==> step.effects@.len() == 0 && step.fails(message),
        outcome.is_error(message) ==> (outcome matches ToolOutcome::Error(text) && text@
            == message),
        outcome.is_json(fields) ==> (outcome matches ToolOutcome::Json(list) && list@.len()
            == fields.len() && forall|i: int|
            0 <= i < fields.len() ==> match fields[i] {
                FieldShape::Text(name, value) => (#[trigger] list@[i]).name@ == name && (
                list@[i].value matches FieldValue::Text(text) && text@ == value),
                FieldShape::Number(name, value) => list@[i].name@ == name && list@[i].value
                    == FieldValue::Number(value),
                FieldShape::Modules(name, value) => list@[i].name@ == name && (
                list@[i].value matches FieldValue::Modules(modules) && modules@ == value),
            }),
{
    if outcome.is_json(fields) {
        let list = outcome->Json_0@;
        assert forall|i: int| 0 <= i < fields.len() implies fields[i] == (
        #[trigger] list[i]).shape() by {
            assert(list.map_values(|f: Field| f.shape())[i] == list[i].shape());
        }
    }
}

} // verus!
