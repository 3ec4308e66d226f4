//! Whole sessions of the engine, against a small simulated debuggee.
use debug_mcp::backend::call::{modules_result, BackendNext};
use debug_mcp::backend::launch::LaunchFlow;
use debug_mcp::backend::{attach_target, attached, AttachTarget, ContFlow, WinDbgBackend};
use debug_mcp::callbacks::{CallbackState, OutputKind, OutputSink};
use debug_mcp::engine::host::{
    Answer, Next, RawBreakpoint, RawBytes, RawFrame, RawInstruction, RawLine, RawModule, RawSymbol,
    RawVariable, Request,
};
use debug_mcp::engine::inspect::{current_source_location, execution_status};
use debug_mcp::engine::memory::memory_read;
use debug_mcp::engine::session::OpenFlow;
use debug_mcp::engine::{BpLoc, Engine, InterruptHandle, LaunchReq};
use debug_mcp::engine_ops::{dispatch, EngineCmd, EngineOps, EngineReply};
use debug_mcp::error::{ComError, EngineError};
use debug_mcp::event::BackendEvent;
use debug_mcp::stream::{connection_end, EndPoll, EventStream, OutputPoll, StreamStep};
use debug_mcp::types::{
    AttachOutcome, AttachSpec, BreakpointResult, DumpOutcome, EvalResult, Frame, FunctionBp, Instruction,
    LaunchOutcome, LaunchSpec, MemoryRead, ModuleInfo, StepKind, StopInfo, StopOutcome, ThreadInfo, Variable,
};
use std::sync::atomic::{AtomicBool, Ordering};
use std::sync::Arc;

const LOADER: u64 = 0x7FF9_0000_1000;
const MAIN: u64 = 0x1_4000_1200;
const COMPUTE: u64 = 0x1_4000_1000;
const SUM: u64 = 0x1_4000_1010;
const SUM_LINE: u32 = 14;
const GO: u32 = 1;
const STEP_OVER: u32 = 4;
const STEP_INTO: u32 = 5;
const BREAK: u32 = 6;
const NO_DEBUGGEE: u32 = 7;

fn ok() -> Answer {
    Answer::Done(Ok(()))
}

fn failure(code: u32) -> ComError {
    ComError { code: code as i32, message: "simulated".to_string() }
}

fn name(text: &str) -> Vec<u8> {
    let mut out = text.as_bytes().to_vec();
    out.push(0);
    out.extend_from_slice(b"left over");
    out
}

/// A place that the program comes through, and the value of `i` there.
#[derive(Clone, Copy)]
struct Point {
    address: u64,
    i: i64,
}

struct SetBp {
    id: u32,
    offset: u64,
    enabled: bool,
}

/// The simulated debuggee, its engine, and the host between them.
struct Sim {
    engine: Engine,
    state: CallbackState,
    flag: Arc<AtomicBool>,
    clock: u64,
    deadline: u64,
    /// When the flag is raised, in milliseconds of simulated time.
    raise_at: Option<u64>,
    points: Vec<Point>,
    at: usize,
    runs_forever: bool,
    status: u32,
    options: u32,
    interrupt: bool,
    last_hit: Option<u32>,
    bps: Vec<SetBp>,
    made: Option<u32>,
    next_id: u32,
    current_thread: u32,
    scope: Option<u64>,
    ended: Vec<u32>,
    dump_exists: bool,
    created: Vec<(String, u32, Option<String>)>,
    reloads: Vec<String>,
    requests: Vec<Request>,
    no_base: bool,
}

impl Sim {
    fn create() -> Sim {
        let mut sim = Sim {
            engine: Engine::new(),
            state: CallbackState::new(),
            flag: Arc::new(AtomicBool::new(false)),
            clock: 0,
            deadline: 0,
            raise_at: None,
            points: Vec::new(),
            at: 0,
            runs_forever: false,
            status: NO_DEBUGGEE,
            options: 0,
            interrupt: false,
            last_hit: None,
            bps: Vec::new(),
            made: None,
            next_id: 0,
            current_thread: 0,
            scope: None,
            ended: Vec::new(),
            dump_exists: false,
            created: Vec::new(),
            reloads: Vec::new(),
            requests: Vec::new(),
            no_base: false,
        };
        let (mut flow, mut request) = Engine::create();
        loop {
            let answer = sim.perform(request);
            match flow.resume(answer) {
                Next::Ask(r) => request = r,
                Next::End(r) => {
                    r.expect("create engine");
                    return sim;
                }
            }
        }
    }

    fn start(&mut self, mode: &str) {
        self.points = vec![Point { address: LOADER, i: -1 }, Point { address: MAIN, i: -1 }];
        self.runs_forever = mode == "wait";
        if !self.runs_forever {
            self.points.push(Point { address: COMPUTE, i: -1 });
            for i in 0..10 {
                self.points.push(Point { address: SUM, i });
            }
        }
        self.at = 0;
        self.status = GO;
        self.bps.clear();
        self.last_hit = None;
    }

    fn event(&mut self, budget: u32) -> i32 {
        if self.status == BREAK || self.status == NO_DEBUGGEE {
            return 0;
        }
        if self.at == 0 && self.options & 0x20 != 0 {
            let _ = self.state.on_exception(0x8000_0003, LOADER, true);
            self.status = BREAK;
            return 0;
        }
        if self.interrupt {
            self.interrupt = false;
            self.status = BREAK;
            return 0;
        }
        let one = self.status == STEP_OVER || self.status == STEP_INTO;
        loop {
            self.at += 1;
            if self.at >= self.points.len() {
                if self.runs_forever {
                    self.at = self.points.len();
                    self.clock += budget as u64;
                    if let Some(at) = self.raise_at {
                        if self.clock >= at {
                            self.raise_at = None;
                            InterruptHandle::from_flag(Arc::clone(&self.flag)).interrupt();
                        }
                    }
                    return 1;
                }
                self.last_hit = None;
                let _ = self.state.on_exit_process(0);
                self.status = NO_DEBUGGEE;
                return 0;
            }
            let here = self.points[self.at].address;
            let hit = self.bps.iter().find(|b| b.enabled && b.offset == here).map(|b| b.id);
            if let Some(id) = hit {
                self.last_hit = Some(id);
                let _ = self.state.on_breakpoint(id, here);
                self.status = BREAK;
                return 0;
            }
            if one {
                self.last_hit = None;
                self.status = BREAK;
                return 0;
            }
        }
    }

    fn print(&mut self, text: &str) {
        self.state.on_output(1, text);
    }

    fn symbol(&self, address: u64) -> Option<RawSymbol> {
        let (start, text) = match address {
            a if a >= MAIN && a < MAIN + 0x100 => (MAIN, "test_target!main"),
            a if a >= COMPUTE && a < COMPUTE + 0x100 => (COMPUTE, "test_target!compute"),
            _ => return None,
        };
        Some(RawSymbol { name: name(text), displacement: address - start })
    }

    fn line(&self, address: u64) -> Option<RawLine> {
        match address {
            COMPUTE => Some(RawLine { file: name("C:\\src\\test_target.c"), line: 11 }),
            SUM => Some(RawLine { file: name("C:\\src\\test_target.c"), line: SUM_LINE }),
            MAIN => Some(RawLine { file: name("C:\\src\\test_target.c"), line: 30 }),
            _ => None,
        }
    }

    fn stack(&self) -> Vec<u64> {
        let here = self.points.get(self.at).map(|p| p.address).unwrap_or(LOADER);
        if here == COMPUTE || here == SUM {
            vec![here, MAIN, LOADER]
        } else {
            vec![here, LOADER]
        }
    }

    fn perform(&mut self, request: Request) -> Answer {
        self.requests.push(request.clone());
        match request {
            Request::QueryBaseControl => {
                if self.no_base {
                    Answer::Done(Err(failure(0x8000_4002)))
                } else {
                    ok()
                }
            }
            Request::WaitForEvent(ms) => {
                let code = self.event(ms);
                Answer::Hresult(ComError { code, message: String::new() })
            }
            Request::Wait(ms) => {
                let (mut flow, mut request) = self.engine.wait_for_event(ms);
                loop {
                    let answer = self.perform(request);
                    match flow.resume(&self.engine, &self.state, answer) {
                        Next::Ask(r) => request = r,
                        Next::End(r) => return Answer::Waited(r),
                    }
                }
            }
            Request::GetExecutionStatus => Answer::Number(Ok(self.status)),
            Request::SetExecutionStatus(status) => {
                self.status = status;
                ok()
            }
            Request::SetInterrupt => {
                self.interrupt = true;
                ok()
            }
            Request::LastBreakpoint => Answer::Breakpoint(self.last_hit),
            Request::Evaluate(text) => {
                let wanted = text.strip_prefix("@@c++( (i == ").and_then(|t| t.strip_suffix(") ? 1 : 0 )"));
                match wanted.and_then(|n| n.parse::<i64>().ok()) {
                    Some(n) => Answer::Value(Ok((self.points[self.at].i == n) as i64)),
                    None => Answer::Value(Err(failure(0x8000_4005))),
                }
            }
            Request::ClearInterrupt => {
                self.flag.store(false, Ordering::Release);
                ok()
            }
            Request::SetDeadline(ms) => {
                self.deadline = self.clock + ms as u64;
                ok()
            }
            Request::Poll => Answer::Polled {
                expired: self.clock >= self.deadline,
                interrupted: self.flag.load(Ordering::Acquire),
            },
            Request::GetCurrentThread => Answer::Number(Ok(self.current_thread)),
            Request::SetCurrentThread(id) => {
                self.current_thread = id;
                ok()
            }
            Request::AddEngineOptions(bits) => {
                self.options |= bits;
                ok()
            }
            Request::RemoveEngineOptions(bits) => {
                self.options &= !bits;
                ok()
            }
            Request::CreateProcess { command_line, create_flags, cwd } => {
                let mode = command_line.rsplit(' ').next().unwrap_or("").to_string();
                self.created.push((command_line, create_flags, cwd));
                self.print("ModLoad: 00000001`40000000 00000001`40010000   test_target.exe\n");
                self.start(&mode);
                ok()
            }
            Request::EnableDebugPrivilege => ok(),
            Request::AttachProcess(_) => {
                self.start("wait");
                ok()
            }
            Request::AttachKernel(_) => {
                self.start("wait");
                ok()
            }
            Request::OpenDumpFile(_) => {
                if self.dump_exists {
                    self.start("normal");
                    self.at = 2;
                    self.status = BREAK;
                    ok()
                } else {
                    Answer::Done(Err(failure(0x8007_0002)))
                }
            }
            Request::EndSession(flags) => {
                self.ended.push(flags);
                self.status = NO_DEBUGGEE;
                ok()
            }
            Request::MainModuleName | Request::ModuleName(_) => Answer::Name(Some(name("test_target"))),
            Request::Reload(argument) => {
                self.reloads.push(argument);
                ok()
            }
            Request::SourceLocation => {
                let here = self.points.get(self.at).map(|p| p.address);
                match here {
                    Some(address) => Answer::Location(Ok(self.line(address))),
                    None => Answer::Location(Err(failure(0x8000_4005))),
                }
            }
            Request::Execute(command) => self.run(&command),
            Request::GetOffsetByLine { line, .. } => {
                if line == SUM_LINE {
                    Answer::Offset(Ok(SUM))
                } else {
                    Answer::Offset(Err(failure(0x8007_0490)))
                }
            }
            Request::GetOffsetByName(text) => match text.as_str() {
                "test_target!compute" => Answer::Offset(Ok(COMPUTE)),
                "test_target!main" => Answer::Offset(Ok(MAIN)),
                _ => Answer::Offset(Err(failure(0x8007_0490))),
            },
            Request::GetNumberModules => Answer::Number(Ok(2)),
            Request::AddBreakpoint => {
                self.made = Some(self.next_id);
                self.bps.push(SetBp { id: self.next_id, offset: 0, enabled: false });
                self.next_id += 1;
                ok()
            }
            Request::SetBreakpointOffset(offset) => {
                self.bps.last_mut().expect("a breakpoint").offset = offset;
                ok()
            }
            Request::EnableBreakpoint => {
                self.bps.last_mut().expect("a breakpoint").enabled = true;
                ok()
            }
            Request::GetBreakpointId => Answer::Number(Ok(self.made.expect("a breakpoint"))),
            Request::GetBreakpointById(id) => {
                if self.bps.iter().any(|b| b.id == id) {
                    self.made = Some(id);
                    ok()
                } else {
                    Answer::Done(Err(failure(0x8000_4002)))
                }
            }
            Request::RemoveBreakpoint => {
                let id = self.made.expect("a breakpoint");
                self.bps.retain(|b| b.id != id);
                ok()
            }
            Request::GetNumberBreakpoints => Answer::Number(Ok(self.bps.len() as u32)),
            Request::DescribeBreakpoints(n) => Answer::Breakpoints(
                (0..n as usize)
                    .map(|i| {
                        self.bps
                            .get(i)
                            .map(|b| RawBreakpoint { id: Some(b.id), offset: Some(b.offset) })
                    })
                    .collect(),
            ),
            Request::NameOffsets(offsets) => {
                Answer::Symbols(offsets.iter().map(|o| self.symbol(*o)).collect())
            }
            Request::DescribeModules(n) => {
                let mut raw = vec![
                    Some(RawModule {
                        base: 0x1_4000_0000,
                        name: Some(name("test_target")),
                        params: Some((65536, 3)),
                    }),
                    Some(RawModule { base: 0x7FF9_0000_0000, name: Some(name("ntdll")), params: None }),
                ];
                raw.resize(n as usize, None);
                Answer::Modules(raw)
            }
            Request::GetNumberThreads => {
                Answer::Number(Ok(if self.status == NO_DEBUGGEE { 0 } else { 1 }))
            }
            Request::GetThreadIds(n) => {
                Answer::ThreadIds(Ok((vec![0; n as usize], vec![4321; n as usize])))
            }
            Request::GetStackTrace(max) => {
                let mut ips = self.stack();
                ips.truncate(max as usize);
                Answer::Stack(Ok(ips))
            }
            Request::DescribeFrames(ips) => Answer::Frames(
                ips.iter()
                    .map(|ip| RawFrame { symbol: self.symbol(*ip), line: self.line(*ip) })
                    .collect(),
            ),
            Request::SetScope(frame) => {
                self.scope = Some(frame);
                ok()
            }
            Request::GetScopeSymbolGroup => ok(),
            Request::GetNumberSymbols => Answer::Number(Ok(2)),
            Request::DescribeSymbols(n) => {
                let texts = match self.scope {
                    None => ["sum", "i"],
                    Some(_) => ["argc", "argv"],
                };
                Answer::Locals(
                    (0..n as usize)
                        .map(|i| RawVariable {
                            name: Some(name(texts[i % 2])),
                            value: Some(name("0n5")),
                            ty: None,
                        })
                        .collect(),
                )
            }
            Request::ResetScope => {
                self.scope = None;
                ok()
            }
            Request::ReadVirtual { size, .. } => {
                let bytes = vec![0x90; size as usize];
                Answer::Memory(Ok(RawBytes { bytes, read: size.min(12) }))
            }
            Request::Disassemble(offset) => {
                let text = format!("{:08x}`{:08x} 894c2408        mov     dword ptr [rsp+8],ecx\n", offset >> 32, offset as u32);
                Answer::Instruction(Some(RawInstruction { text: name(&text), end: offset + 4 }))
            }
            Request::CreateClient
            | Request::QueryInterface(_)
            | Request::SetSymbolPath(_)
            | Request::SetSymbolOptions(_)
            | Request::SetOutputCallbacks
            | Request::SetEventCallbacks => ok(),
            Request::GetSymbolOptions => Answer::Number(Ok(0x30)),
        }
    }

    fn run(&mut self, command: &str) -> Answer {
        match command {
            "gu" => self.status = STEP_OVER,
            "r" => self.print("rax=0000000000000001 rbx=0000000000000000\n"),
            "?? i" => {
                let text = format!("int 0n{}\n", self.points[self.at].i);
                self.print(&text);
            }
            "?? 10 + 1" => self.print("int 0n11\n"),
            "!analyze -v" => self.print("FAULTING_IP: test_target!compute\n"),
            c if c.starts_with(".extpath") => {}
            _ => return Answer::Done(Err(failure(0x8000_4005))),
        }
        ok()
    }

    fn open(&mut self, mut flow: OpenFlow, first: Request) -> Result<StopOutcome, EngineError> {
        let mut request = first;
        loop {
            let answer = self.perform(request);
            match flow.resume(answer) {
                Next::Ask(r) => request = r,
                Next::End(r) => return r,
            }
        }
    }
}

impl EngineOps for Sim {
    fn launch(&mut self, req: &LaunchReq) -> Result<StopOutcome, EngineError> {
        let (flow, first) = self.engine.launch(req.clone());
        self.open(flow, first)
    }

    fn attach_pid(&mut self, pid: u32) -> Result<StopOutcome, EngineError> {
        let (flow, first) = self.engine.attach_pid(pid);
        self.open(flow, first)
    }

    fn detach(&mut self, terminate: bool) -> Result<(), EngineError> {
        let request = self.engine.detach(terminate);
        match self.perform(request) {
            Answer::Done(answer) => self.engine.detached(answer),
            _ => unreachable!(),
        }
    }

    fn go(&mut self, timeout_ms: u32) -> Result<Option<StopOutcome>, EngineError> {
        let (mut flow, mut next) = self.engine.go(timeout_ms);
        loop {
            match next {
                Next::Ask(request) => {
                    let answer = self.perform(request);
                    next = flow.resume(&self.state, answer);
                }
                Next::End(r) => return r,
            }
        }
    }

    fn step(&mut self, kind: StepKind) -> Result<StopOutcome, EngineError> {
        let (mut flow, mut next) = self.engine.step(kind);
        loop {
            match next {
                Next::Ask(request) => {
                    let answer = self.perform(request);
                    next = flow.resume(answer);
                }
                Next::End(r) => return r,
            }
        }
    }

    fn break_in(&mut self) -> Result<StopOutcome, EngineError> {
        let (mut flow, mut next) = self.engine.break_in();
        loop {
            match next {
                Next::Ask(request) => {
                    let answer = self.perform(request);
                    next = flow.resume(&self.state, answer);
                }
                Next::End(r) => return r,
            }
        }
    }

    fn set_breakpoint(&mut self, loc: &BpLoc, condition: &str) -> Result<BreakpointResult, EngineError> {
        let (mut flow, mut next) = self.engine.set_breakpoint(loc.clone(), condition);
        loop {
            match next {
                Next::Ask(request) => {
                    let answer = self.perform(request);
                    next = flow.resume(&mut self.engine, answer);
                }
                Next::End(r) => return r,
            }
        }
    }

    fn remove_breakpoint(&mut self, id: i64) -> Result<(), EngineError> {
        let (mut flow, mut request) = self.engine.remove_breakpoint(id);
        loop {
            let answer = self.perform(request);
            match flow.resume(&mut self.engine, answer) {
                Next::Ask(r) => request = r,
                Next::End(r) => return r,
            }
        }
    }

    fn list_breakpoints(&mut self) -> Result<Vec<BreakpointResult>, EngineError> {
        let (mut flow, mut request) = self.engine.list_breakpoints();
        loop {
            let answer = self.perform(request);
            match flow.resume(answer) {
                Next::Ask(r) => request = r,
                Next::End(r) => return r,
            }
        }
    }

    fn threads(&mut self) -> Result<Vec<ThreadInfo>, EngineError> {
        let (mut flow, mut request) = self.engine.threads();
        loop {
            let answer = self.perform(request);
            match flow.resume(answer) {
                Next::Ask(r) => request = r,
                Next::End(r) => return r,
            }
        }
    }

    fn stack_trace(&mut self, thread_id: i64, max: i64) -> Result<Vec<Frame>, EngineError> {
        let (mut flow, mut request) = self.engine.stack_trace(thread_id, max);
        loop {
            let answer = self.perform(request);
            match flow.resume(answer) {
                Next::Ask(r) => request = r,
                Next::End(r) => return r,
            }
        }
    }

    fn locals(&mut self, frame_index: i64) -> Result<Vec<Variable>, EngineError> {
        let (mut flow, mut request) = self.engine.locals(frame_index);
        loop {
            let answer = self.perform(request);
            match flow.resume(answer) {
                Next::Ask(r) => request = r,
                Next::End(r) => return r,
            }
        }
    }

    fn evaluate(&mut self, expr: &str) -> Result<EvalResult, EngineError> {
        match self.engine.evaluate(&mut self.state, expr) {
            Next::Ask(request) => match self.perform(request) {
                Answer::Done(answer) => self.engine.evaluated(&mut self.state, answer),
                _ => unreachable!(),
            },
            Next::End(r) => r,
        }
    }

    fn read_memory(&mut self, address: u64, size: usize) -> Result<MemoryRead, EngineError> {
        let request = self.engine.read_memory(address, size);
        match self.perform(request) {
            Answer::Memory(answer) => memory_read(address, answer),
            _ => unreachable!(),
        }
    }

    fn disassemble(&mut self, address: u64, count: i64) -> Result<Vec<Instruction>, EngineError> {
        let (mut flow, mut next) = self.engine.disassemble(address, count);
        loop {
            match next {
                Next::Ask(request) => {
                    let answer = self.perform(request);
                    next = flow.resume(answer);
                }
                Next::End(r) => return r,
            }
        }
    }

    fn execute(&mut self, command: &str) -> Result<String, EngineError> {
        match self.engine.execute(&mut self.state, command) {
            Next::Ask(request) => match self.perform(request) {
                Answer::Done(answer) => self.engine.executed(&mut self.state, answer),
                _ => unreachable!(),
            },
            Next::End(r) => r,
        }
    }

    fn modules(&mut self) -> Result<Vec<ModuleInfo>, EngineError> {
        let (mut flow, mut request) = self.engine.modules();
        loop {
            let answer = self.perform(request);
            match flow.resume(answer) {
                Next::Ask(r) => request = r,
                Next::End(r) => return r,
            }
        }
    }

    fn current_source_location(&mut self) -> Result<Option<(String, i64)>, EngineError> {
        match self.perform(Request::SourceLocation) {
            Answer::Location(answer) => current_source_location(answer),
            _ => unreachable!(),
        }
    }

    fn open_dump(&mut self, path: &str) -> Result<DumpOutcome, EngineError> {
        let (mut flow, mut next) = self.engine.open_dump(path);
        loop {
            match next {
                Next::Ask(request) => {
                    let answer = self.perform(request);
                    next = flow.resume(&mut self.engine, answer);
                }
                Next::End(r) => return r,
            }
        }
    }

    fn attach_kernel(&mut self, connection: &str) -> Result<StopOutcome, EngineError> {
        let (flow, first) = self.engine.attach_kernel(connection);
        self.open(flow, first)
    }

    fn analyze(&mut self) -> Result<String, EngineError> {
        let dirs = vec!["C:\\Kits\\winext".to_string(), "C:\\Kits".to_string()];
        let (mut flow, mut request) = self.engine.analyze(&mut self.state, &dirs);
        loop {
            let answer = self.perform(request);
            match flow.resume(&self.engine, &mut self.state, answer) {
                Next::Ask(r) => request = r,
                Next::End(r) => return r,
            }
        }
    }

    fn set_output_sink(&mut self, sink: OutputSink) {
        self.state.set_sink(sink);
    }

    fn interrupt_handle(&self) -> InterruptHandle {
        InterruptHandle::from_flag(Arc::clone(&self.flag))
    }
}

fn launch_req(mode: &str) -> LaunchReq {
    LaunchReq {
        program: "C:\\fixtures\\test_target.exe".to_string(),
        args: if mode.is_empty() { vec![] } else { vec![mode.to_string()] },
        cwd: None,
    }
}

fn compute() -> BpLoc {
    BpLoc::Function("compute".to_string())
}

fn line_loc() -> BpLoc {
    BpLoc::FileLine { file: "test_target.c".to_string(), line: SUM_LINE }
}

fn at_compute_breakpoint(engine: &mut Sim) -> StopInfo {
    engine.launch(&launch_req("normal")).expect("launch normal");
    let bp = engine.set_breakpoint(&compute(), "").expect("set breakpoint on compute");
    assert!(bp.verified);
    assert!(bp.id >= 0);
    match engine.go(10_000).expect("go to compute breakpoint") {
        Some(StopOutcome::Stopped(info)) => info,
        other => panic!("expected to stop at the compute breakpoint, got {other:?}"),
    }
}

fn warm_at_compute(engine: &mut Sim) {
    engine.launch(&launch_req("normal")).expect("launch normal");
    let fn_bp = engine.set_breakpoint(&compute(), "").expect("set warm-up breakpoint");
    match engine.go(10_000).expect("go to compute (warm-up)") {
        Some(StopOutcome::Stopped(_)) => {}
        other => panic!("warm-up: expected to stop at compute, got {other:?}"),
    }
    engine.remove_breakpoint(fn_bp.id).expect("remove warm-up breakpoint");
}

#[test]
fn create_succeeds_and_control_is_wired() {
    let mut engine = Sim::create();
    let answer = match engine.perform(Request::GetExecutionStatus) {
        Answer::Number(answer) => answer,
        _ => unreachable!(),
    };
    assert_eq!(execution_status(answer).expect("status"), NO_DEBUGGEE);
    // The image search is switched off on top of the options that were there.
    assert!(engine.requests.contains(&Request::SetSymbolOptions(0x30 | 0x2_0000)));
}

#[test]
fn launch_stops_at_initial_break() {
    let mut engine = Sim::create();
    match engine.launch(&launch_req("normal")).expect("launch") {
        StopOutcome::Stopped(info) => assert_eq!(info.reason, "Initial breakpoint"),
        other => panic!("expected Stopped at the initial break, got {other:?}"),
    }
    assert_eq!(
        engine.created,
        vec![("\"C:\\fixtures\\test_target.exe\" normal".to_string(), 0x0800_0002, None)]
    );
    assert_eq!(engine.reloads, vec!["/f test_target".to_string()]);
    assert_eq!(engine.options, 0, "the first break is no longer asked for");
    engine.detach(false).expect("detach");
}

#[test]
fn go_runs_to_exit_with_no_breakpoints() {
    let mut engine = Sim::create();
    engine.launch(&launch_req("normal")).expect("launch");
    match engine.go(10_000).expect("go") {
        Some(StopOutcome::Exited { code }) => assert_eq!(code, Some(0)),
        other => panic!("expected Exited(0) after go-to-exit, got {other:?}"),
    }
}

#[test]
fn step_over_from_initial_break_stops() {
    let mut engine = Sim::create();
    engine.launch(&launch_req("normal")).expect("launch");
    let outcome = engine.step(StepKind::Over).expect("step over");
    assert!(matches!(outcome, StopOutcome::Stopped(_)));
}

#[test]
fn step_into_from_initial_break_stops() {
    let mut engine = Sim::create();
    engine.launch(&launch_req("normal")).expect("launch");
    let outcome = engine.step(StepKind::Into).expect("step into");
    assert!(matches!(outcome, StopOutcome::Stopped(_)));
}

#[test]
fn step_out_runs_gu_and_returns_a_stop() {
    let mut engine = Sim::create();
    engine.launch(&launch_req("normal")).expect("launch");
    let _ = engine.step(StepKind::Into).expect("step into");
    let outcome = engine.step(StepKind::Out).expect("step out (gu)");
    assert!(matches!(outcome, StopOutcome::Stopped(_) | StopOutcome::Exited { .. }));
    assert!(engine.requests.contains(&Request::Execute("gu".to_string())));
}

#[test]
fn go_times_out_still_running_then_break_in_recovers() {
    let mut engine = Sim::create();
    engine.launch(&launch_req("wait")).expect("launch wait");
    assert!(engine.go(700).expect("go (short timeout)").is_none());
    let recovered = engine.break_in().expect("break_in");
    match recovered {
        StopOutcome::Stopped(info) => assert_eq!(info.reason, "Execution paused"),
        other => panic!("break_in should regain a Stopped, got {other:?}"),
    }
}

#[test]
fn interrupt_handle_breaks_running_go_from_another_thread() {
    let mut engine = Sim::create();
    engine.launch(&launch_req("wait")).expect("launch wait");
    engine.raise_at = Some(150);
    let outcome = engine.go(10_000).expect("go");
    match outcome {
        Some(StopOutcome::Stopped(info)) => assert_eq!(info.reason, "Execution paused"),
        other => panic!("an interrupt should break go into a Stopped, got {other:?}"),
    }
    assert!(engine.clock < 2_000, "the flag is seen within a slice");
}

#[test]
fn go_resets_interrupt_flag_at_entry() {
    let mut engine = Sim::create();
    engine.launch(&launch_req("wait")).expect("launch wait");
    engine.raise_at = Some(150);
    let first = engine.go(10_000).expect("first go");
    assert!(matches!(first, Some(StopOutcome::Stopped(_))));
    assert!(engine.flag.load(Ordering::Acquire), "the flag is still raised");
    let started = engine.clock;
    assert!(engine.go(700).expect("second go").is_none());
    assert!(engine.clock - started >= 500, "the second go uses its budget up");
}

#[test]
fn conditional_bp_fires_only_when_true() {
    let mut engine = Sim::create();
    warm_at_compute(&mut engine);
    let bp = engine.set_breakpoint(&line_loc(), "i == 5").expect("set conditional breakpoint");
    assert!(bp.verified);
    assert_eq!(bp.line, SUM_LINE as i64);
    let info = match engine.go(10_000).expect("go to conditional breakpoint") {
        Some(StopOutcome::Stopped(info)) => info,
        other => panic!("expected to stop at the conditional breakpoint, got {other:?}"),
    };
    assert!(info.hit_breakpoint_ids.contains(&bp.id));
    let eval = engine.evaluate("i").expect("evaluate i");
    assert_eq!(eval.result, "int 0n5");
}

#[test]
fn false_conditions_are_passed_over_within_one_wait() {
    let mut engine = Sim::create();
    warm_at_compute(&mut engine);
    let bp = engine.set_breakpoint(&line_loc(), "i == 5").expect("set conditional breakpoint");
    let before = engine.requests.len();
    match engine.go(10_000).expect("go to conditional breakpoint") {
        Some(StopOutcome::Stopped(info)) => assert_eq!(info.hit_breakpoint_ids, vec![bp.id]),
        other => panic!("expected to stop at the conditional breakpoint, got {other:?}"),
    }
    let asked = &engine.requests[before..];
    let count = |wanted: &Request| asked.iter().filter(|r| *r == wanted).count();
    assert_eq!(count(&Request::Wait(200)), 1);
    assert_eq!(count(&Request::QueryBaseControl), 1, "the interface is got once for a wait");
    let events = count(&Request::WaitForEvent(200));
    assert!(events > 1);
    let evaluated = asked.iter().filter(|r| matches!(r, Request::Evaluate(_))).count();
    assert_eq!(evaluated, events, "every hit is judged");
    assert_eq!(count(&Request::SetExecutionStatus(1)), events, "every false one runs on");
}

#[test]
fn a_wait_without_its_interface_fails_under_that_name() {
    let mut engine = Sim::create();
    engine.launch(&launch_req("normal")).expect("launch normal");
    engine.no_base = true;
    let before = engine.requests.len();
    let err = engine.go(10_000).expect_err("no interface to wait through");
    assert_eq!(err.context(), "QueryInterface(IDebugControl)");
    assert_eq!(err.hresult(), failure(0x8000_4002).code);
    assert!(!engine.requests[before..].iter().any(|r| matches!(r, Request::WaitForEvent(_))));
    let err = engine.step(StepKind::Over).expect_err("no interface to wait through");
    assert_eq!(err.context(), "QueryInterface(IDebugControl)");
}

#[test]
fn unresolvable_condition_never_fires_runs_to_exit() {
    let mut engine = Sim::create();
    warm_at_compute(&mut engine);
    let bp = engine
        .set_breakpoint(&line_loc(), "nonexistent_xyz == 1")
        .expect("set unresolvable-condition breakpoint");
    assert!(bp.verified);
    match engine.go(10_000).expect("go with an unresolvable condition") {
        Some(StopOutcome::Exited { code }) => assert_eq!(code, Some(0)),
        other => panic!("an unresolvable condition must never stop, got {other:?}"),
    }
}

#[test]
fn unconditional_bp_still_stops() {
    let mut engine = Sim::create();
    engine.launch(&launch_req("normal")).expect("launch normal");
    let bp = engine.set_breakpoint(&compute(), "").expect("set breakpoint");
    match engine.go(10_000).expect("go") {
        Some(StopOutcome::Stopped(info)) => {
            assert!(info.hit_breakpoint_ids.contains(&bp.id));
            assert_eq!(info.reason, "Breakpoint 0 hit at 0x140001000");
        }
        other => panic!("an unconditional breakpoint should stop, got {other:?}"),
    }
}

#[test]
fn breakpoint_set_list_hit_remove() {
    let mut engine = Sim::create();
    engine.launch(&launch_req("normal")).expect("launch normal");
    let bp = engine.set_breakpoint(&compute(), "").expect("set breakpoint on compute");
    assert!(bp.verified);
    let listed = engine.list_breakpoints().expect("list breakpoints");
    assert!(listed.iter().any(|b| b.id == bp.id && b.message == "test_target!compute"));
    match engine.go(10_000).expect("go to breakpoint") {
        Some(StopOutcome::Stopped(info)) => assert!(info.hit_breakpoint_ids.contains(&bp.id)),
        other => panic!("expected Stopped at the breakpoint, got {other:?}"),
    }
    engine.remove_breakpoint(bp.id).expect("remove breakpoint");
    let after = engine.list_breakpoints().expect("list after remove");
    assert!(!after.iter().any(|b| b.id == bp.id));
    let gone = engine.remove_breakpoint(bp.id).expect_err("a breakpoint that is gone");
    assert_eq!(gone.context(), "GetBreakpointById");
}

#[test]
fn threads_returns_at_least_one() {
    let mut engine = Sim::create();
    let _stop = at_compute_breakpoint(&mut engine);
    let threads = engine.threads().expect("threads");
    assert_eq!(threads, vec![ThreadInfo { id: 0, name: "sys=4321".to_string() }]);
    engine.detach(false).expect("detach");
    assert!(engine.threads().expect("no threads").is_empty());
}

#[test]
fn stack_trace_includes_compute() {
    let mut engine = Sim::create();
    let stop = at_compute_breakpoint(&mut engine);
    engine.current_thread = 3;
    let frames = engine.stack_trace(stop.thread_id, 50).expect("stack_trace");
    assert!(frames.iter().any(|f| f.name.contains("compute")));
    assert_eq!(frames[0].instruction_pointer.as_deref(), Some("0x0000000140001000"));
    assert_eq!(frames[1].source_path.as_deref(), Some("C:\\src\\test_target.c"));
    assert_eq!(frames[2].name, "0x00007FF900001000", "no symbol: the address itself");
    assert_eq!((frames[2].source_path.as_deref(), frames[2].line), (None, 0));
    assert_eq!(engine.current_thread, 3, "the engine is back on its thread");
}

#[test]
fn locals_at_compute_include_sum_or_i() {
    let mut engine = Sim::create();
    let _stop = at_compute_breakpoint(&mut engine);
    let locals = engine.locals(0).expect("locals(0)");
    let names: Vec<&str> = locals.iter().map(|v| v.name.as_str()).collect();
    assert_eq!(names, vec!["sum", "i"]);
    assert_eq!((locals[0].value.as_str(), locals[0].ty.as_str()), ("0n5", ""));
}

#[test]
fn locals_at_frame_one_uses_the_scope_switch_path() {
    let mut engine = Sim::create();
    let _stop = at_compute_breakpoint(&mut engine);
    let frame1 = engine.locals(1).expect("locals(1)");
    let names: Vec<&str> = frame1.iter().map(|v| v.name.as_str()).collect();
    assert_eq!(names, vec!["argc", "argv"]);
    assert_eq!(engine.scope, None, "the scope is put back");
    let err = engine.locals(7).expect_err("no such frame");
    assert_eq!(err.to_string(), "locals: frame 7 is out of range (3 frames)");
}

#[test]
fn evaluate_arithmetic() {
    let mut engine = Sim::create();
    let _stop = at_compute_breakpoint(&mut engine);
    let eval = engine.evaluate("10 + 1").expect("evaluate");
    assert!(eval.result.contains("11"));
    assert_eq!((eval.ty.as_str(), eval.variables_reference), ("", 0));
}

#[test]
fn read_memory_returns_bytes() {
    let mut engine = Sim::create();
    let _stop = at_compute_breakpoint(&mut engine);
    let mem = engine.read_memory(COMPUTE, 16).expect("read_memory");
    assert_eq!(mem.address, format!("0x{COMPUTE:016X}"));
    assert_eq!(mem.data, vec![0x90; 12], "only the bytes that were read");
}

#[test]
fn disassemble_returns_instructions() {
    let mut engine = Sim::create();
    let _stop = at_compute_breakpoint(&mut engine);
    let instrs = engine.disassemble(COMPUTE, 3).expect("disassemble");
    assert_eq!(instrs.len(), 3);
    assert_eq!(instrs[0].address, "0x0000000140001000");
    assert_eq!(instrs[1].address, "0x0000000140001004");
    for ins in &instrs {
        assert_eq!(ins.instruction, "mov dword ptr [rsp+8],ecx");
    }
    assert!(engine.disassemble(COMPUTE, -1).expect("nothing").is_empty());
}

#[test]
fn execute_register_command() {
    let mut engine = Sim::create();
    let _stop = at_compute_breakpoint(&mut engine);
    let out = engine.execute("r").expect("execute r");
    assert!(out.starts_with("rax="));
    let err = engine.execute("bogus").expect_err("a command that fails and prints nothing");
    assert_eq!(err.context(), "Execute");
    let err = engine.execute("a\0b").expect_err("a zero in the command");
    assert_eq!(err.to_string(), "execute: command contains an interior NUL byte");
}

#[test]
fn modules_include_the_exe() {
    let mut engine = Sim::create();
    let _stop = at_compute_breakpoint(&mut engine);
    let mods = engine.modules().expect("modules");
    assert_eq!(
        mods[0],
        ModuleInfo {
            name: "test_target".to_string(),
            base: "0x0000000140000000".to_string(),
            size: "65536".to_string(),
            symbol_status: "pdb".to_string(),
        }
    );
    assert_eq!((mods[1].size.as_str(), mods[1].symbol_status.as_str()), ("0", "none"));
}

#[test]
fn current_source_location_at_compute() {
    let mut engine = Sim::create();
    let _stop = at_compute_breakpoint(&mut engine);
    let loc = engine.current_source_location().expect("current_source_location");
    assert_eq!(loc, Some(("C:\\src\\test_target.c".to_string(), 11)));
}

#[test]
fn attach_pid_stops_a_running_process() {
    let mut engine = Sim::create();
    let outcome = engine.attach_pid(4242).expect("attach_pid");
    assert!(matches!(outcome, StopOutcome::Stopped(_)));
    assert!(engine.requests.contains(&Request::AttachProcess(4242)));
    assert_eq!(engine.options, 0);
}

#[test]
fn detach_terminate_kills_the_target() {
    let mut engine = Sim::create();
    engine.attach_pid(1).expect("attach");
    engine.detach(true).expect("detach(true)");
    engine.attach_pid(1).expect("attach again");
    engine.detach(false).expect("detach(false)");
    assert_eq!(engine.ended, vec![1, 2], "a kill, then a plain detach");
}

#[test]
fn detach_allows_a_fresh_session() {
    let mut engine = Sim::create();
    engine.launch(&launch_req("normal")).expect("launch 1");
    engine.set_breakpoint(&line_loc(), "i == 1").expect("a condition");
    engine.detach(false).expect("detach 1");
    let outcome = engine.launch(&launch_req("normal")).expect("launch 2");
    assert!(matches!(outcome, StopOutcome::Stopped(_)));
    // The condition of the first session does not hold in the second one.
    engine.next_id = 0;
    let bp = engine.set_breakpoint(&line_loc(), "").expect("no condition");
    assert_eq!(bp.id, 0);
    match engine.go(10_000).expect("go") {
        Some(StopOutcome::Stopped(_)) => assert_eq!(engine.evaluate("i").expect("i").result, "int 0n0"),
        other => panic!("expected a stop, got {other:?}"),
    }
}

#[test]
fn open_dump_missing_file_errors_and_fresh_engine_is_runnable() {
    let mut engine = Sim::create();
    let dump = engine.open_dump("Z:\\does-not-exist-9d3f.dmp");
    assert!(dump.is_err());
    assert!(engine.engine.ensure_runnable().is_ok(), "no dump is open");
    let clean = Sim::create();
    assert!(clean.engine.ensure_runnable().is_ok());
}

#[test]
fn live_dump_round_trip_open_analyze_modules_guard() {
    let mut engine = Sim::create();
    engine.dump_exists = true;
    let outcome = engine.open_dump("C:\\dumps\\app.dmp").expect("open_dump");
    assert!(outcome.stop.is_some());
    assert_eq!(outcome.crash_location.as_deref(), Some("C:\\src\\test_target.c:11"));
    let literal = "cannot continue a crash-dump session";
    assert_eq!(engine.engine.ensure_runnable().expect_err("a dump").to_string(), literal);
    assert_eq!(engine.go(100).expect_err("a dump").to_string(), literal);
    assert_eq!(engine.step(StepKind::Over).expect_err("a dump").to_string(), literal);
    assert_eq!(engine.break_in().expect_err("a dump").to_string(), literal);
    let modules = engine.modules().expect("modules");
    assert!(modules.iter().any(|m| m.name.contains("test_target")));
    for m in &modules {
        assert!(m.base.starts_with("0x") && m.base.len() == 18);
        assert!(m.size.chars().all(|c| c.is_ascii_digit()));
        assert!(matches!(m.symbol_status.as_str(), "pdb" | "export" | "deferred" | "none"));
    }
    let report = engine.analyze().expect("analyze");
    assert!(!report.trim().is_empty());
    assert!(engine
        .requests
        .contains(&Request::Execute(".extpath C:\\Kits\\winext;C:\\Kits".to_string())));
    engine.detach(true).expect("detach");
    assert_eq!(engine.ended, vec![0], "a dump is let go of, never killed");
    assert!(engine.engine.ensure_runnable().is_ok());
}

#[test]
fn kernel_attach_waits_without_end() {
    let mut engine = Sim::create();
    let outcome = engine.attach_kernel("net:port=50000,key=1.2.3.4").expect("attach_kernel");
    assert!(matches!(outcome, StopOutcome::Stopped(_)));
    assert!(engine.requests.contains(&Request::WaitForEvent(u32::MAX)));
    let err = engine.attach_kernel("net:\0").expect_err("a zero in the connection");
    assert!(err.to_string().contains("interior NUL byte"));
}

#[test]
fn output_callbacks_capture_command_output() {
    let mut engine = Sim::create();
    engine.print("version banner\n");
    assert_eq!(engine.state.take_output(), "version banner\n");
    assert!(engine.state.take_output().is_empty(), "take_output drains the buffer");
    engine.set_output_sink(OutputSink::new());
    engine.print("dbgeng-sys-probe-22\n");
    assert!(engine.state.take_output().contains("dbgeng-sys-probe-22"));
    let forwarded = engine.state.take_forwarded();
    assert_eq!(forwarded.len(), 1);
    assert_eq!((forwarded[0].kind, forwarded[0].text.as_str()), (OutputKind::Normal, "dbgeng-sys-probe-22\n"));
}

#[test]
fn refusals_of_a_launch() {
    let mut engine = Sim::create();
    let mut req = launch_req("normal");
    req.args.push("a\0b".to_string());
    let err = engine.launch(&req).expect_err("a zero in an argument");
    assert_eq!(err.to_string(), "launch: program/args contain an interior NUL byte");
    let mut req = launch_req("normal");
    req.cwd = Some("C:\\\0".to_string());
    let err = engine.launch(&req).expect_err("a zero in the directory");
    assert_eq!(err.to_string(), "launch: working directory contains an interior NUL byte");
    let err = engine.open_dump("a\0.dmp").expect_err("a zero in the path");
    assert!(err.to_string().contains("interior NUL byte"));
}

#[test]
fn breakpoints_that_cannot_be_resolved() {
    let mut engine = Sim::create();
    engine.launch(&launch_req("normal")).expect("launch");
    let err = engine
        .set_breakpoint(&BpLoc::Function("nonexistent".to_string()), "")
        .expect_err("no such function");
    assert_eq!(err.context(), "GetOffsetByName");
    let err = engine
        .set_breakpoint(&BpLoc::FileLine { file: "x.c".to_string(), line: 1 }, "")
        .expect_err("no such line");
    assert_eq!(err.context(), "GetOffsetByLine");
    let err = engine
        .set_breakpoint(&BpLoc::Function("a\0b".to_string()), "")
        .expect_err("a zero in the name");
    assert_eq!(err.to_string(), "set_breakpoint: function name contains an interior NUL byte");
    let err = engine
        .set_breakpoint(&BpLoc::FileLine { file: "\0".to_string(), line: 1 }, "")
        .expect_err("a zero in the path");
    assert_eq!(err.to_string(), "set_breakpoint: file path contains an interior NUL byte");
    assert!(engine.bps.is_empty());
    let at = engine.set_breakpoint(&BpLoc::Address(0x1234), "").expect("an address as it is");
    assert_eq!((at.verified, at.line), (true, 0));
    assert_eq!(engine.bps[0].offset, 0x1234);
}

#[test]
fn commands_run_one_operation_each() {
    let mut engine = Sim::create();
    match dispatch(&mut engine, EngineCmd::Launch { req: launch_req("normal") }) {
        EngineReply::Stop(Ok(StopOutcome::Stopped(info))) => assert_eq!(info.reason, "Initial breakpoint"),
        other => panic!("unexpected reply {other:?}"),
    }
    match dispatch(&mut engine, EngineCmd::Execute { command: "r".to_string() }) {
        EngineReply::Text(Ok(text)) => assert!(text.starts_with("rax=")),
        other => panic!("unexpected reply {other:?}"),
    }
    match dispatch(&mut engine, EngineCmd::SetOutputSink { sink: OutputSink::new() }) {
        EngineReply::Installed => {}
        other => panic!("unexpected reply {other:?}"),
    }
    match dispatch(&mut engine, EngineCmd::CurrentSourceLocation) {
        EngineReply::Location(Ok(None)) => {}
        other => panic!("unexpected reply {other:?}"),
    }
    match dispatch(&mut engine, EngineCmd::ListBreakpoints) {
        EngineReply::Breakpoints(Ok(list)) => assert!(list.is_empty()),
        other => panic!("unexpected reply {other:?}"),
    }
}

/// A backend over the simulated debuggee.
struct Connected {
    backend: WinDbgBackend,
    engine: Sim,
}

impl Connected {
    fn new() -> Connected {
        Connected { backend: WinDbgBackend::new(None), engine: Sim::create() }
    }

    fn launch(&mut self, mode: &str, functions: &[&str]) -> LaunchOutcome {
        let spec = LaunchSpec {
            program: "C:\\fixtures\\test_target.exe".to_string(),
            args: vec![mode.to_string()],
            cwd: None,
            env: vec![],
            stop_on_entry: false,
            source_breakpoints: vec![],
            function_breakpoints: functions
                .iter()
                .map(|n| FunctionBp { name: n.to_string(), condition: String::new() })
                .collect(),
        };
        let (mut flow, mut cmd) = LaunchFlow::begin(spec);
        loop {
            let reply = Some(dispatch(&mut self.engine, cmd));
            match flow.resume(&mut self.backend.breakpoints, reply) {
                BackendNext::Call(next) => cmd = next,
                BackendNext::End(r) => return r.expect("launch"),
            }
        }
    }

    fn cont(&mut self) -> StopOutcome {
        let (mut flow, mut cmd) = ContFlow::begin(0);
        loop {
            let reply = Some(dispatch(&mut self.engine, cmd));
            match flow.resume(reply) {
                BackendNext::Call(next) => cmd = next,
                BackendNext::End(r) => return r.expect("cont"),
            }
        }
    }
}

#[test]
fn launch_stops_at_loader_break_with_breakpoint_flush() {
    let mut conn = Connected::new();
    match conn.launch("normal", &["compute"]) {
        LaunchOutcome::Stopped(_) => {}
        other => panic!("a launch must stop at the loader break, got {other:?}"),
    }
    let modules = modules_result(Some(dispatch(&mut conn.engine, EngineCmd::Modules)))
        .expect("modules after launch");
    assert!(modules.iter().any(|m| m.name.contains("test_target")));
    assert_eq!(conn.engine.bps.len(), 1, "the breakpoint was set");
}

#[test]
fn attach_by_pid_stops_a_running_process() {
    let mut conn = Connected::new();
    let pid = match attach_target(AttachSpec { pid: Some(4321), wait_for: None }) {
        Ok(AttachTarget::Pid(pid)) => pid,
        _ => panic!("expected a process id"),
    };
    let cmd = conn.backend.attach(pid);
    match attached(Some(dispatch(&mut conn.engine, cmd))).expect("attach by pid") {
        AttachOutcome::Stopped(_) => {}
        other => panic!("expected Stopped after attach, got {other:?}"),
    }
    assert_eq!(conn.backend.debugger_pid(), Some(4321));
}

#[test]
fn cont_hits_breakpoint_then_runs_to_exit() {
    let mut conn = Connected::new();
    conn.launch("normal", &["compute"]);
    match conn.cont() {
        StopOutcome::Stopped(info) => {
            assert!(info.reason.to_ascii_lowercase().contains("breakpoint"));
            assert!(!info.hit_breakpoint_ids.is_empty());
        }
        other => panic!("the first cont should hit the breakpoint, got {other:?}"),
    }
    match conn.cont() {
        StopOutcome::Exited { code } => assert_eq!(code, Some(0)),
        other => panic!("the second cont should run to exit, got {other:?}"),
    }
}

#[test]
fn step_over_and_into_from_loader_break_stop() {
    for kind in [StepKind::Over, StepKind::Into] {
        let mut conn = Connected::new();
        conn.launch("normal", &[]);
        let cmd = debug_mcp::backend::step(kind, 0, None);
        match dispatch(&mut conn.engine, cmd) {
            EngineReply::Stop(Ok(StopOutcome::Stopped(_))) => {}
            other => panic!("step {kind:?} should land Stopped, got {other:?}"),
        }
    }
}

#[test]
fn pause_breaks_a_running_cont() {
    let mut conn = Connected::new();
    conn.launch("wait", &[]);
    conn.engine.raise_at = Some(150);
    match conn.cont() {
        StopOutcome::Stopped(info) => assert_eq!(info.reason, "Execution paused"),
        other => panic!("a pause must break the running cont, got {other:?}"),
    }
    assert!(conn.engine.clock < 12_000);
}

#[test]
fn program_output_and_terminated_reach_the_event_stream() {
    let mut conn = Connected::new();
    conn.engine.set_output_sink(OutputSink::new());
    conn.launch("normal", &[]);
    assert_eq!(conn.cont(), StopOutcome::Exited { code: Some(0) });
    let mut lines = conn.engine.state.take_forwarded().into_iter();
    let mut stream = EventStream::new();
    let mut collected = Vec::new();
    loop {
        let output = match lines.next() {
            Some(line) => OutputPoll::Line { kind: line.kind, text: line.text },
            None => OutputPoll::Closed,
        };
        match stream.next(output, connection_end(EndPoll::Ended(None), true)) {
            StreamStep::Emit(event) => collected.push(event),
            StreamStep::Wait => panic!("nothing is left to wait for"),
            StreamStep::End => break,
        }
    }
    assert!(collected
        .iter()
        .any(|ev| matches!(ev, BackendEvent::Output { text, .. } if text.contains("test_target"))));
    assert_eq!(collected.last(), Some(&BackendEvent::Terminated { code: None }));
}
