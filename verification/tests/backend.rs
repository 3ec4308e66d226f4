//! The backend, over an engine that answers from a script.
use debug_mcp::backend::address::parse_address;
use debug_mcp::backend::call::{
    dump_result, frames_result, instructions_result, memory_result, modules_result, text_result,
    threads_result, variables_result, went_result, BackendNext,
};
use debug_mcp::backend::launch::{pending_breakpoints, LaunchFlow};
use debug_mcp::backend::reconcile::{
    bp_result_or_continue, wanted_line, ReconcileFlow, Wanted, ADDRESS_BP_GUIDANCE,
};
use debug_mcp::backend::{
    attach_kernel, attach_target, attached, disassemble, evaluate, evaluated, open_dump,
    poll_for_process, read_memory, scopes, stack_trace, stack_traced, step, variables, windowed,
    AttachTarget, ContFlow, DisconnectFlow, DisconnectStep, PollStep, WinDbgBackend, ALL_FRAMES,
};
use debug_mcp::callbacks::OutputSink;
use debug_mcp::engine::{BpLoc, InterruptHandle, LaunchReq};
use debug_mcp::engine_ops::{dispatch, EngineCmd, EngineOps, EngineReply};
use debug_mcp::error::{BackendError, EngineError};
use debug_mcp::factory::{engine_ready, sink_installed, CMD_BUFFER};
use debug_mcp::thread::{command_buffer, EngineThread, ThreadAction, ThreadEvent};
use debug_mcp::types::{
    AttachOutcome, AttachSpec, BreakpointResult, DumpOutcome, EvalMode, EvalResult, Frame,
    FunctionBp, Granularity, Instruction, LaunchOutcome, LaunchSpec, MemoryRead, ModuleInfo, Scope,
    SourceBp, StepKind, StopInfo, StopOutcome, ThreadInfo, Variable,
};
use std::collections::{HashSet, VecDeque};
use std::sync::atomic::{AtomicBool, Ordering};
use std::sync::Arc;

/// What the engine was asked for.
#[derive(Default)]
struct Recorder {
    launches: Vec<LaunchReq>,
    attaches: Vec<u32>,
    breakpoints: Vec<(BpLoc, String)>,
    removes: Vec<i64>,
    detaches: Vec<bool>,
    gos: Vec<u32>,
    steps: Vec<StepKind>,
    break_ins: u32,
    interrupt_flag_at_detach: Vec<bool>,
    stack_traces: Vec<(i64, i64)>,
    locals_frames: Vec<i64>,
    evaluates: Vec<String>,
    executes: Vec<String>,
    read_memories: Vec<(u64, usize)>,
    disassembles: Vec<(u64, i64)>,
    open_dumps: Vec<String>,
    attach_kernels: Vec<String>,
    analyzes: u32,
    sinks: u32,
}

/// An engine that answers from a script.
struct FakeEngine {
    threads: Vec<ThreadInfo>,
    modules: Vec<ModuleInfo>,
    stop_outcome: StopOutcome,
    go_returns_none: bool,
    interrupt_flag: Arc<AtomicBool>,
    rec: Recorder,
    frames: Vec<Frame>,
    locals: Vec<Variable>,
    evaluate_result: String,
    execute_result: String,
    memory: Vec<u8>,
    instructions: Vec<Instruction>,
    scripted_bps: VecDeque<Result<BreakpointResult, EngineError>>,
    removes_fail: bool,
    dump_outcome: Option<Result<DumpOutcome, EngineError>>,
    analyze_result: Option<Result<String, EngineError>>,
}

fn stopped() -> StopOutcome {
    StopOutcome::Stopped(StopInfo {
        reason: "breakpoint".to_string(),
        thread_id: 1,
        description: String::new(),
        hit_breakpoint_ids: Vec::new(),
    })
}

impl Default for FakeEngine {
    fn default() -> Self {
        FakeEngine {
            threads: Vec::new(),
            modules: Vec::new(),
            stop_outcome: stopped(),
            go_returns_none: false,
            interrupt_flag: Arc::new(AtomicBool::new(false)),
            rec: Recorder::default(),
            frames: Vec::new(),
            locals: Vec::new(),
            evaluate_result: String::new(),
            execute_result: String::new(),
            memory: Vec::new(),
            instructions: Vec::new(),
            scripted_bps: VecDeque::new(),
            removes_fail: false,
            dump_outcome: None,
            analyze_result: None,
        }
    }
}

impl EngineOps for FakeEngine {
    fn launch(&mut self, req: &LaunchReq) -> Result<StopOutcome, EngineError> {
        self.rec.launches.push(req.clone());
        Ok(self.stop_outcome.clone())
    }

    fn attach_pid(&mut self, pid: u32) -> Result<StopOutcome, EngineError> {
        self.rec.attaches.push(pid);
        Ok(self.stop_outcome.clone())
    }

    fn detach(&mut self, terminate: bool) -> Result<(), EngineError> {
        let flag_now = self.interrupt_flag.load(Ordering::Acquire);
        self.rec.interrupt_flag_at_detach.push(flag_now);
        self.rec.detaches.push(terminate);
        Ok(())
    }

    fn go(&mut self, timeout_ms: u32) -> Result<Option<StopOutcome>, EngineError> {
        self.interrupt_flag.store(false, Ordering::SeqCst);
        self.rec.gos.push(timeout_ms);
        if self.go_returns_none {
            Ok(None)
        } else {
            Ok(Some(self.stop_outcome.clone()))
        }
    }

    fn step(&mut self, kind: StepKind) -> Result<StopOutcome, EngineError> {
        self.rec.steps.push(kind);
        Ok(self.stop_outcome.clone())
    }

    fn break_in(&mut self) -> Result<StopOutcome, EngineError> {
        self.rec.break_ins += 1;
        Ok(self.stop_outcome.clone())
    }

    fn set_breakpoint(&mut self, loc: &BpLoc, condition: &str) -> Result<BreakpointResult, EngineError> {
        self.rec.breakpoints.push((loc.clone(), condition.to_string()));
        self.scripted_bps.pop_front().unwrap_or(Ok(bp(1, 0)))
    }

    fn remove_breakpoint(&mut self, id: i64) -> Result<(), EngineError> {
        self.rec.removes.push(id);
        if self.removes_fail {
            Err(EngineError::engine("gone already"))
        } else {
            Ok(())
        }
    }

    fn list_breakpoints(&mut self) -> Result<Vec<BreakpointResult>, EngineError> {
        Ok(Vec::new())
    }

    fn threads(&mut self) -> Result<Vec<ThreadInfo>, EngineError> {
        Ok(self.threads.clone())
    }

    fn stack_trace(&mut self, thread_id: i64, max: i64) -> Result<Vec<Frame>, EngineError> {
        self.rec.stack_traces.push((thread_id, max));
        Ok(self.frames.clone())
    }

    fn locals(&mut self, frame_index: i64) -> Result<Vec<Variable>, EngineError> {
        self.rec.locals_frames.push(frame_index);
        Ok(self.locals.clone())
    }

    fn evaluate(&mut self, expr: &str) -> Result<EvalResult, EngineError> {
        self.rec.evaluates.push(format!("?? {expr}"));
        Ok(EvalResult {
            result: self.evaluate_result.clone(),
            ty: String::new(),
            variables_reference: 0,
        })
    }

    fn read_memory(&mut self, address: u64, size: usize) -> Result<MemoryRead, EngineError> {
        self.rec.read_memories.push((address, size));
        let mut data = self.memory.clone();
        data.truncate(size);
        Ok(MemoryRead { address: format!("0x{address:016X}"), data })
    }

    fn disassemble(&mut self, address: u64, count: i64) -> Result<Vec<Instruction>, EngineError> {
        self.rec.disassembles.push((address, count));
        Ok(self.instructions.clone())
    }

    fn execute(&mut self, command: &str) -> Result<String, EngineError> {
        self.rec.executes.push(command.to_string());
        Ok(self.execute_result.clone())
    }

    fn modules(&mut self) -> Result<Vec<ModuleInfo>, EngineError> {
        Ok(self.modules.clone())
    }

    fn current_source_location(&mut self) -> Result<Option<(String, i64)>, EngineError> {
        Ok(None)
    }

    fn open_dump(&mut self, path: &str) -> Result<DumpOutcome, EngineError> {
        self.rec.open_dumps.push(path.to_string());
        self.dump_outcome.take().unwrap_or(Ok(DumpOutcome { stop: None, crash_location: None }))
    }

    fn attach_kernel(&mut self, connection: &str) -> Result<StopOutcome, EngineError> {
        self.rec.attach_kernels.push(connection.to_string());
        Ok(self.stop_outcome.clone())
    }

    fn analyze(&mut self) -> Result<String, EngineError> {
        self.rec.analyzes += 1;
        self.analyze_result.take().unwrap_or(Ok(String::new()))
    }

    fn set_output_sink(&mut self, _sink: OutputSink) {
        self.rec.sinks += 1;
    }

    fn interrupt_handle(&self) -> InterruptHandle {
        InterruptHandle::from_flag(Arc::clone(&self.interrupt_flag))
    }
}

/// A backend and its engine; the engine may be gone.
struct Over {
    backend: WinDbgBackend,
    engine: FakeEngine,
    alive: bool,
}

impl Over {
    fn new(engine: FakeEngine) -> Over {
        Over { backend: WinDbgBackend::new(None), engine, alive: true }
    }

    fn with(customize: impl FnOnce(&mut FakeEngine)) -> Over {
        let mut engine = FakeEngine::default();
        customize(&mut engine);
        Over::new(engine)
    }

    fn scripted(bps: Vec<Result<BreakpointResult, EngineError>>) -> Over {
        Over::with(|f| f.scripted_bps = bps.into_iter().collect())
    }

    fn dead() -> Over {
        let mut over = Over::new(FakeEngine::default());
        over.alive = false;
        over
    }

    fn call(&mut self, cmd: EngineCmd) -> Option<EngineReply> {
        if self.alive {
            Some(dispatch(&mut self.engine, cmd))
        } else {
            None
        }
    }

    fn reconcile(
        &mut self,
        begun: (ReconcileFlow, BackendNext<Vec<BreakpointResult>>),
    ) -> Result<Vec<BreakpointResult>, BackendError> {
        let (mut flow, mut next) = begun;
        loop {
            match next {
                BackendNext::Call(cmd) => {
                    let reply = self.call(cmd);
                    next = flow.resume(&mut self.backend.breakpoints, reply);
                }
                BackendNext::End(r) => return r,
            }
        }
    }

    fn set_source(&mut self, file: &str, bps: &[SourceBp]) -> Result<Vec<BreakpointResult>, BackendError> {
        let begun = self.backend.set_source_breakpoints(file, &bps.to_vec());
        self.reconcile(begun)
    }

    fn set_functions(&mut self, bps: &[FunctionBp]) -> Result<Vec<BreakpointResult>, BackendError> {
        let begun = self.backend.set_function_breakpoints(&bps.to_vec());
        self.reconcile(begun)
    }

    fn launch(&mut self, spec: LaunchSpec) -> Result<LaunchOutcome, BackendError> {
        let (mut flow, mut cmd) = LaunchFlow::begin(spec);
        loop {
            let reply = self.call(cmd);
            match flow.resume(&mut self.backend.breakpoints, reply) {
                BackendNext::Call(next) => cmd = next,
                BackendNext::End(r) => return r,
            }
        }
    }

    fn attach(&mut self, spec: AttachSpec, mut lookup: impl FnMut(&str) -> Option<u32>) -> Result<AttachOutcome, BackendError> {
        let pid = match attach_target(spec)? {
            AttachTarget::Pid(pid) => pid,
            AttachTarget::Named(name) => wait_for(&name, &mut lookup, 20)?,
        };
        let cmd = self.backend.attach(pid);
        let reply = self.call(cmd);
        attached(reply)
    }

    fn attach_kernel(&mut self, connection: &str) -> Result<AttachOutcome, BackendError> {
        let reply = self.call(attach_kernel(connection));
        attached(reply)
    }

    fn disconnect(&mut self, terminate: bool) {
        let mut flow = DisconnectFlow::begin(terminate);
        loop {
            match flow.next() {
                DisconnectStep::Interrupt => self.engine.interrupt_handle().interrupt(),
                DisconnectStep::Call(cmd) => {
                    let _ = self.call(cmd);
                }
                DisconnectStep::End => return,
            }
        }
    }

    fn cont(&mut self, thread_id: i64) -> Result<StopOutcome, BackendError> {
        let (mut flow, mut cmd) = ContFlow::begin(thread_id);
        loop {
            let reply = self.call(cmd);
            match flow.resume(reply) {
                BackendNext::Call(next) => cmd = next,
                BackendNext::End(r) => return r,
            }
        }
    }

    fn stack_trace(&mut self, thread_id: i64, start: i64, levels: i64) -> Result<(Vec<Frame>, i64), BackendError> {
        let reply = self.call(stack_trace(thread_id, start, levels));
        stack_traced(start, reply)
    }

    fn variables(&mut self, reference: i64) -> Result<Vec<Variable>, BackendError> {
        match variables(reference) {
            Some(cmd) => {
                let reply = self.call(cmd);
                variables_result(reply)
            }
            None => Ok(Vec::new()),
        }
    }

    fn evaluate(&mut self, expr: &str, frame: Option<i64>, mode: EvalMode) -> Result<EvalResult, BackendError> {
        let reply = self.call(evaluate(expr, frame, mode));
        evaluated(mode, reply)
    }

    fn read_memory(&mut self, address: &str, count: i64) -> Result<MemoryRead, BackendError> {
        let cmd = read_memory(address, count)?;
        let reply = self.call(cmd);
        memory_result(reply)
    }

    fn disassemble(&mut self, address: &str, count: i64) -> Result<Vec<Instruction>, BackendError> {
        let cmd = disassemble(address, count)?;
        let reply = self.call(cmd);
        instructions_result(reply)
    }

    fn open_dump(&mut self, path: &str) -> Result<DumpOutcome, BackendError> {
        let reply = self.call(open_dump(path));
        dump_result(reply)
    }

    fn analyze(&mut self) -> Result<String, BackendError> {
        let reply = self.call(EngineCmd::Analyze);
        text_result(reply)
    }

    fn threads(&mut self) -> Result<Vec<ThreadInfo>, BackendError> {
        let reply = self.call(EngineCmd::Threads);
        threads_result(reply)
    }

    fn modules(&mut self) -> Result<Vec<ModuleInfo>, BackendError> {
        let reply = self.call(EngineCmd::Modules);
        modules_result(reply)
    }
}

/// Looks for a process up to `polls` times.
fn wait_for(name: &str, lookup: &mut impl FnMut(&str) -> Option<u32>, polls: u32) -> Result<u32, BackendError> {
    let mut done = 0;
    loop {
        let found = lookup(name);
        done += 1;
        match poll_for_process(name, found, done >= polls) {
            PollStep::End(r) => return r,
            PollStep::Sleep => {}
        }
    }
}

fn bp(id: i64, line: i64) -> BreakpointResult {
    BreakpointResult { id, verified: true, line, message: String::new(), rejected: false }
}

fn line_bp(line: i64, condition: &str) -> SourceBp {
    SourceBp { line, condition: condition.to_string() }
}

fn fn_bp(name: &str, condition: &str) -> FunctionBp {
    FunctionBp { name: name.to_string(), condition: condition.to_string() }
}

fn at_line(file: &str, line: u32) -> BpLoc {
    BpLoc::FileLine { file: file.to_string(), line }
}

fn at_function(name: &str) -> BpLoc {
    BpLoc::Function(name.to_string())
}

fn launch_spec(stop_on_entry: bool) -> LaunchSpec {
    LaunchSpec {
        program: "C:\\fixtures\\normal.exe".to_string(),
        args: vec![],
        cwd: None,
        env: vec![],
        stop_on_entry,
        source_breakpoints: vec![("main.c".to_string(), vec![line_bp(42, "x > 0")])],
        function_breakpoints: vec![fn_bp("compute", "")],
    }
}

// ---- breakpoints ----

#[test]
fn set_source_breakpoints_sets_each_line_in_order() {
    let mut over = Over::scripted(vec![Ok(bp(11, 10)), Ok(bp(12, 20))]);
    let results = over
        .set_source("main.c", &[line_bp(10, ""), line_bp(20, "x > 0")])
        .expect("set_source_breakpoints");
    assert_eq!(results.len(), 2, "one result per input bp, in order");
    assert_eq!((results[0].id, results[0].verified), (11, true));
    assert_eq!((results[1].id, results[1].verified), (12, true));
    assert_eq!(
        over.engine.rec.breakpoints,
        vec![
            (at_line("main.c", 10), String::new()),
            (at_line("main.c", 20), "x > 0".to_string()),
        ]
    );
}

#[test]
fn set_source_breakpoints_skips_a_line_out_of_u32_range() {
    let mut over = Over::scripted(vec![Ok(bp(7, 42))]);
    let bad_line = i64::from(u32::MAX) + 1;
    let results = over
        .set_source("main.c", &[line_bp(42, ""), line_bp(bad_line, "")])
        .expect("a malformed line does not abort the batch");
    assert_eq!(results.len(), 2, "all inputs produce a positional result");
    assert!(results[0].verified, "the valid line resolves");
    assert!(!results[1].verified, "the out-of-range line is an unverified result");
    assert_eq!(results[1].line, bad_line);
    assert!(results[1].message.contains("line out of range"), "got {:?}", results[1].message);
    assert_eq!(over.engine.rec.breakpoints, vec![(at_line("main.c", 42), String::new())]);
}

#[test]
fn set_function_breakpoints_sets_each_function_in_order() {
    let mut over = Over::scripted(vec![Ok(bp(1, 0)), Ok(bp(2, 0))]);
    let results = over
        .set_functions(&[fn_bp("compute", ""), fn_bp("main", "argc > 1")])
        .expect("set_function_breakpoints");
    assert_eq!(results.len(), 2);
    assert_eq!((results[0].id, results[0].verified), (1, true));
    assert_eq!((results[1].id, results[1].verified), (2, true));
    assert_eq!(
        over.engine.rec.breakpoints,
        vec![
            (at_function("compute"), String::new()),
            (at_function("main"), "argc > 1".to_string()),
        ]
    );
}

#[test]
fn set_function_breakpoints_unresolvable_is_unverified_not_fatal() {
    let mut over = Over::scripted(vec![
        Ok(bp(3, 0)),
        Err(EngineError::engine("GetOffsetByName failed: nonexistent_xyz_func")),
        Ok(bp(5, 0)),
    ]);
    let results = over
        .set_functions(&[
            fn_bp("compute", ""),
            fn_bp("nonexistent_xyz_func", ""),
            fn_bp("main", ""),
        ])
        .expect("an unresolvable bp must not fail the whole call");
    assert_eq!(results.len(), 3, "one positional result per input");
    assert!(results[0].verified, "the first function resolves");
    assert!(!results[1].verified, "the unresolvable function is unverified, not an error");
    assert_eq!(results[1].id, 0);
    assert_eq!(results[1].line, 0);
    assert!(results[1].message.contains("nonexistent_xyz_func"), "got {:?}", results[1].message);
    assert!(!results[1].rejected, "an unresolvable symbol may resolve later");
    assert!(results[2].verified, "the batch continued");
}

#[test]
fn set_source_breakpoints_unresolvable_line_is_unverified_not_fatal() {
    let mut over = Over::scripted(vec![
        Ok(bp(9, 5)),
        Err(EngineError::engine("GetOffsetByLine failed: no code at line")),
    ]);
    let results = over
        .set_source("main.c", &[line_bp(5, ""), line_bp(999, "")])
        .expect("an unresolvable line must not fail the whole call");
    assert_eq!(results.len(), 2);
    assert!(results[0].verified);
    assert!(!results[1].verified, "the unresolvable line is unverified");
    assert_eq!(results[1].line, 999);
}

#[test]
fn set_function_breakpoints_reconciles_reuses_id_and_removes_stale() {
    let mut over = Over::scripted(vec![Ok(bp(1, 0)), Ok(bp(2, 0))]);
    let compute = fn_bp("compute", "");
    let main = fn_bp("main", "");
    let r1 = over.set_functions(&[compute.clone()]).expect("set compute");
    assert_eq!(r1.len(), 1);
    assert_eq!(r1[0].id, 1, "compute gets engine id 1");
    let r2 = over.set_functions(&[compute.clone(), main]).expect("set [compute, main]");
    assert_eq!(r2.len(), 2);
    assert_eq!(r2[0].id, 1, "compute keeps its original engine id");
    assert_eq!(r2[1].id, 2, "main gets a fresh engine id");
    let r3 = over.set_functions(&[compute]).expect("set [compute] again");
    assert_eq!(r3.len(), 1);
    assert_eq!(r3[0].id, 1);
    assert_eq!(over.engine.rec.removes, vec![2], "exactly main's engine id was removed");
    let sets = |name: &str| {
        over.engine.rec.breakpoints.iter().filter(|(loc, _)| *loc == at_function(name)).count()
    };
    assert_eq!(sets("compute"), 1);
    assert_eq!(sets("main"), 1);
}

#[test]
fn set_breakpoints_propagates_closed_from_a_dead_engine() {
    let mut over = Over::dead();
    match over.set_functions(&[fn_bp("compute", "")]) {
        Err(BackendError::Closed) => {}
        other => panic!("a dead engine thread must surface Closed, got {other:?}"),
    }
    let err = over.set_source("main.c", &[line_bp(10, "")]).expect_err("a dead engine");
    assert!(matches!(err, BackendError::Closed), "got {err:?}");
}

#[test]
fn set_source_breakpoints_reconciles_reuses_id_and_removes_stale() {
    let mut over = Over::scripted(vec![Ok(bp(11, 10)), Ok(bp(12, 20))]);
    let line10 = line_bp(10, "");
    let line20 = line_bp(20, "");
    let r1 = over.set_source("f.c", &[line10.clone()]).expect("set line 10");
    assert_eq!(r1.len(), 1);
    assert_eq!(r1[0].id, 11);
    let r2 = over.set_source("f.c", &[line10.clone(), line20]).expect("set [10, 20]");
    assert_eq!(r2.len(), 2);
    assert_eq!(r2[0].id, 11, "line 10 keeps its original engine id");
    assert_eq!(r2[1].id, 12, "line 20 gets a fresh engine id");
    let sets = |over: &Over, line: u32| {
        over.engine.rec.breakpoints.iter().filter(|(loc, _)| *loc == at_line("f.c", line)).count()
    };
    assert_eq!(sets(&over, 10), 1);
    assert_eq!(sets(&over, 20), 1);
    let r3 = over.set_source("f.c", &[line10]).expect("set [10] again");
    assert_eq!(r3.len(), 1);
    assert_eq!(r3[0].id, 11);
    assert_eq!(over.engine.rec.removes, vec![12], "exactly line 20's engine id was removed");
}

#[test]
fn breakpoint_categories_do_not_cross_remove() {
    let mut over =
        Over::scripted(vec![Ok(bp(100, 0)), Ok(bp(101, 10)), Ok(bp(200, 30)), Ok(bp(201, 0))]);
    over.set_functions(&[fn_bp("compute", "")]).expect("set compute");
    over.set_source("f.c", &[line_bp(10, "")]).expect("set source line 10");
    over.set_source("f.c", &[]).expect("clear source");
    assert_eq!(over.engine.rec.removes, vec![101]);
    assert!(!over.engine.rec.removes.contains(&100));
    over.set_source("g.c", &[line_bp(30, "")]).expect("set source line 30");
    over.set_functions(&[fn_bp("helper", "")]).expect("set helper");
    over.set_functions(&[]).expect("clear functions");
    let removes = over.engine.rec.removes.clone();
    assert!(removes.contains(&201), "got {removes:?}");
    assert!(removes.contains(&100), "got {removes:?}");
    assert!(!removes.contains(&200), "got {removes:?}");
    let function_clear_removes: HashSet<i64> =
        removes.iter().copied().filter(|id| *id != 101).collect();
    assert_eq!(function_clear_removes, HashSet::from([100, 201]), "got {removes:?}");
}

#[test]
fn breakpoints_of_other_files_stay() {
    let mut over = Over::scripted(vec![Ok(bp(1, 10)), Ok(bp(2, 10))]);
    over.set_source("f.c", &[line_bp(10, "")]).expect("f.c");
    over.set_source("g.c", &[line_bp(10, "")]).expect("g.c");
    over.set_source("f.c", &[]).expect("clear f.c");
    assert_eq!(over.engine.rec.removes, vec![1]);
    assert_eq!(over.backend.breakpoints.len(), 1);
    assert!(over.backend.breakpoints.get(&at_line("g.c", 10)).is_some());
}

#[test]
fn set_function_breakpoints_rejects_bare_address_keeps_module_sym() {
    let mut over = Over::scripted(vec![Ok(bp(1, 0)), Ok(bp(2, 0))]);
    let results = over
        .set_functions(&[
            fn_bp("0x7ff6abcd1234", ""),
            fn_bp("test_target!compute", ""),
            fn_bp("compute", ""),
        ])
        .expect("a bare-address name must not fail the batch");
    assert_eq!(results.len(), 3, "one positional result per input");
    assert!(!results[0].verified);
    assert_eq!(results[0].id, 0);
    assert_eq!(results[0].line, 0);
    assert_eq!(results[0].message, ADDRESS_BP_GUIDANCE);
    assert!(results[0].rejected);
    assert!(results[1].verified && results[1].id == 1 && !results[1].rejected);
    assert!(results[2].verified && results[2].id == 2 && !results[2].rejected);
    let bps_set = over.engine.rec.breakpoints.clone();
    assert_eq!(
        bps_set,
        vec![
            (at_function("test_target!compute"), String::new()),
            (at_function("compute"), String::new()),
        ]
    );
    assert!(!bps_set.iter().any(|(loc, _)| *loc == at_function("0x7ff6abcd1234")));
    over.set_functions(&[]).expect("clear functions");
    let removes = over.engine.rec.removes.clone();
    assert_eq!(removes.iter().copied().collect::<HashSet<_>>(), HashSet::from([1, 2]));
    assert!(!removes.contains(&0));
}

#[test]
fn only_the_lower_case_prefix_marks_a_bare_address() {
    let mut over = Over::scripted(vec![Ok(bp(3, 0)), Ok(bp(4, 0))]);
    let results = over
        .set_functions(&[fn_bp("0XCAFE", ""), fn_bp("0xcafe", ""), fn_bp("m!0xcafe", "")])
        .expect("set functions");
    assert_eq!(results[0].id, 3);
    assert!(results[0].verified && !results[0].rejected);
    assert!(results[1].rejected && !results[1].verified);
    assert_eq!(results[2].id, 4);
    assert_eq!(
        over.engine.rec.breakpoints,
        vec![
            (at_function("0XCAFE"), String::new()),
            (at_function("m!0xcafe"), String::new()),
        ]
    );
}

#[test]
fn set_function_breakpoints_module_sym_is_tracked_and_reused() {
    let mut over = Over::scripted(vec![Ok(bp(7, 0))]);
    let sym = fn_bp("test_target!compute", "");
    let r1 = over.set_functions(&[sym.clone()]).expect("set module!sym");
    assert_eq!(r1[0].id, 7);
    let r2 = over.set_functions(&[sym]).expect("re-send module!sym");
    assert_eq!(r2[0].id, 7);
    assert_eq!(over.engine.rec.breakpoints.len(), 1, "set exactly once");
}

#[test]
fn set_source_breakpoints_resend_with_changed_condition_does_not_reapply() {
    let mut over = Over::scripted(vec![Ok(bp(42, 42))]);
    let r1 = over.set_source("f.c", &[line_bp(42, "")]).expect("no condition");
    assert_eq!(r1[0].id, 42);
    let r2 = over.set_source("f.c", &[line_bp(42, "x > 0")]).expect("a changed condition");
    assert_eq!(r2[0].id, 42);
    let bps = &over.engine.rec.breakpoints;
    let sets = bps.iter().filter(|(loc, _)| *loc == at_line("f.c", 42)).count();
    assert_eq!(sets, 1, "got {bps:?}");
    assert_eq!(bps[0].1, String::new());
}

#[test]
fn asking_again_sends_nothing() {
    let mut over = Over::scripted(vec![Ok(bp(4, 0)), Ok(bp(5, 0))]);
    let wanted = [fn_bp("f", ""), fn_bp("g", "")];
    let results = over.set_functions(&wanted).expect("set");
    let again = over.set_functions(&wanted).expect("set again");
    assert_eq!(again, results);
    assert_eq!(over.engine.rec.breakpoints.len(), 2);
    assert!(over.engine.rec.removes.is_empty());
}

#[test]
fn a_new_place_asked_for_twice_is_known_by_the_later_one() {
    let mut over = Over::scripted(vec![Ok(bp(4, 0)), Ok(bp(5, 0))]);
    let results = over.set_functions(&[fn_bp("f", ""), fn_bp("f", "")]).expect("twice");
    assert_eq!((results[0].id, results[1].id), (4, 5));
    let again = over.set_functions(&[fn_bp("f", "")]).expect("again");
    assert_eq!(again[0].id, 5);
    assert_eq!(over.engine.rec.breakpoints.len(), 2);
}

#[test]
fn a_stale_breakpoint_that_cannot_be_removed_is_forgotten() {
    let mut over = Over::scripted(vec![Ok(bp(4, 0))]);
    over.set_functions(&[fn_bp("f", "")]).expect("set");
    over.engine.removes_fail = true;
    over.set_functions(&[]).expect("a failed removal does not fail the call");
    assert_eq!(over.engine.rec.removes, vec![4]);
    assert_eq!(over.backend.breakpoints.len(), 0);
}

#[test]
fn one_breakpoint_at_a_time() {
    match wanted_line("a.c", &line_bp(-1, "")) {
        Wanted::Refused(r) => assert_eq!((r.line, r.verified, r.rejected), (-1, false, false)),
        Wanted::Place { .. } => panic!("a negative line is no line"),
    }
    match wanted_line("a.c", &line_bp(3, "c")) {
        Wanted::Place { loc, condition, line } => {
            assert!(loc.same(&at_line("a.c", 3)));
            assert_eq!((condition.as_str(), line), ("c", 3));
        }
        Wanted::Refused(_) => panic!("line 3 is a line"),
    }
    assert_eq!(bp_result_or_continue(Ok(bp(1, 2)), 9), Ok(bp(1, 2)));
    assert_eq!(bp_result_or_continue(Err(BackendError::Closed), 9), Err(BackendError::Closed));
    let unverified =
        bp_result_or_continue(Err(BackendError::Dap { message: "why".to_string() }), 9)
            .expect("not fatal");
    assert_eq!((unverified.id, unverified.line, unverified.message.as_str()), (0, 9, "why"));
}

// ---- lifecycle ----

#[test]
fn launch_returns_stopped_and_flushes_breakpoints() {
    let mut over = Over::new(FakeEngine::default());
    let outcome = over.launch(launch_spec(false)).expect("launch succeeds");
    assert!(matches!(outcome, LaunchOutcome::Stopped(_)), "got {outcome:?}");
    assert_eq!(
        over.engine.rec.breakpoints,
        vec![
            (at_line("main.c", 42), "x > 0".to_string()),
            (at_function("compute"), String::new()),
        ]
    );
    assert_eq!(over.engine.rec.launches[0].program, "C:\\fixtures\\normal.exe");
}

#[test]
fn launch_exited_maps_through_and_skips_flush() {
    let mut over = Over::with(|f| f.stop_outcome = StopOutcome::Exited { code: Some(3) });
    match over.launch(launch_spec(true)).expect("launch returns") {
        LaunchOutcome::Exited { code } => assert_eq!(code, Some(3)),
        other => panic!("expected Exited, got {other:?}"),
    }
    assert!(over.engine.rec.breakpoints.is_empty());
}

#[test]
fn a_launch_flushes_what_it_can() {
    let pending = pending_breakpoints(
        &vec![("a.c".to_string(), vec![line_bp(1, ""), line_bp(-4, "")])],
        &vec![fn_bp("f", "c")],
    );
    assert_eq!(pending.len(), 2, "a line that no file can have is left out");
    let mut over = Over::scripted(vec![Err(EngineError::engine("no such line")), Ok(bp(8, 0))]);
    let outcome = over.launch(launch_spec(true)).expect("launch");
    assert!(matches!(outcome, LaunchOutcome::Stopped(_)));
    assert_eq!(over.engine.rec.breakpoints.len(), 2);
    let mut dead = Over::dead();
    assert!(matches!(dead.launch(launch_spec(true)), Err(BackendError::Closed)));
}

#[test]
fn disconnect_marshals_terminate_flag() {
    let mut over = Over::new(FakeEngine::default());
    over.disconnect(true);
    over.disconnect(false);
    assert_eq!(over.engine.rec.detaches, vec![true, false]);
}

#[test]
fn attach_by_pid_maps_through_and_records_pid() {
    let mut over = Over::new(FakeEngine::default());
    assert_eq!(over.backend.debugger_pid(), None, "no pid before attach");
    let outcome = over
        .attach(AttachSpec { pid: Some(4242), wait_for: None }, |_| None)
        .expect("attach by pid");
    assert!(matches!(outcome, AttachOutcome::Stopped(_)), "got {outcome:?}");
    assert_eq!(over.backend.debugger_pid(), Some(4242));
    assert_eq!(over.engine.rec.attaches, vec![4242]);
}

#[test]
fn attach_exited_and_terminated_map_through() {
    let spec = AttachSpec { pid: Some(1), wait_for: None };
    let mut exited = Over::with(|f| f.stop_outcome = StopOutcome::Exited { code: Some(7) });
    match exited.attach(spec.clone(), |_| None).expect("attach") {
        AttachOutcome::Exited { code } => assert_eq!(code, Some(7)),
        other => panic!("expected Exited, got {other:?}"),
    }
    let mut terminated = Over::with(|f| f.stop_outcome = StopOutcome::Terminated);
    match terminated.attach(spec, |_| None).expect("attach") {
        AttachOutcome::Terminated => {}
        other => panic!("expected Terminated, got {other:?}"),
    }
}

#[test]
fn attach_wait_for_resolves_a_live_process_and_records_pid() {
    let mut over = Over::new(FakeEngine::default());
    let outcome = over
        .attach(AttachSpec { pid: None, wait_for: Some("me.exe".to_string()) }, |name| {
            assert_eq!(name, "me.exe");
            Some(77)
        })
        .expect("attach via wait_for");
    assert!(matches!(outcome, AttachOutcome::Stopped(_)), "got {outcome:?}");
    assert_eq!(over.backend.debugger_pid(), Some(77));
}

#[test]
fn wait_for_resolves_then_times_out() {
    let mut calls = 0;
    let mut lookup = |_name: &str| -> Option<u32> {
        calls += 1;
        if calls > 2 {
            Some(9999)
        } else {
            None
        }
    };
    let pid = wait_for("target.exe", &mut lookup, 5000).expect("resolves once it appears");
    assert_eq!(pid, 9999);
    let err = wait_for("ghost.exe", &mut |_: &str| None, 20).expect_err("must time out");
    assert!(
        err.to_string().contains("wait_for: no process named 'ghost.exe' appeared"),
        "unexpected error: {}",
        err.to_string()
    );
}

#[test]
fn an_attach_needs_a_process() {
    for pid in [-1, i64::from(u32::MAX) + 1] {
        assert!(attach_target(AttachSpec { pid: Some(pid), wait_for: None }).is_err());
    }
    assert!(attach_target(AttachSpec { pid: None, wait_for: None }).is_err());
    match attach_target(AttachSpec { pid: Some(5), wait_for: Some("x".to_string()) }) {
        Ok(AttachTarget::Pid(5)) => {}
        _ => panic!("an id goes before a name"),
    }
}

// ---- execution ----

#[test]
fn cont_maps_some_stop_through_with_infinite_budget() {
    let mut over = Over::new(FakeEngine::default());
    let outcome = over.cont(99).expect("cont returns a stop");
    assert!(matches!(outcome, StopOutcome::Stopped(_)), "got {outcome:?}");
    assert_eq!(over.engine.rec.gos, vec![u32::MAX]);
    assert_eq!(over.engine.rec.break_ins, 0);
}

#[test]
fn cont_none_falls_back_to_break_in() {
    let mut over = Over::with(|f| f.go_returns_none = true);
    let outcome = over.cont(1).expect("cont returns the fallback stop");
    assert!(matches!(outcome, StopOutcome::Stopped(_)), "got {outcome:?}");
    assert_eq!(over.engine.rec.gos, vec![u32::MAX]);
    assert_eq!(over.engine.rec.break_ins, 1);
}

#[test]
fn step_marshals_each_kind() {
    for kind in [StepKind::Over, StepKind::Into, StepKind::Out] {
        let mut over = Over::new(FakeEngine::default());
        match over.call(step(kind, 99, Some(Granularity::Instruction))) {
            Some(EngineReply::Stop(Ok(StopOutcome::Stopped(_)))) => {}
            other => panic!("step maps the engine stop through, got {other:?}"),
        }
        assert_eq!(over.engine.rec.steps, vec![kind]);
    }
}

#[test]
fn cancelled_cont_midflight_does_not_wedge_the_backend() {
    let mut over = Over::new(FakeEngine::default());
    let (flow, cmd) = ContFlow::begin(1);
    let orphaned = over.call(cmd);
    assert_eq!(over.engine.rec.gos, vec![u32::MAX], "the command reached the engine");
    drop((flow, orphaned));
    over.engine.interrupt_handle().interrupt();
    let threads = over.threads().expect("a follow-up op still works");
    assert!(threads.is_empty());
    assert!(over.cont(1).is_ok());
    assert!(!over.engine.interrupt_flag.load(Ordering::Acquire), "a new run lowers the flag");
}

#[test]
fn disconnect_interrupts_before_detaching() {
    let mut over = Over::new(FakeEngine::default());
    let flag = Arc::clone(&over.engine.interrupt_flag);
    assert!(!flag.load(Ordering::Acquire), "flag starts clear");
    over.disconnect(true);
    assert!(flag.load(Ordering::Acquire));
    assert_eq!(over.engine.rec.detaches, vec![true]);
    assert_eq!(over.engine.rec.interrupt_flag_at_detach, vec![true]);
}

// ---- the verbs of this backend alone ----

#[test]
fn open_dump_marshals_path_and_returns_outcome() {
    let scripted = DumpOutcome {
        stop: Some(StopInfo {
            reason: "exception".to_string(),
            thread_id: 3,
            description: "Access violation".to_string(),
            hit_breakpoint_ids: Vec::new(),
        }),
        crash_location: Some("C:\\src\\crash.c:42".to_string()),
    };
    let mut over = Over::with(|f| f.dump_outcome = Some(Ok(scripted.clone())));
    let outcome = over.open_dump("C:\\dumps\\crash.dmp").expect("open_dump");
    assert_eq!(outcome, scripted);
    assert_eq!(over.engine.rec.open_dumps, vec!["C:\\dumps\\crash.dmp".to_string()]);
}

#[test]
fn attach_kernel_marshals_connection_and_maps_stopped() {
    let stop = StopInfo {
        reason: "break".to_string(),
        thread_id: 1,
        description: String::new(),
        hit_breakpoint_ids: Vec::new(),
    };
    let mut over = Over::with(|f| f.stop_outcome = StopOutcome::Stopped(stop.clone()));
    let outcome = over.attach_kernel("net:port=50000,key=1.2.3.4").expect("attach_kernel");
    assert_eq!(outcome, AttachOutcome::Stopped(stop));
    assert_eq!(over.engine.rec.attach_kernels, vec!["net:port=50000,key=1.2.3.4".to_string()]);
}

#[test]
fn attach_kernel_maps_exited() {
    let mut over = Over::with(|f| f.stop_outcome = StopOutcome::Exited { code: Some(7) });
    let outcome = over.attach_kernel("net:port=50000,key=k").expect("attach_kernel");
    assert_eq!(outcome, AttachOutcome::Exited { code: Some(7) });
    assert_eq!(over.engine.rec.attach_kernels, vec!["net:port=50000,key=k".to_string()]);
}

#[test]
fn attach_kernel_maps_terminated() {
    let mut over = Over::with(|f| f.stop_outcome = StopOutcome::Terminated);
    let outcome = over.attach_kernel("net:port=50000,key=k").expect("attach_kernel");
    assert_eq!(outcome, AttachOutcome::Terminated);
    assert_eq!(over.engine.rec.attach_kernels, vec!["net:port=50000,key=k".to_string()]);
}

#[test]
fn analyze_marshals_and_returns_text() {
    let mut over =
        Over::with(|f| f.analyze_result = Some(Ok("BUGCHECK_CODE: c0000005".to_string())));
    let text = over.analyze().expect("analyze");
    assert_eq!(text, "BUGCHECK_CODE: c0000005");
    assert_eq!(over.engine.rec.analyzes, 1);
}

#[test]
fn open_dump_engine_error_maps_to_dap() {
    let mut over =
        Over::with(|f| f.dump_outcome = Some(Err(EngineError::engine("dump file is corrupt"))));
    let err = over.open_dump("C:\\dumps\\bad.dmp").expect_err("a scripted engine error");
    assert!(matches!(err, BackendError::Dap { .. }), "got {err:?}");
    assert!(err.to_string().contains("dump file is corrupt"));
}

#[test]
fn analyze_engine_error_maps_to_dap() {
    let mut over =
        Over::with(|f| f.analyze_result = Some(Err(EngineError::engine("!analyze failed"))));
    let err = over.analyze().expect_err("a scripted engine error");
    assert!(matches!(err, BackendError::Dap { .. }), "got {err:?}");
    assert!(err.to_string().contains("!analyze failed"));
}

#[test]
fn closed_channel_surfaces_closed_for_each_verb() {
    let mut over = Over::dead();
    let dump_err = over.open_dump("C:\\x.dmp").expect_err("open_dump on a dead engine");
    assert!(matches!(dump_err, BackendError::Closed), "got {dump_err:?}");
    let kernel_err = over.attach_kernel("net:port=1,key=k").expect_err("a dead engine");
    assert!(matches!(kernel_err, BackendError::Closed), "got {kernel_err:?}");
    let analyze_err = over.analyze().expect_err("analyze on a dead engine");
    assert!(matches!(analyze_err, BackendError::Closed), "got {analyze_err:?}");
}

#[test]
fn every_reply_of_a_dead_engine_is_closed() {
    assert_eq!(went_result(None), Err(BackendError::Closed));
    assert_eq!(frames_result(None), Err(BackendError::Closed));
    let mut over = Over::dead();
    assert_eq!(over.cont(0), Err(BackendError::Closed));
    assert_eq!(over.read_memory("0", 1), Err(BackendError::Closed));
    assert_eq!(over.disassemble("0", 1), Err(BackendError::Closed));
    assert_eq!(over.variables(1), Err(BackendError::Closed));
    assert_eq!(over.stack_trace(0, 0, 0), Err(BackendError::Closed));
    assert_eq!(over.evaluate("1", None, EvalMode::Expression), Err(BackendError::Closed));
    assert_eq!(over.evaluate("r", None, EvalMode::Repl), Err(BackendError::Closed));
}

// ---- inspection ----

fn three_frames() -> Vec<Frame> {
    vec![
        Frame {
            index: 0,
            id: 0,
            name: "compute".to_string(),
            source_path: Some("C:\\src\\test_target.c".to_string()),
            line: 12,
            instruction_pointer: Some("0x00007FF600001000".to_string()),
        },
        Frame {
            index: 1,
            id: 1,
            name: "main".to_string(),
            source_path: Some("C:\\src\\test_target.c".to_string()),
            line: 30,
            instruction_pointer: Some("0x00007FF600002000".to_string()),
        },
        Frame {
            index: 2,
            id: 2,
            name: "kernel32!BaseThreadInitThunk".to_string(),
            source_path: None,
            line: 0,
            instruction_pointer: Some("0x00007FFE12345678".to_string()),
        },
    ]
}

#[test]
fn stack_trace_maps_three_frames() {
    let mut over = Over::with(|f| f.frames = three_frames());
    let (frames, total) = over.stack_trace(7, 0, 20).expect("stack_trace returns frames");
    assert_eq!(total, 3);
    assert_eq!(frames, three_frames());
    assert_eq!(over.engine.rec.stack_traces, vec![(7, 20)]);
}

#[test]
fn stack_trace_honors_start_and_levels() {
    let mut over = Over::with(|f| f.frames = three_frames());
    let (frames, total) = over.stack_trace(1, 1, 2).expect("windowed stack_trace");
    assert_eq!(frames.len(), 2, "start=1 drops the leading frame");
    assert_eq!(frames[0].name, "main");
    assert_eq!(frames[0].index, 1, "absolute frame index is preserved");
    assert_eq!(total, 3);
    assert_eq!(over.engine.rec.stack_traces, vec![(1, 3)]);
}

#[test]
fn a_stack_window_may_lie_outside() {
    assert_eq!(stack_trace(1, 0, 0), EngineCmd::StackTrace { thread_id: 1, max: ALL_FRAMES });
    assert_eq!(
        stack_trace(1, i64::MAX, 2),
        EngineCmd::StackTrace { thread_id: 1, max: i64::MAX },
        "the bound does not wrap"
    );
    assert_eq!(windowed(three_frames(), 9), (vec![], 3));
    assert_eq!(windowed(three_frames(), -4), (three_frames(), 3));
}

#[test]
fn scopes_yields_locals_with_frame_encoded_reference() {
    assert_eq!(scopes(0), vec![Scope { name: "Locals".to_string(), variables_reference: 1 }]);
    assert_eq!(scopes(3)[0].variables_reference, 4);
}

#[test]
fn variables_decodes_frame_and_maps_locals() {
    let var = |name: &str, value: &str| Variable {
        name: name.to_string(),
        value: value.to_string(),
        ty: "int".to_string(),
        variables_reference: 0,
        named: 0,
        indexed: 0,
    };
    let scripted = vec![var("i", "0n5"), var("result", "0n45")];
    let mut over = Over::with(|f| f.locals = scripted.clone());
    let vars = over.variables(1).expect("variables(1)");
    assert_eq!(vars, scripted);
    for v in &vars {
        assert_eq!((v.variables_reference, v.named, v.indexed), (0, 0, 0));
    }
    assert_eq!(over.engine.rec.locals_frames, vec![0]);
}

#[test]
fn variables_zero_reference_is_empty() {
    let mut over = Over::new(FakeEngine::default());
    let vars = over.variables(0).expect("variables(0)");
    assert!(vars.is_empty());
    assert!(over.engine.rec.locals_frames.is_empty());
}

#[test]
fn a_scope_leads_to_its_frame() {
    for frame in [0, 1, 500] {
        let reference = scopes(frame)[0].variables_reference;
        assert_eq!(variables(reference), Some(EngineCmd::Locals { frame_index: frame }));
    }
}

#[test]
fn evaluate_expression_forms_double_question_command() {
    let mut over = Over::with(|f| f.evaluate_result = "int 0n20".to_string());
    let result = over.evaluate("10 + 10", Some(0), EvalMode::Expression).expect("evaluate");
    assert_eq!(result.result, "int 0n20");
    assert_eq!(result.ty, "");
    assert_eq!(result.variables_reference, 0);
    assert_eq!(over.engine.rec.evaluates, vec!["?? 10 + 10".to_string()]);
    assert!(over.engine.rec.executes.is_empty());
}

#[test]
fn evaluate_repl_marshals_raw_command_no_backtick() {
    let mut over =
        Over::with(|f| f.execute_result = "frame 0: compute\nframe 1: main\n".to_string());
    assert!(over.backend.supports_command_repl_mode());
    let result = over.evaluate("k", None, EvalMode::Repl).expect("evaluate repl");
    assert_eq!(result.result, "frame 0: compute\nframe 1: main\n");
    assert_eq!(result.ty, "");
    assert_eq!(result.variables_reference, 0);
    assert_eq!(over.engine.rec.executes, vec!["k".to_string()]);
    assert!(over.engine.rec.evaluates.is_empty());
}

#[test]
fn read_memory_parses_address_and_maps_bytes() {
    let mut over = Over::with(|f| f.memory = vec![0xDE, 0xAD, 0xBE, 0xEF]);
    let mem = over.read_memory("0x7FF600001000", 4).expect("read_memory");
    assert_eq!(mem.address, "0x00007FF600001000");
    assert_eq!(mem.data, vec![0xDE, 0xAD, 0xBE, 0xEF]);
    assert_eq!(over.engine.rec.read_memories, vec![(0x7FF600001000, 4)]);
}

#[test]
fn read_memory_decimal_address_and_truncation() {
    let mut over = Over::with(|f| f.memory = vec![0x01, 0x02]);
    let mem = over.read_memory("4096", 8).expect("read_memory decimal");
    assert_eq!(mem.data, vec![0x01, 0x02]);
    assert_eq!(over.engine.rec.read_memories, vec![(4096, 8)]);
}

#[test]
fn read_memory_rejects_bad_address() {
    let mut over = Over::new(FakeEngine::default());
    let err = over.read_memory("not-an-address", 4).expect_err("a bad address must error");
    assert!(err.to_string().contains("invalid address"));
    assert!(over.engine.rec.read_memories.is_empty());
}

#[test]
fn disassemble_maps_instructions() {
    let insn = |address: &str, instruction: &str| Instruction {
        address: address.to_string(),
        instruction: instruction.to_string(),
        bytes: String::new(),
        symbol: String::new(),
        source_path: None,
        line: 0,
    };
    let scripted = vec![
        insn("0x00007FF600001000", "mov dword ptr [rsp+8],ecx"),
        insn("0x00007FF600001008", "ret"),
    ];
    let mut over = Over::with(|f| f.instructions = scripted.clone());
    let insns = over.disassemble("0x7FF600001000", 2).expect("disassemble");
    assert_eq!(insns, scripted);
    assert_eq!(over.engine.rec.disassembles, vec![(0x7FF600001000, 2)]);
    assert!(over.disassemble("0xzz", 2).is_err());
}

#[test]
fn accepts_0x_prefixed_hex() {
    assert_eq!(parse_address("0x7FF600001000").unwrap(), 0x7FF6_0000_1000);
    assert_eq!(parse_address("0xdeadbeef").unwrap(), 0xDEAD_BEEF);
}

#[test]
fn accepts_uppercase_0x_prefix() {
    assert_eq!(parse_address("0X1000").unwrap(), 0x1000);
    assert_eq!(parse_address("0XABCDEF").unwrap(), 0xABCDEF);
}

#[test]
fn accepts_bare_decimal() {
    assert_eq!(parse_address("4096").unwrap(), 4096);
    assert_eq!(parse_address("0").unwrap(), 0);
}

#[test]
fn trims_leading_and_trailing_whitespace() {
    assert_eq!(parse_address("  0x1000  ").unwrap(), 0x1000);
    assert_eq!(parse_address("\t4096\n").unwrap(), 4096);
    assert_eq!(parse_address(" 0Xff ").unwrap(), 0xFF);
}

#[test]
fn hex_overflow_is_error_not_panic() {
    let err = parse_address("0x10000000000000000").expect_err("hex overflow must error");
    assert!(matches!(err, BackendError::Dap { .. }), "got {err:?}");
    assert!(err.to_string().contains("invalid address"));
}

#[test]
fn u64_max_is_accepted() {
    assert_eq!(parse_address("0xFFFFFFFFFFFFFFFF").unwrap(), u64::MAX);
}

#[test]
fn empty_string_is_error() {
    let err = parse_address("").expect_err("empty must error");
    assert!(matches!(err, BackendError::Dap { .. }), "got {err:?}");
    assert!(err.to_string().contains("invalid address"));
}

#[test]
fn whitespace_only_is_error() {
    let err = parse_address("   ").expect_err("whitespace-only must error");
    assert!(matches!(err, BackendError::Dap { .. }), "got {err:?}");
    assert!(err.to_string().contains("invalid address"));
}

#[test]
fn non_numeric_is_error() {
    let err = parse_address("not-an-address").expect_err("garbage must error");
    assert!(matches!(err, BackendError::Dap { .. }), "got {err:?}");
}

#[test]
fn addresses_may_have_a_plus_sign() {
    assert_eq!(parse_address("+10").unwrap(), 10);
    assert_eq!(parse_address("0x+10").unwrap(), 0x10);
    assert!(parse_address("+").is_err());
    assert!(parse_address("-1").is_err());
    assert!(parse_address("0x").is_err());
}

// ---- the engine thread ----

#[test]
fn engine_cmd_round_trips_through_call() {
    let scripted = vec![
        ThreadInfo { id: 7, name: "sys=101".to_string() },
        ThreadInfo { id: 9, name: "sys=102".to_string() },
    ];
    let mut over = Over::with(|f| f.threads = scripted.clone());
    assert_eq!(over.threads().expect("threads reply"), scripted);
}

/// Runs an engine thread to its end and lists what it did.
fn live(
    enter: Result<(), EngineError>,
    make: Result<FakeEngine, EngineError>,
    waiting: bool,
    cmds: Vec<EngineCmd>,
) -> (Result<(), BackendError>, Vec<EngineReply>, Option<FakeEngine>, Option<i64>) {
    let mut enter = Some(enter);
    let mut make = Some(make);
    let mut cmds = cmds.into_iter();
    let mut engine: Option<FakeEngine> = None;
    let mut ready = None;
    let mut replies = Vec::new();
    let (mut thread, mut action) = EngineThread::start();
    loop {
        let event = match action {
            ThreadAction::EnterCom => ThreadEvent::Entered(enter.take().expect("once")),
            ThreadAction::MakeEngine => match make.take().expect("once") {
                Ok(made) => {
                    engine = Some(made);
                    ThreadEvent::Made(Ok(()))
                }
                Err(e) => ThreadEvent::Made(Err(e)),
            },
            ThreadAction::SignalReady(signal) => {
                ready = Some(signal);
                ThreadEvent::Signalled { delivered: waiting }
            }
            ThreadAction::Receive => ThreadEvent::Received(cmds.next()),
            ThreadAction::Run(cmd) => {
                replies.push(dispatch(engine.as_mut().expect("an engine"), cmd));
                ThreadEvent::Ran
            }
            ThreadAction::Detach { terminate } => {
                let _ = engine.as_mut().expect("an engine").detach(terminate);
                ThreadEvent::Detached
            }
            ThreadAction::Exit { code } => return (engine_ready(ready), replies, engine, code),
        };
        action = thread.on(event);
    }
}

#[test]
fn readiness_failure_surfaces_construction_error() {
    let failure = EngineError::engine("failed to initialize DbgEng: scripted create failure");
    let (ready, replies, engine, _) = live(Ok(()), Err(failure), true, vec![]);
    match ready {
        Ok(_) => panic!("a failing constructor must surface its error at readiness"),
        Err(err) => assert!(err.to_string().contains("scripted create failure")),
    }
    assert!(replies.is_empty() && engine.is_none());
}

#[test]
fn readiness_success_yields_a_ready_backend() {
    let (ready, replies, _, _) =
        live(Ok(()), Ok(FakeEngine::default()), true, vec![EngineCmd::Threads]);
    assert!(ready.is_ok());
    assert_eq!(replies, vec![EngineReply::Threads(Ok(Vec::new()))]);
}

#[test]
fn spawn_and_serve_with_no_com_on_calling_thread() {
    let mut over = Over::new(FakeEngine::default());
    assert!(over.modules().expect("modules").is_empty());
}

#[test]
fn dropping_backend_terminates_the_thread() {
    let (_, _, engine, code) = live(Ok(()), Ok(FakeEngine::default()), true, vec![]);
    assert_eq!(code, None, "the normal teardown carries no exit code");
    assert_eq!(engine.expect("an engine").rec.detaches, vec![false], "detached, not killed");
}

#[test]
fn a_thread_nobody_waits_for_detaches_at_once() {
    let (_, replies, engine, _) =
        live(Ok(()), Ok(FakeEngine::default()), false, vec![EngineCmd::Threads]);
    assert!(replies.is_empty(), "no command is taken");
    assert_eq!(engine.expect("an engine").rec.detaches, vec![false]);
}

#[test]
fn an_apartment_that_fails_ends_the_thread() {
    let failure = EngineError::engine("no apartment");
    let (ready, _, engine, _) = live(Err(failure), Ok(FakeEngine::default()), true, vec![]);
    assert!(engine.is_none(), "no engine is made");
    assert!(matches!(ready, Err(BackendError::Detect(_))));
}

#[test]
fn pause_sets_the_interrupt_flag() {
    let over = Over::new(FakeEngine::default());
    let flag = Arc::clone(&over.engine.interrupt_flag);
    assert!(!flag.load(Ordering::Acquire), "flag starts clear");
    over.engine.interrupt_handle().interrupt();
    assert!(flag.load(Ordering::Acquire));
}

#[test]
fn connecting_reports_what_failed() {
    assert_eq!(
        engine_ready(Some(Err(EngineError::engine("why")))),
        Err(BackendError::Detect("failed to initialize DbgEng: why".to_string()))
    );
    assert_eq!(
        engine_ready(None),
        Err(BackendError::Spawn(
            "failed to initialize DbgEng: engine thread exited before readiness".to_string()
        ))
    );
    assert_eq!(sink_installed(true), Ok(()));
    assert_eq!(
        sink_installed(false),
        Err(BackendError::Spawn(
            "failed to initialize DbgEng: engine thread closed before sink install".to_string()
        ))
    );
    assert_eq!(command_buffer(0), 1);
    assert_eq!(command_buffer(CMD_BUFFER), 8);
}
