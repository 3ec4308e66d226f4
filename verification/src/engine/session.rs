//! Starting and ending a session: creating the engine, launching, attaching, opening a crash
//! dump, and detaching.
use super::host::{Answer, Interface, Next, RawLine, Request};
use super::inspect::{line_at, name_text};
use super::{Engine, LaunchReq, WaitResult, relabeled, with_reason};
use super::{
    CREATE_NO_WINDOW, DEBUG_END_ACTIVE_DETACH, DEBUG_END_ACTIVE_TERMINATE, DEBUG_END_PASSIVE,
    DEBUG_ENGOPT_INITIAL_BREAK, DEBUG_ONLY_THIS_PROCESS, FIRST_BREAK_TIMEOUT, INFINITE,
};
use crate::decode::cstr_from_buf;
use crate::error::{ComError, EngineError};
use crate::text::{contains_char, decimal, optional_text, render_i64, text2, text3, texts};
use crate::types::{DumpOutcome, StopInfo, StopOutcome};
use vstd::prelude::*;
use vstd::string::*;

verus! {

broadcast use vstd::string::group_string_axioms;

// ---- the command line of a launch ----

/// The arguments of a command line, each after a space.
pub open spec fn arguments_text(args: Seq<Seq<char>>) -> Seq<char>
    decreases args.len(),
{
    if args.len() == 0 {
        Seq::empty()
    } else {
        arguments_text(args.drop_last()) + " "@ + args.last()
    }
}

/// The command line of a launch: the program in quotes, so that its path may hold spaces, then
/// the arguments.
pub open spec fn command_line_text(program: Seq<char>, args: Seq<Seq<char>>) -> Seq<char> {
    "\""@ + program + "\""@ + arguments_text(args)
}

/// The command line of a launch.
pub fn command_line(program: &str, args: &Vec<String>) -> (r: String)
    ensures
        r@ == command_line_text(program@, texts(args@)),
{
    let mut out: String = text3("\"", program, "\"");
    let ghost head = out@;
    let mut i: usize = 0;
    assert(texts(args@).take(0) =~= Seq::<Seq<char>>::empty());
    assert(out@ =~= head + arguments_text(texts(args@).take(0)));
    while i < args.len()
        invariant
            i <= args@.len(),
            out@ == head + arguments_text(texts(args@).take(i as int)),
        decreases args@.len() - i,
    {
        let ghost longer = texts(args@).take(i + 1);
        assert(longer.drop_last() =~= texts(args@).take(i as int));
        assert(longer.last() == args@[i as int]@);
        out.append(" ");
        out.append(args[i].as_str());
        assert(out@ =~= head + arguments_text(longer));
        i = i + 1;
    }
    assert(texts(args@).take(args@.len() as int) =~= texts(args@));
    out
}

// ---- opening a live session ----

/// What a live session is opened on.
pub enum Target {
    Launch(LaunchReq),
    Pid(u32),
    Kernel(String),
}

/// What opening a session is waiting for.
pub enum OpenPhase {
    /// The privilege to debug other processes to be asked for.
    Privilege,
    /// The break at the start of the target to be asked for.
    Options,
    /// The target to be opened.
    Open,
    /// The first break.
    Wait,
    /// The request for a first break to be taken back, whatever the wait brought.
    Clear(Result<WaitResult, EngineError>),
    /// The name of the main module of a launched program.
    Module(StopOutcome),
    /// Its symbols to be loaded.
    Reload(StopOutcome),
    Over,
}

/// The opening of a live session, up to its first break.
pub struct OpenFlow {
    pub target: Target,
    pub phase: OpenPhase,
}

impl Target {
    /// Why the target cannot be named to the engine, if it cannot: a text with a zero in it.
    pub open spec fn unnameable(self) -> Option<Seq<char>> {
        match self {
            Target::Launch(req) => if command_line_text(req.program@, texts(req.args@)).contains(
                '\0',
            ) {
                Some("launch: program/args contain an interior NUL byte"@)
            } else if req.cwd matches Some(cwd) && cwd@.contains('\0') {
                Some("launch: working directory contains an interior NUL byte"@)
            } else {
                None
            },
            Target::Pid(_) => None,
            Target::Kernel(connection) => if connection@.contains('\0') {
                Some("attach_kernel: connection contains an interior NUL byte"@)
            } else {
                None
            },
        }
    }

    /// Whether `request` opens the target.
    pub open spec fn opened_by(self, request: Request) -> bool {
        match self {
            Target::Launch(req) => request matches Request::CreateProcess {
                command_line,
                create_flags,
                cwd,
            } && command_line@ == command_line_text(req.program@, texts(req.args@)) && create_flags
                == DEBUG_ONLY_THIS_PROCESS | CREATE_NO_WINDOW && cwd == req.cwd,
            Target::Pid(pid) => request == Request::AttachProcess(pid),
            Target::Kernel(connection) => request == Request::AttachKernel(connection),
        }
    }

    /// The operation that opens the target.
    pub open spec fn context(self) -> Seq<char> {
        match self {
            Target::Launch(_) => "CreateProcess2"@,
            Target::Pid(_) => "AttachProcess"@,
            Target::Kernel(_) => "AttachKernel"@,
        }
    }

    /// How long the first break is waited for; a kernel is waited for without end.
    pub open spec fn timeout(self) -> u32 {
        match self {
            Target::Kernel(_) => INFINITE,
            _ => FIRST_BREAK_TIMEOUT,
        }
    }

    /// What is reported when no first break came.
    pub open spec fn timeout_text(self) -> Seq<char> {
        match self {
            Target::Launch(_) => "launch: timed out waiting for the initial breakpoint"@,
            Target::Pid(_) => "attach: timed out waiting for the initial break"@,
            Target::Kernel(_) => "attach_kernel: timed out waiting for the initial break"@,
        }
    }
}

/// Whether `request` loads the symbols of the module whose raw name is `name`.
pub open spec fn reloads(name: Seq<u8>, request: Request) -> bool {
    request matches Request::Reload(argument) && argument@ == "/f "@ + name_text(name)
}

impl OpenFlow {
    /// What the opening has asked for.
    pub open spec fn asked(self, request: Request) -> bool {
        match self.phase {
            OpenPhase::Privilege => request == Request::EnableDebugPrivilege,
            OpenPhase::Options => request == Request::AddEngineOptions(DEBUG_ENGOPT_INITIAL_BREAK),
            OpenPhase::Open => self.target.opened_by(request),
            OpenPhase::Wait => request == Request::Wait(self.target.timeout()),
            OpenPhase::Clear(_) => request == Request::RemoveEngineOptions(
                DEBUG_ENGOPT_INITIAL_BREAK,
            ),
            OpenPhase::Module(_) => request == Request::MainModuleName,
            OpenPhase::Reload(_) => request is Reload,
            OpenPhase::Over => false,
        }
    }

    /// Whether `answer` answers what the opening has asked for.
    pub open spec fn expects(self, answer: Answer) -> bool {
        exists|request: Request| self.asked(request) && #[trigger] request.answered_by(answer)
    }

    /// How an opening goes on from one answer to the next question.
    pub open spec fn steps(self, answer: Answer, after: OpenFlow, next: Next<StopOutcome>) -> bool {
        &&& after.target == self.target
        &&& match (self.phase, answer) {
            (OpenPhase::Privilege, Answer::Done(_)) => after.phase is Options && next
                == Next::<StopOutcome>::Ask(Request::AddEngineOptions(DEBUG_ENGOPT_INITIAL_BREAK)),
            (OpenPhase::Options, Answer::Done(Err(e))) => after.phase is Over && next.fails_op(
                "AddEngineOptions(INITIAL_BREAK)"@,
                e,
            ),
            (OpenPhase::Options, Answer::Done(Ok(_))) => match self.target.unnameable() {
                Some(message) => after.phase is Over && next.fails_engine(message),
                None => after.phase is Open && (next matches Next::Ask(request)
                    && self.target.opened_by(request)),
            },
            (OpenPhase::Open, Answer::Done(Err(e))) => after.phase is Over && next.fails_op(
                self.target.context(),
                e,
            ),
            (OpenPhase::Open, Answer::Done(Ok(_))) => after.phase is Wait && next
                == Next::<StopOutcome>::Ask(Request::Wait(self.target.timeout())),
            (OpenPhase::Wait, Answer::Waited(wait)) => after.phase == OpenPhase::Clear(wait) && next
                == Next::<StopOutcome>::Ask(
                Request::RemoveEngineOptions(DEBUG_ENGOPT_INITIAL_BREAK),
            ),
            (OpenPhase::Clear(Err(e)), Answer::Done(_)) => after.phase is Over && next
                == Next::<StopOutcome>::End(Err(e)),
            (OpenPhase::Clear(Ok(_)), Answer::Done(Err(e))) => after.phase is Over && next.fails_op(
                "RemoveEngineOptions(INITIAL_BREAK)"@,
                e,
            ),
            (OpenPhase::Clear(Ok(WaitResult::TimedOut)), Answer::Done(Ok(_))) => after.phase is Over
                && next.fails_engine(self.target.timeout_text()),
            (OpenPhase::Clear(Ok(WaitResult::Event(outcome))), Answer::Done(Ok(_))) => {
                if self.target is Launch {
                    after.phase == OpenPhase::Module(outcome) && next == Next::<StopOutcome>::Ask(
                        Request::MainModuleName,
                    )
                } else {
                    after.phase is Over && next == Next::<StopOutcome>::End(Ok(outcome))
                }
            },
            (OpenPhase::Module(outcome), Answer::Name(name)) => match name {
                Some(name) if !("/f "@ + name_text(name@)).contains('\0') => after.phase
                    == OpenPhase::Reload(outcome) && (next matches Next::Ask(request) && reloads(
                    name@,
                    request,
                )),
                _ => after.phase is Over && (next matches Next::End(Ok(o)) && relabeled(
                    outcome,
                    "Initial breakpoint"@,
                    o,
                )),
            },
            (OpenPhase::Reload(outcome), Answer::Done(_)) => after.phase is Over && (
            next matches Next::End(Ok(o)) && relabeled(outcome, "Initial breakpoint"@, o)),
            _ => false,
        }
    }

    /// Goes on from an answer.
    pub fn resume(&mut self, answer: Answer) -> (r: Next<StopOutcome>)
        requires
            old(self).expects(answer),
        ensures
            old(self).steps(answer, *final(self), r),
    {
        let mut phase = OpenPhase::Over;
        std::mem::swap(&mut phase, &mut self.phase);
        match (phase, answer) {
            (OpenPhase::Privilege, Answer::Done(_)) => {
                self.phase = OpenPhase::Options;
                Next::Ask(Request::AddEngineOptions(DEBUG_ENGOPT_INITIAL_BREAK))
            },
            (OpenPhase::Options, Answer::Done(Err(e))) => Next::End(
                Err(EngineError::op("AddEngineOptions(INITIAL_BREAK)", e)),
            ),
            (OpenPhase::Options, Answer::Done(Ok(_))) => match opening(&self.target) {
                Ok(request) => {
                    self.phase = OpenPhase::Open;
                    Next::Ask(request)
                },
                Err(e) => Next::End(Err(e)),
            },
            (OpenPhase::Open, Answer::Done(Err(e))) => {
                let context: &'static str = match self.target {
                    Target::Launch(_) => "CreateProcess2",
                    Target::Pid(_) => "AttachProcess",
                    Target::Kernel(_) => "AttachKernel",
                };
                Next::End(Err(EngineError::op(context, e)))
            },
            (OpenPhase::Open, Answer::Done(Ok(_))) => {
                self.phase = OpenPhase::Wait;
                let timeout: u32 = match self.target {
                    Target::Kernel(_) => INFINITE,
                    _ => FIRST_BREAK_TIMEOUT,
                };
                Next::Ask(Request::Wait(timeout))
            },
            (OpenPhase::Wait, Answer::Waited(wait)) => {
                self.phase = OpenPhase::Clear(wait);
                Next::Ask(Request::RemoveEngineOptions(DEBUG_ENGOPT_INITIAL_BREAK))
            },
            (OpenPhase::Clear(Err(e)), Answer::Done(_)) => Next::End(Err(e)),
            (OpenPhase::Clear(Ok(_)), Answer::Done(Err(e))) => Next::End(
                Err(EngineError::op("RemoveEngineOptions(INITIAL_BREAK)", e)),
            ),
            (OpenPhase::Clear(Ok(WaitResult::TimedOut)), Answer::Done(Ok(_))) => {
                let message: &str = match self.target {
                    Target::Launch(_) => "launch: timed out waiting for the initial breakpoint",
                    Target::Pid(_) => "attach: timed out waiting for the initial break",
                    Target::Kernel(_) => "attach_kernel: timed out waiting for the initial break",
                };
                Next::End(Err(EngineError::engine(message)))
            },
            (OpenPhase::Clear(Ok(WaitResult::Event(outcome))), Answer::Done(Ok(_))) => {
                let launched: bool = match self.target {
                    Target::Launch(_) => true,
                    _ => false,
                };
                if launched {
                    self.phase = OpenPhase::Module(outcome);
                    Next::Ask(Request::MainModuleName)
                } else {
                    Next::End(Ok(outcome))
                }
            },
            (OpenPhase::Module(outcome), Answer::Name(name)) => {
                match reload_main_module(name) {
                    Some(request) => {
                        self.phase = OpenPhase::Reload(outcome);
                        Next::Ask(request)
                    },
                    None => Next::End(Ok(with_reason(outcome, "Initial breakpoint"))),
                }
            },
            (OpenPhase::Reload(outcome), Answer::Done(_)) => Next::End(
                Ok(with_reason(outcome, "Initial breakpoint")),
            ),
            _ => {
                assert(false);
                Next::End(Ok(StopOutcome::Terminated))
            },
        }
    }
}

/// The request that opens a target, or why there is none.
fn opening(target: &Target) -> (r: Result<Request, EngineError>)
    ensures
        match target.unnameable() {
            Some(message) => r matches Err(e) && e.is_engine(message),
            None => r matches Ok(request) && target.opened_by(request),
        },
{
    match target {
        Target::Launch(req) => {
            let line: String = command_line(req.program.as_str(), &req.args);
            if contains_char(line.as_str(), '\0') {
                return Err(
                    EngineError::engine("launch: program/args contain an interior NUL byte"),
                );
            }
            let cwd: Option<String> = match &req.cwd {
                Some(cwd) => {
                    if contains_char(cwd.as_str(), '\0') {
                        return Err(
                            EngineError::engine(
                                "launch: working directory contains an interior NUL byte",
                            ),
                        );
                    }
                    Some(cwd.clone())
                },
                None => None,
            };
            Ok(
                Request::CreateProcess {
                    command_line: line,
                    create_flags: DEBUG_ONLY_THIS_PROCESS | CREATE_NO_WINDOW,
                    cwd,
                },
            )
        },
        Target::Pid(pid) => Ok(Request::AttachProcess(*pid)),
        Target::Kernel(connection) => if contains_char(connection.as_str(), '\0') {
            Err(EngineError::engine("attach_kernel: connection contains an interior NUL byte"))
        } else {
            Ok(Request::AttachKernel(connection.clone()))
        },
    }
}

/// The request that loads the symbols of the main module, if its name is known and can be given.
fn reload_main_module(name: Option<Vec<u8>>) -> (r: Option<Request>)
    ensures
        match name {
            Some(name) if !("/f "@ + name_text(name@)).contains('\0') => r is Some && reloads(
                name@,
                r->0,
            ),
            _ => r is None,
        },
{
    match name {
        Some(name) => reload_request(cstr_from_buf(name.as_slice())),
        None => None,
    }
}

/// The request that loads the symbols of the module `module`, if its name can be given.
pub fn reload_request(module: String) -> (r: Option<Request>)
    ensures
        r is Some <==> !("/f "@ + module@).contains('\0'),
        r matches Some(request) ==> request matches Request::Reload(argument) && argument@ == "/f "@
            + module@,
{
    let argument: String = text2("/f ", module.as_str());
    if contains_char(argument.as_str(), '\0') {
        None
    } else {
        Some(Request::Reload(argument))
    }
}

impl Engine {
    /// Begins to launch a program, up to its loader break. The conditions of an earlier session
    /// are forgotten first: its breakpoint ids start anew.
    pub fn launch(&mut self, req: LaunchReq) -> (r: (OpenFlow, Request))
        ensures
            final(self).conditions() == Map::<u32, Seq<char>>::empty(),
            final(self).dump() == old(self).dump(),
            r.0 == (OpenFlow { target: Target::Launch(req), phase: OpenPhase::Options }),
            r.0.asked(r.1),
            r.1 == Request::AddEngineOptions(0x20),
    {
        self.clear_conditions();
        (
            OpenFlow { target: Target::Launch(req), phase: OpenPhase::Options },
            Request::AddEngineOptions(DEBUG_ENGOPT_INITIAL_BREAK),
        )
    }

    /// Begins to attach to a running process, up to its first break.
    pub fn attach_pid(&mut self, pid: u32) -> (r: (OpenFlow, Request))
        ensures
            final(self).conditions() == Map::<u32, Seq<char>>::empty(),
            final(self).dump() == old(self).dump(),
            r.0 == (OpenFlow { target: Target::Pid(pid), phase: OpenPhase::Privilege }),
            r.0.asked(r.1),
            r.1 == Request::EnableDebugPrivilege,
    {
        self.clear_conditions();
        (
            OpenFlow { target: Target::Pid(pid), phase: OpenPhase::Privilege },
            Request::EnableDebugPrivilege,
        )
    }

    /// Begins to attach to a kernel, up to its first break.
    pub fn attach_kernel(&mut self, connection: &str) -> (r: (OpenFlow, Request))
        ensures
            final(self).conditions() == Map::<u32, Seq<char>>::empty(),
            final(self).dump() == old(self).dump(),
            r.0.phase is Options,
            r.0.target matches Target::Kernel(c) && c@ == connection@,
            r.0.asked(r.1),
            r.1 == Request::AddEngineOptions(0x20),
    {
        self.clear_conditions();
        (
            OpenFlow { target: Target::Kernel(connection.to_owned()), phase: OpenPhase::Options },
            Request::AddEngineOptions(DEBUG_ENGOPT_INITIAL_BREAK),
        )
    }
}

// ---- opening a crash dump ----

/// What opening a crash dump is waiting for.
pub enum DumpPhase {
    Open,
    /// The dump to be loaded.
    Wait,
    /// The source position of the crash.
    Location(Option<StopInfo>),
    Over,
}

/// The opening of a crash dump.
pub struct DumpFlow {
    pub phase: DumpPhase,
}

/// The stop that a loaded dump shows, if it shows one.
pub open spec fn dump_stop(outcome: StopOutcome) -> Option<StopInfo> {
    match outcome {
        StopOutcome::Stopped(info) => Some(info),
        _ => None,
    }
}

/// The crash position `<file>:<line>`, if a source line maps.
pub open spec fn crash_location_text(location: Result<Option<RawLine>, ComError>) -> Option<
    Seq<char>,
> {
    match location {
        Ok(Some(raw)) if name_text(raw.file@).len() > 0 => Some(
            name_text(raw.file@) + ":"@ + decimal(raw.line as int),
        ),
        _ => None,
    }
}

impl DumpFlow {
    /// What the opening has asked for.
    pub open spec fn asked(self, request: Request) -> bool {
        match self.phase {
            DumpPhase::Open => request is OpenDumpFile,
            DumpPhase::Wait => request == Request::Wait(FIRST_BREAK_TIMEOUT),
            DumpPhase::Location(_) => request == Request::SourceLocation,
            DumpPhase::Over => false,
        }
    }

    /// Whether `answer` answers what the opening has asked for.
    pub open spec fn expects(self, answer: Answer) -> bool {
        exists|request: Request| self.asked(request) && #[trigger] request.answered_by(answer)
    }

    /// How an opening goes on from one answer to the next question.
    pub open spec fn steps(self, answer: Answer, after: DumpFlow, next: Next<DumpOutcome>) -> bool {
        match (self.phase, answer) {
            (DumpPhase::Open, Answer::Done(Err(e))) => after.phase is Over && next.fails_op(
                "OpenDumpFile"@,
                e,
            ),
            (DumpPhase::Open, Answer::Done(Ok(_))) => after.phase is Wait && next
                == Next::<DumpOutcome>::Ask(Request::Wait(FIRST_BREAK_TIMEOUT)),
            (DumpPhase::Wait, Answer::Waited(Err(e))) => after.phase is Over && next
                == Next::<DumpOutcome>::End(Err(e)),
            (DumpPhase::Wait, Answer::Waited(Ok(WaitResult::TimedOut))) => after.phase is Over
                && next.fails_engine("open_dump: timed out waiting for the dump to load"@),
            (DumpPhase::Wait, Answer::Waited(Ok(WaitResult::Event(outcome)))) => after.phase
                == DumpPhase::Location(dump_stop(outcome)) && next == Next::<DumpOutcome>::Ask(
                Request::SourceLocation,
            ),
            (DumpPhase::Location(stop), Answer::Location(location)) => {
                &&& after.phase is Over
                &&& next matches Next::End(Ok(outcome)) && outcome.stop == stop && optional_text(
                    outcome.crash_location,
                ) == crash_location_text(location)
            },
            _ => false,
        }
    }

    /// Goes on from an answer. The session is a crash dump from the moment the file is open.
    pub fn resume(&mut self, engine: &mut Engine, answer: Answer) -> (r: Next<DumpOutcome>)
        requires
            old(self).expects(answer),
        ensures
            old(self).steps(answer, *final(self), r),
            final(engine).conditions() == old(engine).conditions(),
            final(engine).dump() == (old(engine).dump() || (old(self).phase is Open && (
            answer matches Answer::Done(Ok(_))))),
    {
        let mut phase = DumpPhase::Over;
        std::mem::swap(&mut phase, &mut self.phase);
        match (phase, answer) {
            (DumpPhase::Open, Answer::Done(Err(e))) => Next::End(
                Err(EngineError::op("OpenDumpFile", e)),
            ),
            (DumpPhase::Open, Answer::Done(Ok(_))) => {
                engine.is_dump = true;
                self.phase = DumpPhase::Wait;
                Next::Ask(Request::Wait(FIRST_BREAK_TIMEOUT))
            },
            (DumpPhase::Wait, Answer::Waited(Err(e))) => Next::End(Err(e)),
            (DumpPhase::Wait, Answer::Waited(Ok(WaitResult::TimedOut))) => Next::End(
                Err(EngineError::engine("open_dump: timed out waiting for the dump to load")),
            ),
            (DumpPhase::Wait, Answer::Waited(Ok(WaitResult::Event(outcome)))) => {
                let stop: Option<StopInfo> = match outcome {
                    StopOutcome::Stopped(info) => Some(info),
                    _ => None,
                };
                self.phase = DumpPhase::Location(stop);
                Next::Ask(Request::SourceLocation)
            },
            (DumpPhase::Location(stop), Answer::Location(location)) => {
                let raw: Option<RawLine> = match location {
                    Ok(raw) => raw,
                    Err(_) => None,
                };
                Next::End(Ok(DumpOutcome { stop, crash_location: location_text(line_at(raw)) }))
            },
            _ => {
                assert(false);
                Next::End(Ok(DumpOutcome { stop: None, crash_location: None }))
            },
        }
    }
}

/// A source position as `<file>:<line>`.
pub fn location_text(position: (Option<String>, i64)) -> (r: Option<String>)
    ensures
        match position.0 {
            Some(file) => r matches Some(text) && text@ == file@ + ":"@ + decimal(
                position.1 as int,
            ),
            None => r is None,
        },
{
    match position.0 {
        Some(file) => Some(text3(file.as_str(), ":", render_i64(position.1).as_str())),
        None => None,
    }
}

impl Engine {
    /// Begins to open a crash dump.
    pub fn open_dump(&mut self, path: &str) -> (r: (DumpFlow, Next<DumpOutcome>))
        ensures
            final(self).conditions() == Map::<u32, Seq<char>>::empty(),
            final(self).dump() == old(self).dump(),
            path@.contains('\0') ==> r.0.phase is Over && r.1.fails_engine(
                "open_dump: path contains an interior NUL byte"@,
            ),
            !path@.contains('\0') ==> r.0.phase is Open && (r.1 matches Next::Ask(
                Request::OpenDumpFile(p),
            ) && p@ == path@),
    {
        self.clear_conditions();
        if contains_char(path, '\0') {
            (
                DumpFlow { phase: DumpPhase::Over },
                Next::End(
                    Err(EngineError::engine("open_dump: path contains an interior NUL byte")),
                ),
            )
        } else {
            (
                DumpFlow { phase: DumpPhase::Open },
                Next::Ask(Request::OpenDumpFile(path.to_owned())),
            )
        }
    }
}

// ---- ending a session ----

/// How a session is ended: a crash dump passively, a live session by a kill or a detach.
pub open spec fn end_flags(dump: bool, terminate: bool) -> u32 {
    if dump {
        DEBUG_END_PASSIVE
    } else if terminate {
        DEBUG_END_ACTIVE_TERMINATE
    } else {
        DEBUG_END_ACTIVE_DETACH
    }
}

impl Engine {
    /// Begins to end the session; `terminate` kills a live target.
    pub fn detach(&self, terminate: bool) -> (r: Request)
        ensures
            r == Request::EndSession(end_flags(self.dump(), terminate)),
            self.dump() ==> r == Request::EndSession(0),
            !self.dump() && terminate ==> r == Request::EndSession(1),
            !self.dump() && !terminate ==> r == Request::EndSession(2),
    {
        let flags: u32 = if self.is_dump {
            DEBUG_END_PASSIVE
        } else if terminate {
            DEBUG_END_ACTIVE_TERMINATE
        } else {
            DEBUG_END_ACTIVE_DETACH
        };
        Request::EndSession(flags)
    }

    /// The end of the session, from the engine's answer. A session that ended leaves nothing
    /// behind; one that did not end is as it was.
    pub fn detached(&mut self, answer: Result<(), ComError>) -> (r: Result<(), EngineError>)
        ensures
            answer is Ok ==> r is Ok && !final(self).dump() && final(self).conditions()
                == Map::<u32, Seq<char>>::empty(),
            answer matches Err(e) ==> (r matches Err(err) && err.is_op("EndSession"@, e))
                && final(self).dump() == old(self).dump() && final(self).conditions() == old(
                self,
            ).conditions(),
    {
        match answer {
            Err(e) => Err(EngineError::op("EndSession", e)),
            Ok(_) => {
                self.is_dump = false;
                self.clear_conditions();
                Ok(())
            },
        }
    }
}

// ---- creating the engine ----

/// The steps of creating the engine, in order.
#[derive(Debug, Clone, Copy, PartialEq, Eq, Structural)]
pub enum CreatePhase {
    Client,
    Query(Interface),
    SymbolPath,
    GetOptions,
    SetOptions(u32),
    OutputCallbacks,
    EventCallbacks,
    Over,
}

/// The creation of the engine: its client, its other interfaces, the symbol settings, and the
/// callbacks.
pub struct CreateFlow {
    pub phase: CreatePhase,
}

/// Do not search the disk for image files while modules load.
pub const SYMOPT_NO_IMAGE_SEARCH: u32 = 0x0002_0000;

impl CreatePhase {
    /// What a step asks for.
    pub open spec fn request(self) -> Request
        recommends
            self !is Over,
    {
        match self {
            CreatePhase::Client => Request::CreateClient,
            CreatePhase::Query(interface) => Request::QueryInterface(interface),
            CreatePhase::SymbolPath => Request::SetSymbolPath("srv*"),
            CreatePhase::GetOptions => Request::GetSymbolOptions,
            CreatePhase::SetOptions(options) => Request::SetSymbolOptions(options),
            CreatePhase::OutputCallbacks => Request::SetOutputCallbacks,
            _ => Request::SetEventCallbacks,
        }
    }

    /// The operation that a step is.
    pub open spec fn context(self) -> Seq<char> {
        match self {
            CreatePhase::Client => "DebugCreate"@,
            CreatePhase::Query(Interface::Control) => "QueryInterface(IDebugControl4)"@,
            CreatePhase::Query(Interface::Symbols) => "QueryInterface(IDebugSymbols3)"@,
            CreatePhase::Query(Interface::DataSpaces) => "QueryInterface(IDebugDataSpaces4)"@,
            CreatePhase::Query(Interface::Registers) => "QueryInterface(IDebugRegisters2)"@,
            CreatePhase::Query(Interface::SystemObjects) => "QueryInterface(IDebugSystemObjects4)"@,
            CreatePhase::SymbolPath => "SetSymbolPath"@,
            CreatePhase::GetOptions => "GetSymbolOptions"@,
            CreatePhase::SetOptions(_) => "SetSymbolOptions"@,
            CreatePhase::OutputCallbacks => "SetOutputCallbacks"@,
            _ => "SetEventCallbacks"@,
        }
    }

    /// The step after one that succeeded and has no value.
    pub open spec fn successor(self) -> CreatePhase {
        match self {
            CreatePhase::Client => CreatePhase::Query(Interface::Control),
            CreatePhase::Query(Interface::Control) => CreatePhase::Query(Interface::Symbols),
            CreatePhase::Query(Interface::Symbols) => CreatePhase::Query(Interface::DataSpaces),
            CreatePhase::Query(Interface::DataSpaces) => CreatePhase::Query(Interface::Registers),
            CreatePhase::Query(Interface::Registers) => CreatePhase::Query(
                Interface::SystemObjects,
            ),
            CreatePhase::Query(Interface::SystemObjects) => CreatePhase::SymbolPath,
            CreatePhase::SymbolPath => CreatePhase::GetOptions,
            CreatePhase::SetOptions(_) => CreatePhase::OutputCallbacks,
            CreatePhase::OutputCallbacks => CreatePhase::EventCallbacks,
            _ => CreatePhase::Over,
        }
    }
}

impl CreateFlow {
    /// Whether `answer` answers what the creation has asked for.
    pub open spec fn expects(self, answer: Answer) -> bool {
        self.phase !is Over && self.phase.request().answered_by(answer)
    }

    /// How a creation goes on from one answer to the next question: a failed step ends it under
    /// the name of its operation, and the symbol options that were read are written back with
    /// the image search switched off.
    pub open spec fn steps(self, answer: Answer, after: CreateFlow, next: Next<()>) -> bool {
        match answer {
            Answer::Done(Err(e)) => after.phase is Over && next.fails_op(self.phase.context(), e),
            Answer::Number(Err(e)) => after.phase is Over && next.fails_op(
                self.phase.context(),
                e,
            ),
            Answer::Number(Ok(options)) => after.phase == CreatePhase::SetOptions(
                options | SYMOPT_NO_IMAGE_SEARCH,
            ) && next == Next::<()>::Ask(after.phase.request()),
            Answer::Done(Ok(_)) => after.phase == self.phase.successor() && next == (
            if after.phase is Over {
                Next::<()>::End(Ok(()))
            } else {
                Next::<()>::Ask(after.phase.request())
            }),
            _ => false,
        }
    }

    /// Goes on from an answer.
    pub fn resume(&mut self, answer: Answer) -> (r: Next<()>)
        requires
            old(self).expects(answer),
        ensures
            old(self).steps(answer, *final(self), r),
    {
        let context: &'static str = match self.phase {
            CreatePhase::Client => "DebugCreate",
            CreatePhase::Query(Interface::Control) => "QueryInterface(IDebugControl4)",
            CreatePhase::Query(Interface::Symbols) => "QueryInterface(IDebugSymbols3)",
            CreatePhase::Query(Interface::DataSpaces) => "QueryInterface(IDebugDataSpaces4)",
            CreatePhase::Query(Interface::Registers) => "QueryInterface(IDebugRegisters2)",
            CreatePhase::Query(Interface::SystemObjects) => "QueryInterface(IDebugSystemObjects4)",
            CreatePhase::SymbolPath => "SetSymbolPath",
            CreatePhase::GetOptions => "GetSymbolOptions",
            CreatePhase::SetOptions(_) => "SetSymbolOptions",
            CreatePhase::OutputCallbacks => "SetOutputCallbacks",
            _ => "SetEventCallbacks",
        };
        let failed: Option<ComError> = match answer {
            Answer::Done(Err(e)) => Some(e),
            Answer::Number(Err(e)) => Some(e),
            Answer::Number(Ok(options)) => {
                self.phase = CreatePhase::SetOptions(options | SYMOPT_NO_IMAGE_SEARCH);
                None
            },
            _ => {
                self.phase = match self.phase {
                    CreatePhase::Client => CreatePhase::Query(Interface::Control),
                    CreatePhase::Query(Interface::Control) => CreatePhase::Query(
                        Interface::Symbols,
                    ),
                    CreatePhase::Query(Interface::Symbols) => CreatePhase::Query(
                        Interface::DataSpaces,
                    ),
                    CreatePhase::Query(Interface::DataSpaces) => CreatePhase::Query(
                        Interface::Registers,
                    ),
                    CreatePhase::Query(Interface::Registers) => CreatePhase::Query(
                        Interface::SystemObjects,
                    ),
                    CreatePhase::Query(Interface::SystemObjects) => CreatePhase::SymbolPath,
                    CreatePhase::SymbolPath => CreatePhase::GetOptions,
                    CreatePhase::SetOptions(_) => CreatePhase::OutputCallbacks,
                    CreatePhase::OutputCallbacks => CreatePhase::EventCallbacks,
                    _ => CreatePhase::Over,
                };
                None
            },
        };
        match failed {
            Some(e) => {
                self.phase = CreatePhase::Over;
                Next::End(Err(EngineError::op(context, e)))
            },
            None => match self.phase {
                CreatePhase::Client => Next::Ask(Request::CreateClient),
                CreatePhase::Query(interface) => Next::Ask(Request::QueryInterface(interface)),
                CreatePhase::SymbolPath => Next::Ask(Request::SetSymbolPath("srv*")),
                CreatePhase::GetOptions => Next::Ask(Request::GetSymbolOptions),
                CreatePhase::SetOptions(options) => Next::Ask(Request::SetSymbolOptions(options)),
                CreatePhase::OutputCallbacks => Next::Ask(Request::SetOutputCallbacks),
                CreatePhase::EventCallbacks => Next::Ask(Request::SetEventCallbacks),
                CreatePhase::Over => Next::End(Ok(())),
            },
        }
    }
}

impl Engine {
    /// Begins to create the engine.
    pub fn create() -> (r: (CreateFlow, Request))
        ensures
            r.0.phase == CreatePhase::Client,
            r.1 == r.0.phase.request(),
            r.1 == Request::CreateClient,
    {
        (CreateFlow { phase: CreatePhase::Client }, Request::CreateClient)
    }
}

} // verus!
