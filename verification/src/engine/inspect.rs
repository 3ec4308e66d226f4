//! Looking at a stopped target: threads, stacks, variables, memory, instructions and modules.
use super::Engine;
use super::host::{Answer, Next, RawFrame, RawLine, RawSymbol, Request};
use crate::decode::{
    before_zero, buffers_end_at_their_first_zero, cstr_from_buf, utf8_lossy_text,
};
use crate::error::{ComError, EngineError};
use crate::text::{
    address_text, decimal, hex_text, optional_text, render_address, render_hex, render_u64, text2, text3,
};
use crate::types::{Frame, ThreadInfo};
use vstd::prelude::*;
use vstd::string::*;

verus! {

broadcast use vstd::string::group_string_axioms;

// ---- names and positions ----

/// The text of a raw name buffer.
pub open spec fn name_text(buf: Seq<u8>) -> Seq<char> {
    utf8_lossy_text(before_zero(buf))
}

/// The text of a raw name buffer that may be missing.
pub open spec fn optional_name(buf: Option<Vec<u8>>) -> Seq<char> {
    match buf {
        Some(buf) => name_text(buf@),
        None => Seq::empty(),
    }
}

/// The text of a raw name buffer, empty where it is missing.
pub fn name_or_empty(buf: Option<Vec<u8>>) -> (r: String)
    ensures
        r@ == optional_name(buf),
{
    match buf {
        Some(buf) => cstr_from_buf(buf.as_slice()),
        None => {
            let r: String = String::new();
            assert(r@ =~= Seq::<char>::empty());
            r
        },
    }
}

/// The text of a symbol: its name, and the displacement from its start where there is one.
pub open spec fn symbol_text(name: Seq<char>, displacement: u64) -> Seq<char> {
    if displacement > 0 {
        name + "+"@ + hex_text(displacement as nat)
    } else {
        name
    }
}

/// The text of the symbol that an address resolved to; a symbol without a name is none.
pub open spec fn symbol_of(raw: Option<RawSymbol>) -> Option<Seq<char>> {
    match raw {
        Some(raw) if name_text(raw.name@).len() > 0 => Some(
            symbol_text(name_text(raw.name@), raw.displacement),
        ),
        _ => None,
    }
}

/// The text of a symbol, unless it has no name.
pub fn render_symbol(name: String, displacement: u64) -> (r: Option<String>)
    ensures
        r is Some <==> name@.len() > 0,
        r matches Some(text) ==> text@ == symbol_text(name@, displacement),
{
    if name.as_str().is_empty() {
        None
    } else if displacement > 0 {
        Some(text3(name.as_str(), "+", render_hex(displacement).as_str()))
    } else {
        Some(name)
    }
}

/// The text of the symbol that an address resolved to.
pub fn symbolicate(raw: Option<RawSymbol>) -> (r: Option<String>)
    ensures
        r is Some <==> symbol_of(raw) is Some,
        r matches Some(text) ==> symbol_of(raw) == Some(text@),
{
    match raw {
        Some(raw) => render_symbol(cstr_from_buf(raw.name.as_slice()), raw.displacement),
        None => None,
    }
}

/// What an address is shown as: its symbol, or the address itself.
pub open spec fn place_text(raw: Option<RawSymbol>, address: u64) -> Seq<char> {
    match symbol_of(raw) {
        Some(text) => text,
        None => address_text(address as nat),
    }
}

/// What an address is shown as.
pub fn place(raw: Option<RawSymbol>, address: u64) -> (r: String)
    ensures
        r@ == place_text(raw, address),
{
    match symbolicate(raw) {
        Some(text) => text,
        None => render_address(address),
    }
}

/// The source position that an address maps to: a file with a name, and the line.
pub open spec fn is_line(raw: Option<RawLine>, file: Option<Seq<char>>, line: i64) -> bool {
    match raw {
        Some(raw) if name_text(raw.file@).len() > 0 => file == Some(name_text(raw.file@)) && line
            == raw.line,
        _ => file is None && line == 0,
    }
}

/// The source position of an address; none, at line zero, when no named file maps.
pub fn line_at(raw: Option<RawLine>) -> (r: (Option<String>, i64))
    ensures
        is_line(raw, optional_text(r.0), r.1),
{
    match raw {
        Some(raw) => source_line(cstr_from_buf(raw.file.as_slice()), raw.line),
        None => (None, 0),
    }
}

/// A source position, unless the file has no name.
pub fn source_line(file: String, line: u32) -> (r: (Option<String>, i64))
    ensures
        file@.len() > 0 ==> r == (Some(file), line as i64),
        file@.len() == 0 ==> r == (None::<String>, 0i64),
{
    if file.as_str().is_empty() {
        (None, 0)
    } else {
        (Some(file), line as i64)
    }
}

/// The source position of the current instruction, from the engine's answer.
pub fn current_source_location(answer: Result<Option<RawLine>, ComError>) -> (r: Result<
    Option<(String, i64)>,
    EngineError,
>)
    ensures
        match answer {
            Err(e) => r matches Err(err) && err.is_op("GetInstructionOffset"@, e),
            Ok(raw) => match r {
                Ok(Some(position)) => is_line(raw, Some(position.0@), position.1),
                Ok(None) => is_line(raw, None, 0),
                Err(_) => false,
            },
        },
{
    match answer {
        Err(e) => Err(EngineError::op("GetInstructionOffset", e)),
        Ok(raw) => {
            let (file, line) = line_at(raw);
            match file {
                Some(file) => Ok(Some((file, line))),
                None => Ok(None),
            }
        },
    }
}

/// The execution status, from the engine's answer.
pub fn execution_status(answer: Result<u32, ComError>) -> (r: Result<u32, EngineError>)
    ensures
        match answer {
            Ok(status) => r == Ok::<u32, EngineError>(status),
            Err(e) => r matches Err(err) && err.is_op("GetExecutionStatus"@, e),
        },
{
    match answer {
        Ok(status) => Ok(status),
        Err(e) => Err(EngineError::op("GetExecutionStatus", e)),
    }
}

// ---- threads ----

/// What listing the threads is waiting for.
pub enum ThreadsPhase {
    Count,
    Ids(u32),
    Over,
}

/// The listing of the threads.
pub struct ThreadsFlow {
    pub phase: ThreadsPhase,
}

/// Whether `threads` are the threads with these engine ids and system ids.
pub open spec fn are_threads(
    engine_ids: Seq<u32>,
    system_ids: Seq<u32>,
    threads: Seq<ThreadInfo>,
) -> bool {
    &&& threads.len() == engine_ids.len()
    &&& forall|i: int|
        0 <= i < threads.len() ==> (#[trigger] threads[i]).id == engine_ids[i]
            && threads[i].name@ == "sys="@ + decimal(system_ids[i] as int)
}

impl ThreadsFlow {
    /// What the listing has asked for.
    pub open spec fn asked(self, request: Request) -> bool {
        match self.phase {
            ThreadsPhase::Count => request == Request::GetNumberThreads,
            ThreadsPhase::Ids(n) => request == Request::GetThreadIds(n),
            ThreadsPhase::Over => false,
        }
    }

    /// Whether `answer` answers what the listing has asked for.
    pub open spec fn expects(self, answer: Answer) -> bool {
        exists|request: Request| self.asked(request) && #[trigger] request.answered_by(answer)
    }

    /// How a listing goes on from one answer to the next question.
    pub open spec fn steps(
        self,
        answer: Answer,
        after: ThreadsFlow,
        next: Next<Vec<ThreadInfo>>,
    ) -> bool {
        match (self.phase, answer) {
            (ThreadsPhase::Count, Answer::Number(Err(e))) => after.phase is Over && next.fails_op(
                "GetNumberThreads"@,
                e,
            ),
            (ThreadsPhase::Count, Answer::Number(Ok(n))) => if n == 0 {
                after.phase is Over && (next matches Next::End(Ok(threads)) && threads@.len() == 0)
            } else {
                after.phase == ThreadsPhase::Ids(n) && next == Next::<Vec<ThreadInfo>>::Ask(
                    Request::GetThreadIds(n),
                )
            },
            (ThreadsPhase::Ids(_), Answer::ThreadIds(Err(e))) => after.phase is Over
                && next.fails_op("GetThreadIdsByIndex"@, e),
            (ThreadsPhase::Ids(_), Answer::ThreadIds(Ok(ids))) => after.phase is Over && (
            next matches Next::End(Ok(threads)) && are_threads(ids.0@, ids.1@, threads@)),
            _ => false,
        }
    }

    /// Goes on from an answer.
    pub fn resume(&mut self, answer: Answer) -> (r: Next<Vec<ThreadInfo>>)
        requires
            old(self).expects(answer),
        ensures
            old(self).steps(answer, *final(self), r),
    {
        let mut phase = ThreadsPhase::Over;
        std::mem::swap(&mut phase, &mut self.phase);
        match (phase, answer) {
            (ThreadsPhase::Count, Answer::Number(Err(e))) => Next::End(
                Err(EngineError::op("GetNumberThreads", e)),
            ),
            (ThreadsPhase::Count, Answer::Number(Ok(n))) => if n == 0 {
                Next::End(Ok(Vec::new()))
            } else {
                self.phase = ThreadsPhase::Ids(n);
                Next::Ask(Request::GetThreadIds(n))
            },
            (ThreadsPhase::Ids(_), Answer::ThreadIds(Err(e))) => Next::End(
                Err(EngineError::op("GetThreadIdsByIndex", e)),
            ),
            (ThreadsPhase::Ids(_), Answer::ThreadIds(Ok(ids))) => Next::End(
                Ok(thread_list(&ids.0, &ids.1)),
            ),
            _ => {
                assert(false);
                Next::End(Ok(Vec::new()))
            },
        }
    }
}

/// The threads with these engine ids and system ids.
pub fn thread_list(engine_ids: &Vec<u32>, system_ids: &Vec<u32>) -> (r: Vec<ThreadInfo>)
    requires
        engine_ids@.len() == system_ids@.len(),
    ensures
        are_threads(engine_ids@, system_ids@, r@),
{
    let mut out: Vec<ThreadInfo> = Vec::new();
    let mut i: usize = 0;
    while i < engine_ids.len()
        invariant
            i <= engine_ids@.len(),
            engine_ids@.len() == system_ids@.len(),
            are_threads(engine_ids@.take(i as int), system_ids@.take(i as int), out@),
        decreases engine_ids@.len() - i,
    {
        out.push(
            ThreadInfo {
                id: engine_ids[i] as i64,
                name: text2("sys=", render_u64(system_ids[i] as u64).as_str()),
            },
        );
        i = i + 1;
    }
    assert(engine_ids@.take(i as int) =~= engine_ids@);
    assert(system_ids@.take(i as int) =~= system_ids@);
    out
}

impl Engine {
    /// Begins to list the threads.
    pub fn threads(&self) -> (r: (ThreadsFlow, Request))
        ensures
            r.0.phase is Count,
            r.0.asked(r.1),
            r.1 == Request::GetNumberThreads,
    {
        (ThreadsFlow { phase: ThreadsPhase::Count }, Request::GetNumberThreads)
    }
}

// ---- stacks ----

/// What a stack walk is waiting for.
pub enum StackPhase {
    /// The thread that the engine is on.
    Current,
    /// The switch to the thread to walk; the thread to come back to is kept.
    Switch(u32),
    Walk(u32),
    /// The way back, whatever the walk brought.
    Restore(Result<Vec<u64>, ComError>),
    Describe(Vec<u64>),
    Over,
}

/// The walk of a thread's stack. The engine is left on the thread that it was on.
pub struct StackFlow {
    pub thread: u32,
    pub max: u64,
    pub phase: StackPhase,
}

/// The most frames that a stack walk may give.
pub const MAX_FRAMES: u64 = 1024;

/// Whether `frame` is the frame number `i`, at the address `ip`.
pub open spec fn is_frame(i: int, ip: u64, raw: RawFrame, frame: Frame) -> bool {
    &&& frame.index == i
    &&& frame.id == i
    &&& frame.name@ == place_text(raw.symbol, ip)
    &&& is_line(raw.line, optional_text(frame.source_path), frame.line)
    &&& optional_text(frame.instruction_pointer) == Some(address_text(ip as nat))
}

/// Whether `frames` are the frames at the addresses `ips`.
pub open spec fn are_frames(ips: Seq<u64>, raw: Seq<RawFrame>, frames: Seq<Frame>) -> bool {
    &&& frames.len() == ips.len()
    &&& forall|i: int| 0 <= i < frames.len() ==> is_frame(i, ips[i], raw[i], #[trigger] frames[i])
}

impl StackFlow {
    /// What the walk has asked for.
    pub open spec fn asked(self, request: Request) -> bool {
        match self.phase {
            StackPhase::Current => request == Request::GetCurrentThread,
            StackPhase::Switch(_) => request == Request::SetCurrentThread(self.thread),
            StackPhase::Walk(_) => request == Request::GetStackTrace(self.max),
            StackPhase::Restore(_) => request is SetCurrentThread,
            StackPhase::Describe(ips) => request == Request::DescribeFrames(ips),
            StackPhase::Over => false,
        }
    }

    /// Whether `answer` answers what the walk has asked for.
    pub open spec fn expects(self, answer: Answer) -> bool {
        exists|request: Request| self.asked(request) && #[trigger] request.answered_by(answer)
    }

    /// Whether the numbers in the flow are in range: a walk has at most `MAX_FRAMES` frames.
    pub open spec fn bounded(self) -> bool {
        &&& 1 <= self.max <= MAX_FRAMES
        &&& self.phase matches StackPhase::Restore(Ok(ips)) ==> ips@.len() <= self.max
        &&& self.phase matches StackPhase::Describe(ips) ==> ips@.len() <= self.max
    }

    /// How a walk goes on from one answer to the next question.
    pub open spec fn steps(self, answer: Answer, after: StackFlow, next: Next<Vec<Frame>>) -> bool {
        &&& after.thread == self.thread
        &&& after.max == self.max
        &&& match (self.phase, answer) {
            (StackPhase::Current, Answer::Number(current)) => {
                &&& after.phase == StackPhase::Switch(
                    match current {
                        Ok(id) => id,
                        Err(_) => self.thread,
                    },
                )
                &&& next == Next::<Vec<Frame>>::Ask(Request::SetCurrentThread(self.thread))
            },
            (StackPhase::Switch(_), Answer::Done(Err(e))) => after.phase is Over && next.fails_op(
                "SetCurrentThreadId"@,
                e,
            ),
            (StackPhase::Switch(back), Answer::Done(Ok(_))) => after.phase == StackPhase::Walk(back)
                && next == Next::<Vec<Frame>>::Ask(Request::GetStackTrace(self.max)),
            (StackPhase::Walk(back), Answer::Stack(stack)) => after.phase == StackPhase::Restore(
                stack,
            ) && next == Next::<Vec<Frame>>::Ask(Request::SetCurrentThread(back)),
            (StackPhase::Restore(Err(e)), Answer::Done(_)) => after.phase is Over && next.fails_op(
                "GetStackTrace"@,
                e,
            ),
            (StackPhase::Restore(Ok(ips)), Answer::Done(_)) => {
                &&& after.phase matches StackPhase::Describe(kept) && kept@ == ips@
                &&& next matches Next::Ask(Request::DescribeFrames(list)) && list@ == ips@
            },
            (StackPhase::Describe(ips), Answer::Frames(raw)) => after.phase is Over && (
            next matches Next::End(Ok(frames)) && are_frames(ips@, raw@, frames@)),
            _ => false,
        }
    }

    /// Goes on from an answer.
    pub fn resume(&mut self, answer: Answer) -> (r: Next<Vec<Frame>>)
        requires
            old(self).expects(answer),
            old(self).bounded(),
        ensures
            old(self).steps(answer, *final(self), r),
            final(self).bounded(),
    {
        let mut phase = StackPhase::Over;
        std::mem::swap(&mut phase, &mut self.phase);
        match (phase, answer) {
            (StackPhase::Current, Answer::Number(current)) => {
                let back: u32 = match current {
                    Ok(id) => id,
                    Err(_) => self.thread,
                };
                self.phase = StackPhase::Switch(back);
                Next::Ask(Request::SetCurrentThread(self.thread))
            },
            (StackPhase::Switch(_), Answer::Done(Err(e))) => Next::End(
                Err(EngineError::op("SetCurrentThreadId", e)),
            ),
            (StackPhase::Switch(back), Answer::Done(Ok(_))) => {
                self.phase = StackPhase::Walk(back);
                Next::Ask(Request::GetStackTrace(self.max))
            },
            (StackPhase::Walk(back), Answer::Stack(stack)) => {
                self.phase = StackPhase::Restore(stack);
                Next::Ask(Request::SetCurrentThread(back))
            },
            (StackPhase::Restore(Err(e)), Answer::Done(_)) => Next::End(
                Err(EngineError::op("GetStackTrace", e)),
            ),
            (StackPhase::Restore(Ok(ips)), Answer::Done(_)) => {
                let list: Vec<u64> = ips.clone();
                assert(list@ =~= ips@);
                self.phase = StackPhase::Describe(ips);
                Next::Ask(Request::DescribeFrames(list))
            },
            (StackPhase::Describe(ips), Answer::Frames(raw)) => Next::End(
                Ok(frame_list(&ips, raw)),
            ),
            _ => {
                assert(false);
                Next::End(Ok(Vec::new()))
            },
        }
    }
}

/// The frames at the addresses `ips`.
pub fn frame_list(ips: &Vec<u64>, raw: Vec<RawFrame>) -> (r: Vec<Frame>)
    requires
        ips@.len() == raw@.len(),
        ips@.len() <= MAX_FRAMES,
    ensures
        are_frames(ips@, raw@, r@),
{
    let mut out: Vec<Frame> = Vec::new();
    let ghost all = raw@;
    let mut i: usize = 0;
    for found in it: raw
        invariant
            it.seq() == all,
            i == it.index(),
            all.len() == ips@.len(),
            ips@.len() <= MAX_FRAMES,
            are_frames(ips@.take(i as int), all.take(i as int), out@),
    {
        let ip: u64 = ips[i];
        let (source_path, line) = line_at(found.line);
        out.push(
            Frame {
                index: i as i64,
                id: i as i64,
                name: place(found.symbol, ip),
                source_path,
                line,
                instruction_pointer: Some(render_address(ip)),
            },
        );
        i = i + 1;
    }
    assert(ips@.take(i as int) =~= ips@);
    assert(all.take(i as int) =~= all);
    out
}

impl Engine {
    /// Begins to walk the stack of a thread, for at most `max` frames; at least one and at most
    /// `MAX_FRAMES` are asked for. The thread id is taken as 32 bits.
    pub fn stack_trace(&self, thread_id: i64, max: i64) -> (r: (StackFlow, Request))
        ensures
            r.0.thread == thread_id as u32,
            r.0.max == (if max < 1 {
                1
            } else if max > MAX_FRAMES {
                MAX_FRAMES as int
            } else {
                max as int
            }),
            r.0.phase is Current,
            r.0.asked(r.1),
            r.1 == Request::GetCurrentThread,
            r.0.bounded(),
            1 <= max <= 1024 ==> r.0.max == max,
            max > 1024 ==> r.0.max == 1024,
            max < 1 ==> r.0.max == 1,
    {
        let most: u64 = if max < 1 {
            1
        } else if max > 1024 {
            MAX_FRAMES
        } else {
            max as u64
        };
        (
            StackFlow {
                thread: #[verifier::truncate] (thread_id as u32),
                max: most,
                phase: StackPhase::Current,
            },
            Request::GetCurrentThread,
        )
    }
}

/// A name is read up to its first zero, wherever that is.
pub proof fn names_end_at_their_first_zero(buf: Seq<u8>, n: int)
    requires
        0 <= n <= buf.len(),
        forall|i: int| 0 <= i < n ==> buf[i] != 0,
        n < buf.len() ==> buf[n] == 0,
    ensures
        name_text(buf) == utf8_lossy_text(buf.take(n)),
{
    buffers_end_at_their_first_zero(buf, n);
}

} // verus!
