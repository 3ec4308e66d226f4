//! What the operations on a stopped target do, from their first question to their result: which
//! calls are made, in which order and with which arguments, and what the result is made of.
use super::host::{Answer, Next, Request};
use super::inspect::{StackFlow, ThreadsFlow, name_text};
use super::locals::{LocalsFlow, LocalsPhase};
use crate::text::{address_text, decimal, hex_text};
use crate::types::{Frame, ThreadInfo, Variable};
use vstd::prelude::*;

verus! {

/// The course of an operation: from `flows[i]` it went on by `answers[i]` to `flows[i + 1]` and to
/// `nexts[i]`, which is the next question or the end.
pub struct Course<F, T> {
    pub flows: Seq<F>,
    pub answers: Seq<Answer>,
    pub nexts: Seq<Next<T>>,
}

impl<F, T> Course<F, T> {
    /// Whether the parts of the course fit together.
    pub open spec fn shaped(self) -> bool {
        &&& self.answers.len() > 0
        &&& self.flows.len() == self.answers.len() + 1
        &&& self.nexts.len() == self.answers.len()
    }

    /// Whether step number `i` asked for `request`.
    pub open spec fn asks(self, i: int, request: Request) -> bool {
        0 <= i < self.nexts.len() && self.nexts[i] == Next::<T>::Ask(request)
    }

    /// Whether the operation succeeded with `result`.
    pub open spec fn brings(self, result: T) -> bool {
        self.nexts.last() == Next::<T>::End(Ok(result))
    }
}

/// Whether answer number `i` says that a call succeeded.
pub open spec fn succeeded(answers: Seq<Answer>, i: int) -> bool {
    0 <= i < answers.len() && (answers[i] matches Answer::Done(Ok(_)))
}

// ---- stack walks ----

/// Whether this is the course of a walk of the stack of `thread`, for up to `max` frames.
pub open spec fn is_walk(c: Course<StackFlow, Vec<Frame>>, thread: u32, max: u64) -> bool {
    &&& c.shaped()
    &&& c.flows[0].thread == thread
    &&& c.flows[0].max == max
    &&& c.flows[0].phase is Current
    &&& forall|i: int|
        0 <= i < c.answers.len() ==> (#[trigger] c.flows[i]).expects(c.answers[i])
            && c.flows[i].steps(c.answers[i], c.flows[i + 1], c.nexts[i])
}

proof fn walk_unfolds(c: Course<StackFlow, Vec<Frame>>, thread: u32, max: u64)
    requires
        is_walk(c, thread, max),
    ensures
        c.answers.len() <= 5,
        forall|i: int|
            0 <= i < c.flows.len() ==> (#[trigger] c.flows[i]).thread == thread && c.flows[i].max
                == max,
{
    let n = c.answers.len();
    assert(c.flows[0].expects(c.answers[0]));
    if n > 1 {
        assert(c.flows[1].expects(c.answers[1]));
    }
    if n > 2 {
        assert(c.flows[2].expects(c.answers[2]));
    }
    if n > 3 {
        assert(c.flows[3].expects(c.answers[3]));
    }
    if n > 4 {
        assert(c.flows[4].expects(c.answers[4]));
    }
    if n > 5 {
        assert(c.flows[5].expects(c.answers[5]));
    }
}

/// The stack that is walked is that of the thread that was asked for, whatever thread the engine
/// was on: right before the walk the engine was switched to that thread, and was told so.
pub proof fn the_thread_asked_for_is_walked(
    c: Course<StackFlow, Vec<Frame>>,
    thread: u32,
    max: u64,
    i: int,
    frames: u64,
)
    requires
        is_walk(c, thread, max),
        c.asks(i, Request::GetStackTrace(frames)),
    ensures
        c.asks(i - 1, Request::SetCurrentThread(thread)),
        succeeded(c.answers, i),
        frames == max,
{
    walk_unfolds(c, thread, max);
    assert(c.flows[0].expects(c.answers[0]));
    assert(c.flows[i].expects(c.answers[i]));
    if i > 0 {
        assert(c.flows[i - 1].expects(c.answers[i - 1]));
    }
}

/// Walks of two different threads switch the engine to two different threads.
pub proof fn walks_of_two_threads_differ(
    a: Course<StackFlow, Vec<Frame>>,
    b: Course<StackFlow, Vec<Frame>>,
    first: u32,
    second: u32,
    max: u64,
    i: int,
    j: int,
)
    requires
        is_walk(a, first, max),
        is_walk(b, second, max),
        first != second,
        a.asks(i, Request::GetStackTrace(max)),
        b.asks(j, Request::GetStackTrace(max)),
    ensures
        a.nexts[i - 1] != b.nexts[j - 1],
{
    the_thread_asked_for_is_walked(a, first, max, i, max);
    the_thread_asked_for_is_walked(b, second, max, j, max);
}

/// The frames that a walk gives are those that the engine found while it was on the thread that
/// was asked for, in their order: each with its number, its address, its symbol and its source
/// line. The engine is put back on the thread that it was on before anything is looked up.
pub proof fn frames_are_those_of_the_thread(
    c: Course<StackFlow, Vec<Frame>>,
    thread: u32,
    max: u64,
    frames: Vec<Frame>,
)
    requires
        is_walk(c, thread, max),
        c.brings(frames),
    ensures
        c.answers.len() == 5,
        c.asks(0, Request::SetCurrentThread(thread)),
        c.asks(1, Request::GetStackTrace(max)),
        c.answers[0] matches Answer::Number(Ok(back)) ==> c.asks(
            2,
            Request::SetCurrentThread(back),
        ),
        c.answers[2] matches Answer::Stack(Ok(ips)) && frames@.len() == ips@.len() && (
        c.nexts[3] matches Next::Ask(Request::DescribeFrames(list)) && list@ == ips@),
        c.answers[4] is Frames,
        forall|k: int|
            0 <= k < frames@.len() ==> {
                let ip = c.answers[2]->Stack_0->Ok_0@[k];
                let raw = c.answers[4]->Frames_0@[k];
                let frame = #[trigger] frames@[k];
                &&& frame.index == k
                &&& frame.id == k
                &&& frame.instruction_pointer matches Some(text) && text@ == address_text(
                    ip as nat,
                )
                &&& raw.symbol is None ==> frame.name@ == address_text(ip as nat)
                &&& raw.symbol matches Some(symbol) ==> name_text(symbol.name@).len() > 0
                    ==> frame.name@ == name_text(symbol.name@) + (if symbol.displacement == 0 {
                    Seq::<char>::empty()
                } else {
                    "+"@ + hex_text(symbol.displacement as nat)
                })
                &&& raw.symbol matches Some(symbol) ==> name_text(symbol.name@).len() == 0
                    ==> frame.name@ == address_text(ip as nat)
                &&& raw.line is None ==> frame.source_path is None && frame.line == 0
                &&& raw.line matches Some(line) ==> name_text(line.file@).len() == 0
                    ==> frame.source_path is None && frame.line == 0
                &&& raw.line matches Some(line) ==> name_text(line.file@).len() > 0 ==> (
                frame.source_path matches Some(path) && path@ == name_text(line.file@))
                    && frame.line == line.line
            },
{
    walk_unfolds(c, thread, max);
    let n = c.answers.len();
    assert(c.flows[0].expects(c.answers[0]));
    if n > 1 {
        assert(c.flows[1].expects(c.answers[1]));
    }
    if n > 2 {
        assert(c.flows[2].expects(c.answers[2]));
    }
    if n > 3 {
        assert(c.flows[3].expects(c.answers[3]));
    }
    if n > 4 {
        assert(c.flows[4].expects(c.answers[4]));
    }
    assert forall|k: int| 0 <= k < frames@.len() implies {
        let raw = c.answers[4]->Frames_0@[k];
        let frame = #[trigger] frames@[k];
        &&& raw.symbol matches Some(symbol) ==> name_text(symbol.name@).len() > 0 ==> frame.name@
            == name_text(symbol.name@) + (if symbol.displacement == 0 {
            Seq::<char>::empty()
        } else {
            "+"@ + hex_text(symbol.displacement as nat)
        })
    } by {
        let raw = c.answers[4]->Frames_0@[k];
        let frame = frames@[k];
        if let Some(symbol) = raw.symbol {
            if name_text(symbol.name@).len() > 0 {
                assert(frame.name@ =~= name_text(symbol.name@) + (if symbol.displacement == 0 {
                    Seq::<char>::empty()
                } else {
                    "+"@ + hex_text(symbol.displacement as nat)
                }));
            }
        }
    }
}

// ---- local variables ----

/// Whether this is the course of a reading of the locals of frame `frame_index`.
pub open spec fn is_reading(c: Course<LocalsFlow, Vec<Variable>>, frame_index: i64) -> bool {
    &&& c.shaped()
    &&& c.flows[0].frame_index == frame_index
    &&& c.flows[0].phase == (if frame_index > 0 {
        LocalsPhase::Stack
    } else {
        LocalsPhase::Group
    })
    &&& forall|i: int|
        0 <= i < c.answers.len() ==> (#[trigger] c.flows[i]).expects(c.answers[i])
            && c.flows[i].steps(c.answers[i], c.flows[i + 1], c.nexts[i])
}

proof fn reading_unfolds(c: Course<LocalsFlow, Vec<Variable>>, frame_index: i64)
    requires
        is_reading(c, frame_index),
    ensures
        c.answers.len() <= 6,
        forall|i: int| 0 <= i < c.flows.len() ==> (#[trigger] c.flows[i]).frame_index == frame_index,
{
    let n = c.answers.len();
    assert(c.flows[0].expects(c.answers[0]));
    if n > 1 {
        assert(c.flows[1].expects(c.answers[1]));
    }
    if n > 2 {
        assert(c.flows[2].expects(c.answers[2]));
    }
    if n > 3 {
        assert(c.flows[3].expects(c.answers[3]));
    }
    if n > 4 {
        assert(c.flows[4].expects(c.answers[4]));
    }
    if n > 5 {
        assert(c.flows[5].expects(c.answers[5]));
    }
    if n > 6 {
        assert(c.flows[6].expects(c.answers[6]));
    }
}

/// The variables that are collected are those of the frame that was asked for: the scope is set
/// to that frame, by its number, right before they are collected, and to no other. The engine's
/// own frame needs no scope.
pub proof fn the_frame_asked_for_is_read(
    c: Course<LocalsFlow, Vec<Variable>>,
    frame_index: i64,
    i: int,
)
    requires
        is_reading(c, frame_index),
        0 <= i < c.nexts.len(),
    ensures
        c.nexts[i] matches Next::Ask(Request::SetScope(frame)) ==> frame == frame_index
            && frame_index > 0,
        c.asks(i, Request::GetScopeSymbolGroup) ==> {
            &&& i > 0
            &&& c.nexts[i - 1] matches Next::Ask(Request::SetScope(frame)) && frame == frame_index
            &&& succeeded(c.answers, i)
        },
{
    reading_unfolds(c, frame_index);
    assert(c.flows[0].expects(c.answers[0]));
    assert(c.flows[i].expects(c.answers[i]));
    if i > 0 {
        assert(c.flows[i - 1].expects(c.answers[i - 1]));
    }
    if i > 1 {
        assert(c.flows[i - 2].expects(c.answers[i - 2]));
    }
}

/// Readings of two different frames set two different scopes.
pub proof fn readings_of_two_frames_differ(
    a: Course<LocalsFlow, Vec<Variable>>,
    b: Course<LocalsFlow, Vec<Variable>>,
    first: i64,
    second: i64,
    i: int,
    j: int,
)
    requires
        is_reading(a, first),
        is_reading(b, second),
        first != second,
        0 <= i < a.nexts.len(),
        0 <= j < b.nexts.len(),
        a.nexts[i] matches Next::Ask(Request::SetScope(_)),
        b.nexts[j] matches Next::Ask(Request::SetScope(_)),
    ensures
        a.nexts[i] != b.nexts[j],
{
    the_frame_asked_for_is_read(a, first, i);
    the_frame_asked_for_is_read(b, second, j);
}

/// Whether each variable has the name, the value and the type that the engine described.
pub open spec fn are_as_described(answer: Answer, list: Seq<Variable>) -> bool {
    &&& answer matches Answer::Locals(raw)
    &&& raw@.len() == list.len()
    &&& forall|k: int|
        0 <= k < list.len() ==> {
            let variable = #[trigger] list[k];
            &&& raw@[k].name matches Some(bytes) ==> variable.name@ == name_text(bytes@)
            &&& raw@[k].value matches Some(bytes) ==> variable.value@ == name_text(bytes@)
            &&& raw@[k].ty matches Some(bytes) ==> variable.ty@ == name_text(bytes@)
            &&& raw@[k].name is None ==> variable.name@.len() == 0
            &&& raw@[k].value is None ==> variable.value@.len() == 0
            &&& raw@[k].ty is None ==> variable.ty@.len() == 0
        }
}

/// The variables of a frame other than the engine's own are given as the engine described them
/// while it was scoped to that frame, all of them and in their order, and the scope is put back.
pub proof fn variables_are_those_of_the_frame(
    c: Course<LocalsFlow, Vec<Variable>>,
    frame_index: i64,
    list: Vec<Variable>,
)
    requires
        is_reading(c, frame_index),
        frame_index > 0,
        c.brings(list),
    ensures
        c.answers.len() == 6,
        c.answers[0] matches Answer::Stack(Ok(ips)) && ips@.len() > frame_index,
        c.nexts[0] matches Next::Ask(Request::SetScope(frame)) && frame == frame_index,
        c.asks(1, Request::GetScopeSymbolGroup),
        c.asks(2, Request::GetNumberSymbols),
        c.answers[3] matches Answer::Number(Ok(count)) && c.asks(
            3,
            Request::DescribeSymbols(count),
        ),
        are_as_described(c.answers[4], list@),
        c.asks(4, Request::ResetScope),
{
    reading_unfolds(c, frame_index);
    let n = c.answers.len();
    assert(c.flows[0].expects(c.answers[0]));
    if n > 1 {
        assert(c.flows[1].expects(c.answers[1]));
    }
    if n > 2 {
        assert(c.flows[2].expects(c.answers[2]));
    }
    if n > 3 {
        assert(c.flows[3].expects(c.answers[3]));
    }
    if n > 4 {
        assert(c.flows[4].expects(c.answers[4]));
    }
    if n > 5 {
        assert(c.flows[5].expects(c.answers[5]));
    }
}

/// The variables of the engine's own frame are given as the engine described them, all of them
/// and in their order, and no scope is touched.
pub proof fn variables_are_those_of_the_top(
    c: Course<LocalsFlow, Vec<Variable>>,
    frame_index: i64,
    list: Vec<Variable>,
)
    requires
        is_reading(c, frame_index),
        frame_index <= 0,
        c.brings(list),
    ensures
        c.answers.len() == 3,
        succeeded(c.answers, 0),
        c.asks(0, Request::GetNumberSymbols),
        c.answers[1] matches Answer::Number(Ok(count)) && c.asks(
            1,
            Request::DescribeSymbols(count),
        ),
        are_as_described(c.answers[2], list@),
{
    reading_unfolds(c, frame_index);
    let n = c.answers.len();
    assert(c.flows[0].expects(c.answers[0]));
    if n > 1 {
        assert(c.flows[1].expects(c.answers[1]));
    }
    if n > 2 {
        assert(c.flows[2].expects(c.answers[2]));
    }
    if n > 3 {
        assert(c.flows[3].expects(c.answers[3]));
    }
}

// ---- threads ----

/// Whether this is the course of a listing of the threads.
pub open spec fn is_thread_listing(c: Course<ThreadsFlow, Vec<ThreadInfo>>) -> bool {
    &&& c.shaped()
    &&& c.flows[0].phase is Count
    &&& forall|i: int|
        0 <= i < c.answers.len() ==> (#[trigger] c.flows[i]).expects(c.answers[i])
            && c.flows[i].steps(c.answers[i], c.flows[i + 1], c.nexts[i])
}

/// As many threads are listed as the engine counts, in its order: each under the id that the
/// engine knows it by, with the id that the system has for it in its name.
pub proof fn all_threads_are_listed(c: Course<ThreadsFlow, Vec<ThreadInfo>>, list: Vec<ThreadInfo>)
    requires
        is_thread_listing(c),
        c.brings(list),
    ensures
        c.answers[0] matches Answer::Number(Ok(count)) && list@.len() == count && (count > 0
            ==> c.answers.len() == 2 && c.asks(0, Request::GetThreadIds(count))),
        list@.len() > 0 ==> (c.answers[1] matches Answer::ThreadIds(Ok(ids)) && forall|k: int|
            0 <= k < list@.len() ==> (#[trigger] list@[k]).id == ids.0@[k] && list@[k].name@
                == "sys="@ + decimal(ids.1@[k] as int)),
{
    let n = c.answers.len();
    assert(c.flows[0].expects(c.answers[0]));
    if n > 1 {
        assert(c.flows[1].expects(c.answers[1]));
    }
    if n > 2 {
        assert(c.flows[2].expects(c.answers[2]));
    }
}

} // verus!
