//! The events of a connection: its output lines, and at last that it is over.
use crate::callbacks::OutputKind;
use crate::event::BackendEvent;
use vstd::prelude::*;
use vstd::string::*;

verus! {

broadcast use vstd::string::group_string_axioms;

/// The category that output of a kind is reported under.
pub open spec fn category_text(kind: OutputKind) -> Seq<char> {
    match kind {
        OutputKind::Normal => "stdout"@,
        OutputKind::Error | OutputKind::Warning => "stderr"@,
        OutputKind::Prompt | OutputKind::Other(_) => "console"@,
    }
}

/// The category that output of a kind is reported under.
pub fn category_for(kind: OutputKind) -> (r: &'static str)
    ensures
        r@ == category_text(kind),
{
    match kind {
        OutputKind::Normal => "stdout",
        OutputKind::Error | OutputKind::Warning => "stderr",
        OutputKind::Prompt => "console",
        OutputKind::Other(_) => "console",
    }
}

/// What a look at the output found.
pub enum OutputPoll {
    Line { kind: OutputKind, text: String },
    /// There is no line, and none can come any more.
    Closed,
    /// There is no line yet.
    Pending,
}

/// What a look at the signal of the engine's end found.
pub enum EndPoll {
    /// The end, with an exit code if one is known.
    Ended(Option<i64>),
    /// The signal can not come any more.
    Lost,
    Pending,
}

/// Whether a connection is over, and with which exit code: the engine's own signal goes before
/// the news that the backend was dropped.
pub open spec fn end_code(engine: EndPoll, dropped: bool) -> Option<Option<i64>> {
    match engine {
        EndPoll::Ended(code) => Some(code),
        EndPoll::Lost => Some(None),
        EndPoll::Pending => if dropped {
            Some(None)
        } else {
            None
        },
    }
}

/// Whether a connection is over, and with which exit code.
pub fn connection_end(engine: EndPoll, dropped: bool) -> (r: Option<Option<i64>>)
    ensures
        r == end_code(engine, dropped),
{
    match engine {
        EndPoll::Ended(code) => Some(code),
        EndPoll::Lost => Some(None),
        EndPoll::Pending => if dropped {
            Some(None)
        } else {
            None
        },
    }
}

/// What the stream of events does next.
pub enum StreamStep {
    Emit(BackendEvent),
    /// Look again when something has happened.
    Wait,
    End,
}

/// The stream of events of a connection.
pub struct EventStream {
    pub terminated: bool,
}

/// Whether `step` emits an output line.
pub open spec fn emits_line(step: StreamStep, kind: OutputKind, line: String) -> bool {
    step matches StreamStep::Emit(BackendEvent::Output { category, text }) && category@
        == category_text(kind) && text == line
}

impl EventStream {
    /// How the stream goes on: lines that are there go first, so that none is lost; then the end,
    /// once; then nothing.
    pub open spec fn steps(
        self,
        output: OutputPoll,
        end: Option<Option<i64>>,
        after: EventStream,
        step: StreamStep,
    ) -> bool {
        if self.terminated {
            after.terminated && step is End
        } else {
            match (output, end) {
                (OutputPoll::Line { kind, text }, _) => !after.terminated && emits_line(
                    step,
                    kind,
                    text,
                ),
                (_, Some(code)) => after.terminated && step == StreamStep::Emit(
                    BackendEvent::Terminated { code },
                ),
                (_, None) => !after.terminated && step is Wait,
            }
        }
    }

    /// The stream of a new connection.
    pub fn new() -> (r: EventStream)
        ensures
            !r.terminated,
    {
        EventStream { terminated: false }
    }

    /// Goes on from a look at the output and at the end of the connection.
    pub fn next(&mut self, output: OutputPoll, end: Option<Option<i64>>) -> (r: StreamStep)
        ensures
            old(self).steps(output, end, *final(self), r),
    {
        if self.terminated {
            return StreamStep::End;
        }
        match output {
            OutputPoll::Line { kind, text } => StreamStep::Emit(
                BackendEvent::Output { category: category_for(kind).to_owned(), text },
            ),
            _ => match end {
                Some(code) => {
                    self.terminated = true;
                    StreamStep::Emit(BackendEvent::Terminated { code })
                },
                None => StreamStep::Wait,
            },
        }
    }
}

// ---- what holds of every stream ----

/// Whether these are the steps of a stream: from `streams[i]` it went on to `steps[i]`, having
/// found `outputs[i]` and `ends[i]`.
pub open spec fn is_stream(
    streams: Seq<EventStream>,
    outputs: Seq<OutputPoll>,
    ends: Seq<Option<Option<i64>>>,
    steps: Seq<StreamStep>,
) -> bool {
    &&& streams.len() == steps.len() + 1
    &&& outputs.len() == steps.len()
    &&& ends.len() == steps.len()
    &&& !streams[0].terminated
    &&& forall|i: int|
        0 <= i < steps.len() ==> (#[trigger] streams[i]).steps(
            outputs[i],
            ends[i],
            streams[i + 1],
            steps[i],
        )
}

/// Whether a step emits the end of the connection.
pub open spec fn emits_end(step: StreamStep) -> bool {
    step matches StreamStep::Emit(BackendEvent::Terminated { .. })
}

/// After the end of the connection was emitted, the stream is over: the end comes once, and
/// nothing comes behind it.
pub proof fn end_is_emitted_once_and_last(
    streams: Seq<EventStream>,
    outputs: Seq<OutputPoll>,
    ends: Seq<Option<Option<i64>>>,
    steps: Seq<StreamStep>,
    i: int,
    j: int,
)
    requires
        is_stream(streams, outputs, ends, steps),
        0 <= i < j < steps.len(),
        emits_end(steps[i]),
    ensures
        steps[j] is End,
        streams[j].terminated,
    decreases j,
{
    assert(streams[i].steps(outputs[i], ends[i], streams[i + 1], steps[i]));
    assert(streams[j].steps(outputs[j], ends[j], streams[j + 1], steps[j]));
    if j > i + 1 {
        end_is_emitted_once_and_last(streams, outputs, ends, steps, i, j - 1);
        assert(streams[j - 1].steps(outputs[j - 1], ends[j - 1], streams[j], steps[j - 1]));
    }
}

/// No output line is lost: as long as the end has not been emitted, every line that is found is
/// emitted, even when the connection is over already.
pub proof fn lines_go_before_the_end(
    streams: Seq<EventStream>,
    outputs: Seq<OutputPoll>,
    ends: Seq<Option<Option<i64>>>,
    steps: Seq<StreamStep>,
    i: int,
)
    requires
        is_stream(streams, outputs, ends, steps),
        0 <= i < steps.len(),
        forall|j: int| 0 <= j < i ==> !emits_end(#[trigger] steps[j]),
        outputs[i] is Line,
    ensures
        outputs[i] matches OutputPoll::Line { kind, text } && emits_line(steps[i], kind, text),
{
    stays_open(streams, outputs, ends, steps, i);
    assert(streams[i].steps(outputs[i], ends[i], streams[i + 1], steps[i]));
}

proof fn stays_open(
    streams: Seq<EventStream>,
    outputs: Seq<OutputPoll>,
    ends: Seq<Option<Option<i64>>>,
    steps: Seq<StreamStep>,
    i: int,
)
    requires
        is_stream(streams, outputs, ends, steps),
        0 <= i < streams.len(),
        forall|j: int| 0 <= j < i ==> !emits_end(#[trigger] steps[j]),
    ensures
        !streams[i].terminated,
    decreases i,
{
    if i > 0 {
        stays_open(streams, outputs, ends, steps, i - 1);
        assert(streams[i - 1].steps(outputs[i - 1], ends[i - 1], streams[i], steps[i - 1]));
        assert(!emits_end(steps[i - 1]));
    }
}

/// A connection that is over ends its stream, as soon as no line is left, whether or not the
/// output can still bring one.
pub proof fn end_does_not_wait_for_the_output(
    stream: EventStream,
    output: OutputPoll,
    code: Option<i64>,
    after: EventStream,
    step: StreamStep,
)
    requires
        !stream.terminated,
        output !is Line,
        stream.steps(output, Some(code), after, step),
    ensures
        step == StreamStep::Emit((BackendEvent::Terminated { code })),
        after.terminated,
{
}

/// The engine's own signal decides how a connection ended, with the code that it brings; only
/// while it is silent does the news count that the backend was dropped, which brings no code.
pub proof fn ends_have_the_code_of_the_signal(code: Option<i64>, dropped: bool)
    ensures
        end_code(EndPoll::Ended(code), dropped) == Some(code),
        end_code(EndPoll::Lost, dropped) == Some(None::<i64>),
        end_code(EndPoll::Pending, true) == Some(None::<i64>),
        end_code(EndPoll::Pending, false) is None,
{
}

/// Errors and warnings go to one category, plain output to another, and everything else to a
/// third.
pub proof fn kinds_have_their_categories(mask: u32)
    ensures
        category_text(OutputKind::Normal) == "stdout"@,
        category_text(OutputKind::Error) == "stderr"@,
        category_text(OutputKind::Warning) == "stderr"@,
        category_text(OutputKind::Prompt) == "console"@,
        category_text(OutputKind::Other(mask)) == "console"@,
{
}

/// A line is emitted whole, under the category of its kind.
pub proof fn lines_are_emitted_whole(step: StreamStep, kind: OutputKind, line: String)
    requires
        emits_line(step, kind, line),
    ensures
        step matches StreamStep::Emit(BackendEvent::Output { category, text }) && text@ == line@
            && match kind {
            OutputKind::Normal => category@ == "stdout"@,
            OutputKind::Error | OutputKind::Warning => category@ == "stderr"@,
            OutputKind::Prompt | OutputKind::Other(_) => category@ == "console"@,
        },
{
}

} // verus!
