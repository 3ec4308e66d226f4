//! What the engine reports back: its output, and the events of the debugged process. Both are
//! recorded in one shared [`CallbackState`], which the engine logic reads when the target stops.
use crate::text::{
    decimal, different_numbers_look_different, fixed_hex, hex_text, render_hex, render_hex8,
    render_u64, text2, text4,
};
use std::sync::{Arc, Mutex};
use vstd::prelude::*;
use vstd::string::*;

verus! {

broadcast use vstd::string::group_string_axioms;

/// `std::sync::Mutex`, which the callback objects and the engine share the state through.
#[verifier::external_type_specification]
#[verifier::external_body]
#[verifier::reject_recursive_types(T)]
pub struct ExMutex<T: ?Sized>(std::sync::Mutex<T>);

/// The exception code of a breakpoint instruction, which the loader executes at process start.
pub const STATUS_BREAKPOINT: u32 = 0x8000_0003;

pub const DEBUG_OUTPUT_NORMAL: u32 = 0x1;

pub const DEBUG_OUTPUT_ERROR: u32 = 0x2;

pub const DEBUG_OUTPUT_WARNING: u32 = 0x4;

pub const DEBUG_OUTPUT_PROMPT: u32 = 0x10;

pub const DEBUG_EVENT_BREAKPOINT: u32 = 0x1;

pub const DEBUG_EVENT_EXCEPTION: u32 = 0x2;

pub const DEBUG_EVENT_CREATE_PROCESS: u32 = 0x10;

pub const DEBUG_EVENT_EXIT_PROCESS: u32 = 0x20;

pub const DEBUG_EVENT_LOAD_MODULE: u32 = 0x40;

pub const DEBUG_EVENT_SESSION_STATUS: u32 = 0x200;

/// Leave the execution status as it is.
pub const DEBUG_STATUS_NO_CHANGE: u32 = 0;

/// Break into the debugger.
pub const DEBUG_STATUS_BREAK: u32 = 6;

/// The category of a piece of engine output.
#[derive(Debug, Clone, Copy, PartialEq, Eq, Structural)]
pub enum OutputKind {
    Normal,
    Error,
    Warning,
    Prompt,
    /// Any other category, with the raw mask.
    Other(u32),
}

impl OutputKind {
    /// The category of an output mask: the first of error, warning, prompt and normal whose bit
    /// is set, and otherwise the mask itself.
    pub open spec fn of_mask(mask: u32) -> OutputKind {
        if mask & DEBUG_OUTPUT_ERROR != 0 {
            OutputKind::Error
        } else if mask & DEBUG_OUTPUT_WARNING != 0 {
            OutputKind::Warning
        } else if mask & DEBUG_OUTPUT_PROMPT != 0 {
            OutputKind::Prompt
        } else if mask & DEBUG_OUTPUT_NORMAL != 0 {
            OutputKind::Normal
        } else {
            OutputKind::Other(mask)
        }
    }

    /// The category of an output mask.
    pub fn from_mask(mask: u32) -> (r: OutputKind)
        ensures
            r == OutputKind::of_mask(mask),
    {
        if mask & DEBUG_OUTPUT_ERROR != 0 {
            OutputKind::Error
        } else if mask & DEBUG_OUTPUT_WARNING != 0 {
            OutputKind::Warning
        } else if mask & DEBUG_OUTPUT_PROMPT != 0 {
            OutputKind::Prompt
        } else if mask & DEBUG_OUTPUT_NORMAL != 0 {
            OutputKind::Normal
        } else {
            OutputKind::Other(mask)
        }
    }
}

/// One piece of engine output.
#[derive(Debug, Clone, PartialEq, Eq)]
pub struct OutputLine {
    pub kind: OutputKind,
    pub text: String,
}

impl OutputLine {
    /// The category and the text.
    pub open spec fn parts(self) -> (OutputKind, Seq<char>) {
        (self.kind, self.text@)
    }
}

/// A receiver of engine output: the lines that were forwarded to it and not yet taken away.
#[derive(Debug, Clone, PartialEq, Eq)]
pub struct OutputSink {
    pub lines: Vec<OutputLine>,
}

impl OutputSink {
    /// The waiting lines.
    pub open spec fn waiting(self) -> Seq<(OutputKind, Seq<char>)> {
        self.lines@.map_values(|l: OutputLine| l.parts())
    }

    /// A receiver that has been given nothing.
    pub fn new() -> (r: OutputSink)
        ensures
            r.waiting() == Seq::<(OutputKind, Seq<char>)>::empty(),
    {
        let r = OutputSink { lines: Vec::new() };
        assert(r.waiting() =~= Seq::<(OutputKind, Seq<char>)>::empty());
        r
    }
}

/// What the callbacks write and the engine reads: the captured output, the receiver it is
/// forwarded to, and what is known of the last stop.
pub struct CallbackState {
    output: String,
    sink: Option<OutputSink>,
    last_breakpoint_id: Option<u32>,
    last_breakpoint_offset: Option<u64>,
    last_exception_code: Option<u32>,
    last_exception_address: Option<u64>,
    last_exit_code: Option<u32>,
    last_stop_reason: String,
}

/// What is known of the last stop.
pub struct StopFacts {
    pub reason: Seq<char>,
    pub breakpoint_id: Option<u32>,
    pub breakpoint_offset: Option<u64>,
    pub exception_code: Option<u32>,
    pub exception_address: Option<u64>,
    pub exit_code: Option<u32>,
}

impl StopFacts {
    /// Nothing is known.
    pub open spec fn nothing() -> StopFacts {
        StopFacts {
            reason: Seq::empty(),
            breakpoint_id: None,
            breakpoint_offset: None,
            exception_code: None,
            exception_address: None,
            exit_code: None,
        }
    }
}

/// The stop reason of a breakpoint hit.
pub open spec fn breakpoint_reason(id: u32, offset: u64) -> Seq<char> {
    "Breakpoint "@ + decimal(id as int) + " hit at "@ + hex_text(offset as nat)
}

/// The stop reason of an exception.
pub open spec fn exception_reason(first_chance: bool, code: u32, address: u64) -> Seq<char> {
    (if first_chance {
        "First-chance"@
    } else {
        "Second-chance"@
    }) + " exception "@ + (seq!['0', 'x'] + fixed_hex(code as nat, 8, true)) + " at "@ + hex_text(
        address as nat,
    )
}

/// The stop reason of a process exit.
pub open spec fn exit_reason(code: u32) -> Seq<char> {
    "Process exited with code "@ + decimal(code as int)
}

/// What an event handler answers the engine with, given a disposition: success for the
/// disposition that changes nothing, and otherwise the disposition as an `HRESULT`.
pub open spec fn disposition(value: u32) -> Result<(), u32> {
    if value == 0 {
        Ok(())
    } else {
        Err(value)
    }
}

/// The answer for a disposition.
pub fn status(value: u32) -> (r: Result<(), u32>)
    ensures
        r == disposition(value),
{
    if value == 0 {
        Ok(())
    } else {
        Err(value)
    }
}

/// Whether an exception breaks into the debugger: on its second chance always, on its first
/// chance only when it is the breakpoint instruction of the process start.
pub fn exception_breaks(first_chance: bool, code: u32) -> (r: bool)
    ensures
        r == (!first_chance || code == STATUS_BREAKPOINT),
        first_chance ==> (r <==> code == 0x8000_0003),
{
    !first_chance || code == STATUS_BREAKPOINT
}

/// The events that the engine is asked to report.
pub fn interest_mask() -> (r: u32)
    ensures
        r == DEBUG_EVENT_BREAKPOINT | DEBUG_EVENT_EXCEPTION | DEBUG_EVENT_CREATE_PROCESS
            | DEBUG_EVENT_EXIT_PROCESS | DEBUG_EVENT_LOAD_MODULE | DEBUG_EVENT_SESSION_STATUS,
        r == 0x273,
{
    assert(0x1u32 | 0x2 | 0x10 | 0x20 | 0x40 | 0x200 == 0x273) by (bit_vector);
    DEBUG_EVENT_BREAKPOINT | DEBUG_EVENT_EXCEPTION | DEBUG_EVENT_CREATE_PROCESS
        | DEBUG_EVENT_EXIT_PROCESS | DEBUG_EVENT_LOAD_MODULE | DEBUG_EVENT_SESSION_STATUS
}

impl Default for CallbackState {
    fn default() -> (r: CallbackState)
        ensures
            r.captured() == Seq::<char>::empty(),
            r.forwarded() is None,
            r.stop() == StopFacts::nothing(),
    {
        CallbackState::new()
    }
}

impl CallbackState {
    /// The captured output.
    pub closed spec fn captured(&self) -> Seq<char> {
        self.output@
    }

    /// The lines that wait in the installed receiver, if one is installed.
    pub closed spec fn forwarded(&self) -> Option<Seq<(OutputKind, Seq<char>)>> {
        match self.sink {
            Some(sink) => Some(sink.waiting()),
            None => None,
        }
    }

    /// What is known of the last stop.
    pub closed spec fn stop(&self) -> StopFacts {
        StopFacts {
            reason: self.last_stop_reason@,
            breakpoint_id: self.last_breakpoint_id,
            breakpoint_offset: self.last_breakpoint_offset,
            exception_code: self.last_exception_code,
            exception_address: self.last_exception_address,
            exit_code: self.last_exit_code,
        }
    }

    /// A state in which nothing has happened.
    pub fn new() -> (r: CallbackState)
        ensures
            r.captured() == Seq::<char>::empty(),
            r.forwarded() is None,
            r.stop() == StopFacts::nothing(),
    {
        CallbackState {
            output: String::new(),
            sink: None,
            last_breakpoint_id: None,
            last_breakpoint_offset: None,
            last_exception_code: None,
            last_exception_address: None,
            last_exit_code: None,
            last_stop_reason: String::new(),
        }
    }

    /// Installs a receiver for the output, or replaces the one that is installed.
    pub fn set_sink(&mut self, sink: OutputSink)
        ensures
            final(self).forwarded() == Some(sink.waiting()),
            final(self).captured() == old(self).captured(),
            final(self).stop() == old(self).stop(),
    {
        self.sink = Some(sink);
    }

    /// Takes the captured output away and leaves none.
    pub fn take_output(&mut self) -> (r: String)
        ensures
            r@ == old(self).captured(),
            final(self).captured() == Seq::<char>::empty(),
            final(self).forwarded() == old(self).forwarded(),
            final(self).stop() == old(self).stop(),
    {
        let mut taken: String = String::new();
        std::mem::swap(&mut taken, &mut self.output);
        taken
    }

    /// Takes the lines away that wait in the installed receiver, which stays installed.
    pub fn take_forwarded(&mut self) -> (r: Vec<OutputLine>)
        ensures
            old(self).forwarded() is None ==> r@.len() == 0 && final(self).forwarded() is None,
            old(self).forwarded() is Some ==> r@.map_values(|l: OutputLine| l.parts()) == old(
                self,
            ).forwarded()->0 && final(self).forwarded() == Some(
                Seq::<(OutputKind, Seq<char>)>::empty(),
            ),
            final(self).captured() == old(self).captured(),
            final(self).stop() == old(self).stop(),
    {
        match self.sink.take() {
            Some(sink) => {
                self.sink = Some(OutputSink::new());
                sink.lines
            },
            None => Vec::new(),
        }
    }

    /// The reason of the last stop; empty before the first one.
    pub fn last_stop_reason(&self) -> (r: String)
        ensures
            r@ == self.stop().reason,
    {
        self.last_stop_reason.clone()
    }

    /// The id of the breakpoint that was hit last.
    pub fn last_breakpoint_id(&self) -> (r: Option<u32>)
        ensures
            r == self.stop().breakpoint_id,
    {
        self.last_breakpoint_id
    }

    /// The offset of the breakpoint that was hit last.
    pub fn last_breakpoint_offset(&self) -> (r: Option<u64>)
        ensures
            r == self.stop().breakpoint_offset,
    {
        self.last_breakpoint_offset
    }

    /// The code of the last exception.
    pub fn last_exception_code(&self) -> (r: Option<u32>)
        ensures
            r == self.stop().exception_code,
    {
        self.last_exception_code
    }

    /// The address of the last exception.
    pub fn last_exception_address(&self) -> (r: Option<u64>)
        ensures
            r == self.stop().exception_address,
    {
        self.last_exception_address
    }

    /// The exit code of the process, once it has exited.
    pub fn last_exit_code(&self) -> (r: Option<u32>)
        ensures
            r == self.stop().exit_code,
    {
        self.last_exit_code
    }

    /// Captures a piece of output and forwards it to the receiver, if one is installed.
    pub fn record_output(&mut self, kind: OutputKind, text: &str)
        ensures
            final(self).captured() == old(self).captured() + text@,
            final(self).forwarded() == (match old(self).forwarded() {
                Some(lines) => Some(lines.push((kind, text@))),
                None => None,
            }),
            final(self).stop() == old(self).stop(),
    {
        self.output.append(text);
        match self.sink.take() {
            Some(mut sink) => {
                let ghost before = sink.waiting();
                sink.lines.push(OutputLine { kind, text: text.to_owned() });
                assert(sink.waiting() =~= before.push((kind, text@)));
                self.sink = Some(sink);
            },
            None => {},
        }
    }

    /// Handles one piece of output: an empty text is ignored, any other is recorded under the
    /// category of its mask.
    pub fn on_output(&mut self, mask: u32, text: &str)
        ensures
            final(self).captured() == old(self).captured() + text@,
            final(self).forwarded() == (match old(self).forwarded() {
                Some(lines) => if text@.len() == 0 {
                    Some(lines)
                } else {
                    Some(lines.push((OutputKind::of_mask(mask), text@)))
                },
                None => None,
            }),
            final(self).stop() == old(self).stop(),
    {
        if !text.is_empty() {
            self.record_output(OutputKind::from_mask(mask), text);
        } else {
            assert(self.captured() + text@ =~= self.captured());
        }
    }

    /// Handles a breakpoint hit: records where, and breaks.
    pub fn on_breakpoint(&mut self, id: u32, offset: u64) -> (r: Result<(), u32>)
        ensures
            final(self).stop() == (StopFacts {
                reason: breakpoint_reason(id, offset),
                breakpoint_id: Some(id),
                breakpoint_offset: Some(offset),
                ..old(self).stop()
            }),
            r == disposition(DEBUG_STATUS_BREAK),
            final(self).captured() == old(self).captured(),
            final(self).forwarded() == old(self).forwarded(),
    {
        self.last_breakpoint_id = Some(id);
        self.last_breakpoint_offset = Some(offset);
        self.last_stop_reason = text4(
            "Breakpoint ",
            render_u64(id as u64).as_str(),
            " hit at ",
            render_hex(offset).as_str(),
        );
        status(DEBUG_STATUS_BREAK)
    }

    /// Handles an exception: records it, and breaks or passes it on.
    pub fn on_exception(&mut self, code: u32, address: u64, first_chance: bool) -> (r: Result<
        (),
        u32,
    >)
        ensures
            final(self).stop() == (StopFacts {
                reason: exception_reason(first_chance, code, address),
                exception_code: Some(code),
                exception_address: Some(address),
                ..old(self).stop()
            }),
            r == (if !first_chance || code == STATUS_BREAKPOINT {
                disposition(DEBUG_STATUS_BREAK)
            } else {
                disposition(DEBUG_STATUS_NO_CHANGE)
            }),
            final(self).captured() == old(self).captured(),
            final(self).forwarded() == old(self).forwarded(),
    {
        self.last_exception_code = Some(code);
        self.last_exception_address = Some(address);
        let chance: &str = if first_chance {
            "First-chance"
        } else {
            "Second-chance"
        };
        let mut reason: String = text2(chance, " exception ");
        reason.append(render_hex8(code, true).as_str());
        reason.append(" at ");
        reason.append(render_hex(address).as_str());
        self.last_stop_reason = reason;
        if exception_breaks(first_chance, code) {
            status(DEBUG_STATUS_BREAK)
        } else {
            status(DEBUG_STATUS_NO_CHANGE)
        }
    }

    /// Handles the exit of the process: records its exit code, and breaks.
    pub fn on_exit_process(&mut self, code: u32) -> (r: Result<(), u32>)
        ensures
            final(self).stop() == (StopFacts {
                reason: exit_reason(code),
                exit_code: Some(code),
                ..old(self).stop()
            }),
            r == disposition(DEBUG_STATUS_BREAK),
            final(self).captured() == old(self).captured(),
            final(self).forwarded() == old(self).forwarded(),
    {
        self.last_exit_code = Some(code);
        self.last_stop_reason = text2(
            "Process exited with code ",
            render_u64(code as u64).as_str(),
        );
        status(DEBUG_STATUS_BREAK)
    }
}

/// The receiver of the engine's output events.
pub struct OutputCallbacks {
    pub state: Arc<Mutex<CallbackState>>,
}

impl OutputCallbacks {
    /// A receiver that records into `state`.
    pub fn new(state: Arc<Mutex<CallbackState>>) -> (r: OutputCallbacks)
        ensures
            r.state == state,
    {
        OutputCallbacks { state }
    }
}

/// The receiver of the engine's process events.
pub struct EventCallbacks {
    pub state: Arc<Mutex<CallbackState>>,
}

impl EventCallbacks {
    /// A receiver that records into `state`.
    pub fn new(state: Arc<Mutex<CallbackState>>) -> (r: EventCallbacks)
        ensures
            r.state == state,
    {
        EventCallbacks { state }
    }
}

// ---- what holds of what is recorded ----

/// Output is of the first kind whose bit its mask has: errors (2), warnings (4), prompts (0x10),
/// plain output (1); and of its own kind where it has none of them.
pub proof fn masks_have_their_kinds(mask: u32)
    ensures
        mask & 2 != 0 <==> OutputKind::of_mask(mask) is Error,
        mask & 2 == 0 && mask & 4 != 0 <==> OutputKind::of_mask(mask) is Warning,
        mask & 2 == 0 && mask & 4 == 0 && mask & 0x10 != 0 <==> OutputKind::of_mask(mask)
            is Prompt,
        mask & 2 == 0 && mask & 4 == 0 && mask & 0x10 == 0 && mask & 1 != 0
            <==> OutputKind::of_mask(mask) is Normal,
        OutputKind::of_mask(mask) matches OutputKind::Other(m) ==> m == mask,
{
}

/// The reasons of stops tell breakpoints, exceptions and exits apart by their own numbers: two
/// exits have the same reason only when they have the same code.
pub proof fn exit_reasons_name_their_code(a: u32, b: u32)
    ensures
        exit_reason(a) == exit_reason(b) ==> a == b,
{
    let head = "Process exited with code "@;
    assert(exit_reason(a).skip(head.len() as int) =~= decimal(a as int));
    assert(exit_reason(b).skip(head.len() as int) =~= decimal(b as int));
    different_numbers_look_different(a as int, b as int);
}

/// An event handler breaks into the debugger by answering with the disposition for it (6), and
/// lets the target go on by answering with success.
pub proof fn dispositions_are_answers(value: u32)
    ensures
        disposition(0) == Ok::<(), u32>(()),
        value > 0 ==> disposition(value) == Err::<(), u32>(value),
        disposition(DEBUG_STATUS_BREAK) == Err::<(), u32>(6),
        disposition(DEBUG_STATUS_NO_CHANGE) == Ok::<(), u32>(()),
{
}

} // verus!
