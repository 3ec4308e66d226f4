//! Running debugger commands: raw ones, expressions, and the crash analysis.
use super::Engine;
use super::host::{Answer, Next, Request};
use crate::callbacks::CallbackState;
use crate::error::{ComError, EngineError};
use crate::text::{chars_of, contains_char, join_from, joined, string_of, text2, texts, trim, trimmed};
use crate::types::EvalResult;
use vstd::prelude::*;
use vstd::string::*;
use vstd::utf8::{char_is_scalar, encode_scalar, encode_utf8};

verus! {

broadcast use vstd::string::group_string_axioms;

// ---- commands ----

/// Whether a command is refused, for a zero in it, or asked for.
pub open spec fn asks_execute<T>(command: Seq<char>, next: Next<T>) -> bool {
    if command.contains('\0') {
        next.fails_engine("execute: command contains an interior NUL byte"@)
    } else {
        next matches Next::Ask(Request::Execute(text)) && text@ == command
    }
}

/// Whether `state` is `before` with its captured output taken away, or untouched when a command
/// was refused.
pub open spec fn drained(before: CallbackState, state: CallbackState, refused: bool) -> bool {
    &&& state.captured() == (if refused {
        before.captured()
    } else {
        Seq::empty()
    })
    &&& state.forwarded() == before.forwarded()
    &&& state.stop() == before.stop()
}

/// Begins a command: output from before it is dropped, so that what is captured is its own.
fn begin<T>(state: &mut CallbackState, command: String) -> (r: Next<T>)
    ensures
        asks_execute(command@, r),
        drained(*old(state), *final(state), command@.contains('\0')),
{
    if contains_char(command.as_str(), '\0') {
        Next::End(Err(EngineError::engine("execute: command contains an interior NUL byte")))
    } else {
        let _ = state.take_output();
        Next::Ask(Request::Execute(command))
    }
}

impl Engine {
    /// Begins to run a command.
    pub fn execute(&self, state: &mut CallbackState, command: &str) -> (r: Next<String>)
        ensures
            asks_execute(command@, r),
            drained(*old(state), *final(state), command@.contains('\0')),
    {
        begin(state, command.to_owned())
    }

    /// The output of a command, from the engine's answer. A failure counts only when nothing was
    /// captured: some commands fail and yet print what was asked for.
    pub fn executed(&self, state: &mut CallbackState, answer: Result<(), ComError>) -> (r: Result<
        String,
        EngineError,
    >)
        ensures
            drained(*old(state), *final(state), false),
            match answer {
                Err(e) if old(state).captured().len() == 0 => r matches Err(err) && err.is_op(
                    "Execute"@,
                    e,
                ),
                _ => r matches Ok(output) && output@ == old(state).captured(),
            },
    {
        let output: String = state.take_output();
        match answer {
            Err(e) => if output.as_str().is_empty() {
                Err(EngineError::op("Execute", e))
            } else {
                Ok(output)
            },
            Ok(_) => Ok(output),
        }
    }

    /// Begins to evaluate an expression, in the syntax of C++.
    pub fn evaluate(&self, state: &mut CallbackState, expr: &str) -> (r: Next<EvalResult>)
        ensures
            asks_execute("?? "@ + expr@, r),
            drained(*old(state), *final(state), ("?? "@ + expr@).contains('\0')),
    {
        begin(state, text2("?? ", expr))
    }

    /// The value of an expression, from the engine's answer: the output without the white space
    /// around it.
    pub fn evaluated(&self, state: &mut CallbackState, answer: Result<(), ComError>) -> (r: Result<
        EvalResult,
        EngineError,
    >)
        ensures
            drained(*old(state), *final(state), false),
            match answer {
                Err(e) if old(state).captured().len() == 0 => r matches Err(err) && err.is_op(
                    "Execute"@,
                    e,
                ),
                _ => r matches Ok(value) && value.result@ == trim(old(state).captured())
                    && value.ty@.len() == 0 && value.variables_reference == 0,
            },
    {
        match self.executed(state, answer) {
            Err(e) => Err(e),
            Ok(output) => Ok(
                EvalResult {
                    result: trimmed(output.as_str()),
                    ty: String::new(),
                    variables_reference: 0,
                },
            ),
        }
    }
}

// ---- the crash analysis ----

/// What the crash analysis is waiting for.
#[derive(Debug, Clone, Copy, PartialEq, Eq, Structural)]
pub enum AnalyzePhase {
    /// The directories of the debugger extensions to be set.
    ExtensionPath,
    Analyze,
    Over,
}

/// The crash analysis.
pub struct AnalyzeFlow {
    pub phase: AnalyzePhase,
}

/// The command that sets the directories of the debugger extensions.
pub open spec fn extension_path_text(dirs: Seq<Seq<char>>) -> Seq<char> {
    ".extpath "@ + joined(dirs, ";"@)
}

impl AnalyzeFlow {
    /// Whether `answer` answers what the analysis has asked for.
    pub open spec fn expects(self, answer: Answer) -> bool {
        self.phase !is Over && answer is Done
    }

    /// Goes on from an answer. The extension path is a help that may fail; the report is cut to
    /// a size that a reader can take.
    pub fn resume(&mut self, engine: &Engine, state: &mut CallbackState, answer: Answer) -> (r: Next<
        String,
    >)
        requires
            old(self).expects(answer),
        ensures
            drained(*old(state), *final(state), false),
            old(self).phase is ExtensionPath ==> final(self).phase is Analyze && (
            r matches Next::Ask(Request::Execute(text)) && text@ == "!analyze -v"@),
            old(self).phase is Analyze ==> final(self).phase is Over && match answer {
                Answer::Done(Err(e)) if old(state).captured().len() == 0 => r.fails_op(
                    "Execute"@,
                    e,
                ),
                _ => r matches Next::End(Ok(report)) && is_truncated(
                    old(state).captured(),
                    report@,
                ),
            },
    {
        let done: Result<(), ComError> = match answer {
            Answer::Done(done) => done,
            _ => Ok(()),
        };
        match self.phase {
            AnalyzePhase::ExtensionPath => {
                self.phase = AnalyzePhase::Analyze;
                let _ = state.take_output();
                Next::Ask(Request::Execute("!analyze -v".to_owned()))
            },
            _ => {
                self.phase = AnalyzePhase::Over;
                match engine.executed(state, done) {
                    Err(e) => Next::End(Err(e)),
                    Ok(report) => Next::End(Ok(truncate_output(report))),
                }
            },
        }
    }
}

impl Engine {
    /// Begins the crash analysis, with the directories of the debugger extensions set first
    /// where there are any that can be named.
    pub fn analyze(&self, state: &mut CallbackState, dirs: &Vec<String>) -> (r: (
        AnalyzeFlow,
        Request,
    ))
        ensures
            drained(*old(state), *final(state), false),
            r.1 matches Request::Execute(text) && if dirs@.len() > 0 && !extension_path_text(
                texts(dirs@),
            ).contains('\0') {
                r.0.phase is ExtensionPath && text@ == extension_path_text(texts(dirs@))
            } else {
                r.0.phase is Analyze && text@ == "!analyze -v"@
            },
    {
        let _ = state.take_output();
        if dirs.len() > 0 {
            let list: String = join_from(dirs, 0, ";");
            let command: String = text2(".extpath ", list.as_str());
            assert(texts(dirs@).skip(0) =~= texts(dirs@));
            if !contains_char(command.as_str(), '\0') {
                return (
                    AnalyzeFlow { phase: AnalyzePhase::ExtensionPath },
                    Request::Execute(command),
                );
            }
        }
        (
            AnalyzeFlow { phase: AnalyzePhase::Analyze },
            Request::Execute("!analyze -v".to_owned()),
        )
    }
}

// ---- long output ----

/// The most bytes of output that are kept.
pub const OUTPUT_CAP: usize = 32768;

/// What is put behind output that was cut.
pub const TRUNCATED: &'static str = "\n\n... (output truncated at 32KB)";

/// How many bytes a text takes.
pub open spec fn byte_len(s: Seq<char>) -> nat {
    encode_utf8(s).len()
}

/// Whether `r` is the output `s` cut to size: unchanged up to `OUTPUT_CAP` bytes; beyond that the
/// longest beginning of whole characters that fits, and a note.
pub open spec fn is_truncated(s: Seq<char>, r: Seq<char>) -> bool {
    if byte_len(s) <= OUTPUT_CAP {
        r == s
    } else {
        exists|n: int| #[trigger] is_longest(s, n) && r == s.take(n) + TRUNCATED@
    }
}

/// Whether the first `n` characters of `s` are as many as fit in `OUTPUT_CAP` bytes.
pub open spec fn is_longest(s: Seq<char>, n: int) -> bool {
    &&& 0 <= n < s.len()
    &&& byte_len(s.take(n)) <= OUTPUT_CAP
    &&& byte_len(s.take(n + 1)) > OUTPUT_CAP
}

proof fn encode_utf8_push(s: Seq<char>, c: char)
    ensures
        encode_utf8(s.push(c)) == encode_utf8(s) + encode_scalar(c as u32),
    decreases s.len(),
{
    if s.len() == 0 {
        assert(s.push(c).drop_first() =~= Seq::<char>::empty());
        assert(s.push(c)[0] == c);
        reveal_with_fuel(encode_utf8, 2);
        assert(encode_utf8(s.push(c)) =~= encode_utf8(s) + encode_scalar(c as u32));
    } else {
        assert(s.push(c).drop_first() =~= s.drop_first().push(c));
        encode_utf8_push(s.drop_first(), c);
        assert(encode_utf8(s.push(c)) =~= encode_utf8(s) + encode_scalar(c as u32));
    }
}

proof fn byte_len_grows(s: Seq<char>, n: int)
    requires
        0 <= n <= s.len(),
    ensures
        byte_len(s.take(n)) <= byte_len(s),
    decreases s.len() - n,
{
    if n == s.len() {
        assert(s.take(n) =~= s);
    } else {
        assert(s.take(n + 1) =~= s.take(n).push(s[n]));
        encode_utf8_push(s.take(n), s[n]);
        byte_len_grows(s, n + 1);
    }
}

/// How many bytes a character takes.
fn char_width(c: char) -> (r: usize)
    ensures
        r == encode_scalar(c as u32).len(),
        1 <= r <= 4,
{
    proof {
        char_is_scalar(c);
    }
    let v: u32 = c as u32;
    if v <= 0x7F {
        1
    } else if v <= 0x7FF {
        2
    } else if v <= 0xFFFF {
        3
    } else {
        4
    }
}

/// Output cut to size.
pub fn truncate_output(output: String) -> (r: String)
    ensures
        is_truncated(output@, r@),
{
    let chars: Vec<char> = chars_of(output.as_str());
    let mut n: usize = 0;
    let mut bytes: usize = 0;
    while n < chars.len()
        invariant
            n <= chars@.len(),
            chars@ == output@,
            bytes == byte_len(chars@.take(n as int)),
            bytes <= OUTPUT_CAP,
        decreases chars@.len() - n,
    {
        let width: usize = char_width(chars[n]);
        proof {
            assert(chars@.take(n + 1) =~= chars@.take(n as int).push(chars@[n as int]));
            encode_utf8_push(chars@.take(n as int), chars@[n as int]);
        }
        if bytes + width > OUTPUT_CAP {
            proof {
                byte_len_grows(chars@, n + 1);
                assert(is_longest(output@, n as int));
            }
            let head: String = string_of(&chars, 0, n);
            assert(head@ =~= output@.take(n as int));
            return text2(head.as_str(), TRUNCATED);
        }
        bytes = bytes + width;
        n = n + 1;
    }
    assert(chars@.take(n as int) =~= output@);
    output
}

/// Output that was cut begins as the output did, and what is kept of it fits in `OUTPUT_CAP`
/// bytes.
pub proof fn truncation_keeps_a_prefix(s: Seq<char>, r: Seq<char>)
    requires
        is_truncated(s, r),
    ensures
        r == s || exists|n: int|
            0 <= n < s.len() && r == #[trigger] s.take(n) + TRUNCATED@ && byte_len(s.take(n))
                <= OUTPUT_CAP,
{
}

/// Only one result is output cut to size.
pub proof fn truncation_is_unique(s: Seq<char>, a: Seq<char>, b: Seq<char>)
    requires
        is_truncated(s, a),
        is_truncated(s, b),
    ensures
        a == b,
{
    if byte_len(s) > OUTPUT_CAP {
        let m = choose|n: int| #[trigger] is_longest(s, n) && a == s.take(n) + TRUNCATED@;
        let n = choose|n: int| #[trigger] is_longest(s, n) && b == s.take(n) + TRUNCATED@;
        if m < n {
            assert(s.take(n).take(m + 1) =~= s.take(m + 1));
            byte_len_grows(s.take(n), m + 1);
        } else if n < m {
            assert(s.take(m).take(n + 1) =~= s.take(n + 1));
            byte_len_grows(s.take(m), n + 1);
        }
    }
}

/// A command is run exactly as it was given, unless it has a zero in it, which is refused; so two
/// commands that differ are run differently.
pub proof fn commands_are_run_as_given<T>(command: Seq<char>, next: Next<T>)
    requires
        asks_execute(command, next),
    ensures
        !command.contains('\0') ==> (next matches Next::Ask(Request::Execute(text)) && text@
            == command),
        command.contains('\0') ==> (next matches Next::End(Err(_))),
{
}

/// Output of up to 32768 bytes is never cut, and what is left of longer output is as much of its
/// beginning as fits.
pub proof fn short_output_is_never_cut(s: Seq<char>, r: Seq<char>)
    requires
        is_truncated(s, r),
    ensures
        byte_len(s) <= 32768 ==> r == s,
        byte_len(s) > 32768 ==> exists|n: int|
            0 <= n < s.len() && r == #[trigger] s.take(n) + TRUNCATED@ && byte_len(s.take(n))
                <= 32768 && byte_len(s.take(n + 1)) > 32768,
{
    if byte_len(s) > 32768 {
        let n = choose|n: int| #[trigger] is_longest(s, n) && r == s.take(n) + TRUNCATED@;
        assert(r == s.take(n) + TRUNCATED@);
    }
}

} // verus!
