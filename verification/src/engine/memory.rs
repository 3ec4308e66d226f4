//! Reading memory and disassembling it.
use super::Engine;
use super::host::{Answer, Next, RawBytes, RawInstruction, Request};
use super::inspect::name_text;
use crate::decode::cstr_from_buf;
use crate::error::{ComError, EngineError};
use crate::text::{address_text, join_from, joined, render_address, trim, trimmed, words, words_of};
use crate::types::{Instruction, MemoryRead};
use vstd::prelude::*;
use vstd::string::*;

verus! {

broadcast use vstd::string::group_string_axioms;

// ---- memory ----

/// How many bytes are asked for: the engine takes a 32-bit length.
pub open spec fn read_size(size: usize) -> u32 {
    if size > u32::MAX {
        u32::MAX
    } else {
        size as u32
    }
}

impl Engine {
    /// Begins to read memory.
    pub fn read_memory(&self, address: u64, size: usize) -> (r: Request)
        ensures
            r == (Request::ReadVirtual { address, size: read_size(size) }),
            r matches Request::ReadVirtual { address: a, size: n } && a == address && (size
                <= 0xFFFF_FFFF ==> n == size) && (size > 0xFFFF_FFFF ==> n == 0xFFFF_FFFF),
    {
        let size: u32 = if size > 0xFFFF_FFFF {
            0xFFFF_FFFF
        } else {
            size as u32
        };
        Request::ReadVirtual { address, size }
    }
}

/// The memory that was read, from the engine's answer: the bytes that it filled.
pub fn memory_read(address: u64, answer: Result<RawBytes, ComError>) -> (r: Result<
    MemoryRead,
    EngineError,
>)
    ensures
        match answer {
            Err(e) => r matches Err(err) && err.is_op("ReadVirtual"@, e),
            Ok(raw) => r matches Ok(memory) && memory.address@ == address_text(address as nat)
                && memory.data@ == (if raw.read <= raw.bytes@.len() {
                raw.bytes@.take(raw.read as int)
            } else {
                raw.bytes@
            }),
        },
{
    match answer {
        Err(e) => Err(EngineError::op("ReadVirtual", e)),
        Ok(raw) => {
            let mut data: Vec<u8> = raw.bytes;
            let n: usize = raw.read as usize;
            if n <= data.len() {
                data.truncate(n);
            }
            Ok(MemoryRead { address: render_address(address), data })
        },
    }
}

// ---- instructions ----

/// The instruction in a line of disassembly: what follows its first two words, the address and
/// the raw bytes. A line of fewer words is kept whole.
pub open spec fn instruction_text(line: Seq<char>) -> Seq<char> {
    let columns = words(trim(line));
    if columns.len() > 2 {
        joined(columns.skip(2), " "@)
    } else {
        trim(line)
    }
}

/// The instruction in a line of disassembly.
pub fn parse_disasm_text(line: &str) -> (r: String)
    ensures
        r@ == instruction_text(line@),
{
    let whole: String = trimmed(line);
    let columns: Vec<String> = words_of(whole.as_str());
    if columns.len() > 2 {
        join_from(&columns, 2, " ")
    } else {
        whole
    }
}

/// One line of disassembly: where the instruction lies, and its text.
#[derive(Debug, Clone, PartialEq, Eq)]
pub struct DecodedLine {
    pub offset: u64,
    pub text: String,
}

/// The disassembly of a run of instructions. It ends after so many instructions, where decoding
/// fails, and after an instruction that does not advance.
pub struct DisassembleFlow {
    /// How many instructions are still wanted.
    pub remaining: u64,
    /// Where the next instruction lies.
    pub offset: u64,
    pub lines: Vec<DecodedLine>,
}

/// Whether `listing` shows the lines `lines`.
pub open spec fn is_listing(lines: Seq<DecodedLine>, listing: Seq<Instruction>) -> bool {
    &&& listing.len() == lines.len()
    &&& forall|i: int|
        0 <= i < listing.len() ==> {
            &&& (#[trigger] listing[i]).address@ == address_text(lines[i].offset as nat)
            &&& listing[i].instruction@ == lines[i].text@
            &&& listing[i].bytes@.len() == 0
            &&& listing[i].symbol@.len() == 0
            &&& listing[i].source_path is None
            &&& listing[i].line == 0
        }
}

impl DisassembleFlow {
    /// Whether `answer` answers what the disassembly has asked for.
    pub open spec fn expects(self, answer: Answer) -> bool {
        self.remaining > 0 && Request::Disassemble(self.offset).answered_by(answer)
    }

    /// Whether the lines so far lie one after another, all before the next one.
    pub open spec fn advances(self) -> bool {
        &&& forall|i: int, j: int|
            0 <= i < j < self.lines@.len() ==> (#[trigger] self.lines@[i]).offset < (
            #[trigger] self.lines@[j]).offset
        &&& self.remaining > 0 ==> forall|i: int|
            0 <= i < self.lines@.len() ==> (#[trigger] self.lines@[i]).offset < self.offset
    }

    /// Whether `line` is what was decoded at `offset`.
    pub open spec fn decoded(offset: u64, raw: RawInstruction, line: DecodedLine) -> bool {
        line.offset == offset && line.text@ == instruction_text(name_text(raw.text@))
    }

    /// How a disassembly goes on from one answer to the next question.
    pub open spec fn steps(
        self,
        answer: Answer,
        after: DisassembleFlow,
        next: Next<Vec<Instruction>>,
    ) -> bool {
        match answer {
            Answer::Instruction(None) => after.lines@ == self.lines@ && after.remaining == 0 && (
            next matches Next::End(Ok(listing)) && is_listing(self.lines@, listing@)),
            Answer::Instruction(Some(raw)) => {
                &&& after.lines@.len() == self.lines@.len() + 1
                &&& after.lines@.drop_last() == self.lines@
                &&& Self::decoded(self.offset, raw, after.lines@.last())
                &&& if raw.end > self.offset && self.remaining > 1 {
                    after.remaining == self.remaining - 1 && after.offset == raw.end && next
                        == Next::<Vec<Instruction>>::Ask(Request::Disassemble(raw.end))
                } else {
                    after.remaining == 0 && (next matches Next::End(Ok(listing)) && is_listing(
                        after.lines@,
                        listing@,
                    ))
                }
            },
            _ => false,
        }
    }

    /// Goes on from an answer.
    pub fn resume(&mut self, answer: Answer) -> (r: Next<Vec<Instruction>>)
        requires
            old(self).expects(answer),
        ensures
            old(self).steps(answer, *final(self), r),
            old(self).advances() ==> final(self).advances(),
    {
        match answer {
            Answer::Instruction(Some(raw)) => {
                let text: String = parse_disasm_text(cstr_from_buf(raw.text.as_slice()).as_str());
                self.lines.push(DecodedLine { offset: self.offset, text });
                assert(self.lines@.drop_last() =~= old(self).lines@);
                if raw.end > self.offset && self.remaining > 1 {
                    self.remaining = self.remaining - 1;
                    self.offset = raw.end;
                    Next::Ask(Request::Disassemble(raw.end))
                } else {
                    self.remaining = 0;
                    Next::End(Ok(listing_of(&self.lines)))
                }
            },
            _ => {
                self.remaining = 0;
                Next::End(Ok(listing_of(&self.lines)))
            },
        }
    }
}

/// The instructions that the lines of a disassembly show.
pub fn listing_of(lines: &Vec<DecodedLine>) -> (r: Vec<Instruction>)
    ensures
        is_listing(lines@, r@),
{
    let mut out: Vec<Instruction> = Vec::new();
    let mut i: usize = 0;
    while i < lines.len()
        invariant
            i <= lines@.len(),
            is_listing(lines@.take(i as int), out@),
        decreases lines@.len() - i,
    {
        out.push(
            Instruction {
                address: render_address(lines[i].offset),
                instruction: lines[i].text.clone(),
                bytes: String::new(),
                symbol: String::new(),
                source_path: None,
                line: 0,
            },
        );
        i = i + 1;
    }
    assert(lines@.take(i as int) =~= lines@);
    out
}

impl Engine {
    /// Begins to disassemble `count` instructions from `address` on; none for a negative count.
    pub fn disassemble(&self, address: u64, count: i64) -> (r: (
        DisassembleFlow,
        Next<Vec<Instruction>>,
    ))
        ensures
            r.0.remaining == (if count > 0 {
                count as int
            } else {
                0
            }),
            r.0.offset == address,
            r.0.lines@.len() == 0,
            r.0.advances(),
            if count > 0 {
                r.1 == Next::<Vec<Instruction>>::Ask(Request::Disassemble(address))
            } else {
                r.1 matches Next::End(Ok(listing)) && listing@.len() == 0
            },
    {
        if count > 0 {
            (
                DisassembleFlow { remaining: count as u64, offset: address, lines: Vec::new() },
                Next::Ask(Request::Disassemble(address)),
            )
        } else {
            (
                DisassembleFlow { remaining: 0, offset: address, lines: Vec::new() },
                Next::End(Ok(Vec::new())),
            )
        }
    }
}

} // verus!
