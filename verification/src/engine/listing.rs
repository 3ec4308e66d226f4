//! What disassembling and listing the modules do, from their first question to their result.
use super::courses::Course;
use super::host::{Answer, RawModule, Request};
use super::inspect::name_text;
use super::memory::{DecodedLine, DisassembleFlow, instruction_text, read_size};
use super::modules::{ModulesFlow, readable, symbol_status_text};
use crate::text::{address_text, decimal};
use crate::types::{Instruction, ModuleInfo};
use vstd::prelude::*;
use vstd::string::*;

verus! {

broadcast use vstd::string::group_string_axioms;

// ---- instructions ----

/// Whether this is the course of a disassembly of `count` instructions from `address` on.
pub open spec fn is_disassembly(
    c: Course<DisassembleFlow, Vec<Instruction>>,
    address: u64,
    count: u64,
) -> bool {
    &&& c.shaped()
    &&& c.flows[0].offset == address
    &&& c.flows[0].remaining == count
    &&& c.flows[0].lines@.len() == 0
    &&& forall|i: int|
        0 <= i < c.answers.len() ==> (#[trigger] c.flows[i]).expects(c.answers[i])
            && c.flows[i].steps(c.answers[i], c.flows[i + 1], c.nexts[i])
}

/// Where instruction number `k` lies: the first one at the address that was asked for, and every
/// other where the one before it ends.
pub open spec fn place_of_instruction(answers: Seq<Answer>, address: u64, k: int) -> u64 {
    if k == 0 {
        address
    } else {
        answers[k - 1]->Instruction_0->0.end
    }
}

/// Whether line number `k` is the instruction of answer number `k`, at its place.
pub open spec fn is_decoded(
    answers: Seq<Answer>,
    address: u64,
    lines: Seq<DecodedLine>,
    k: int,
) -> bool {
    &&& answers[k] matches Answer::Instruction(Some(raw))
    &&& lines[k].offset == place_of_instruction(answers, address, k)
    &&& lines[k].text@ == instruction_text(name_text(raw.text@))
}

proof fn disassembly_goes_on(
    c: Course<DisassembleFlow, Vec<Instruction>>,
    address: u64,
    count: u64,
    i: int,
)
    requires
        is_disassembly(c, address, count),
        0 <= i < c.answers.len(),
    ensures
        c.flows[i].remaining == count - i,
        c.flows[i].offset == place_of_instruction(c.answers, address, i),
        c.flows[i].lines@.len() == i,
        forall|k: int|
            0 <= k < i ==> #[trigger] is_decoded(c.answers, address, c.flows[i].lines@, k),
    decreases i,
{
    if i > 0 {
        disassembly_goes_on(c, address, count, i - 1);
        let before = c.flows[i - 1];
        let after = c.flows[i];
        assert(before.expects(c.answers[i - 1]));
        assert(after.expects(c.answers[i]));
        assert(after.lines@.drop_last() == before.lines@);
        assert forall|k: int| 0 <= k < i implies #[trigger] is_decoded(
            c.answers,
            address,
            after.lines@,
            k,
        ) by {
            if k < i - 1 {
                assert(is_decoded(c.answers, address, before.lines@, k));
                assert(after.lines@.drop_last()[k] == after.lines@[k]);
            } else {
                assert(after.lines@[k] == after.lines@.last());
            }
        }
    }
}

/// Every instruction is decoded where the one before it ends, beginning at the address that was
/// asked for.
pub proof fn instructions_are_decoded_in_a_row(
    c: Course<DisassembleFlow, Vec<Instruction>>,
    address: u64,
    count: u64,
    i: int,
    offset: u64,
)
    requires
        is_disassembly(c, address, count),
        c.asks(i, Request::Disassemble(offset)),
    ensures
        c.answers[i] matches Answer::Instruction(Some(raw)) && offset == raw.end && raw.end
            > place_of_instruction(c.answers, address, i),
        i + 1 < count,
{
    disassembly_goes_on(c, address, count, i);
    assert(c.flows[i].expects(c.answers[i]));
}

/// A disassembly gives as many instructions as were asked for, unless decoding failed or an
/// instruction did not advance: each at its own address and with its own text, in a row from the
/// address that was asked for.
pub proof fn instructions_are_given_in_a_row(
    c: Course<DisassembleFlow, Vec<Instruction>>,
    address: u64,
    count: u64,
    listing: Vec<Instruction>,
)
    requires
        is_disassembly(c, address, count),
        c.brings(listing),
    ensures
        listing@.len() <= count,
        listing@.len() <= c.answers.len() <= listing@.len() + 1,
        forall|k: int|
            0 <= k < listing@.len() ==> {
                &&& c.answers[k] matches Answer::Instruction(Some(raw))
                &&& (#[trigger] listing@[k]).address@ == address_text(
                    place_of_instruction(c.answers, address, k) as nat,
                )
                &&& listing@[k].instruction@ == instruction_text(name_text(raw.text@))
            },
        listing@.len() < count ==> match c.answers.last() {
            Answer::Instruction(Some(raw)) => raw.end <= place_of_instruction(
                c.answers,
                address,
                c.answers.len() - 1,
            ),
            answer => answer == Answer::Instruction(None),
        },
{
    let n = c.answers.len() as int;
    disassembly_goes_on(c, address, count, n - 1);
    let before = c.flows[n - 1];
    let after = c.flows[n];
    assert(before.expects(c.answers[n - 1]));
    assert forall|k: int| 0 <= k < listing@.len() implies {
        &&& c.answers[k] matches Answer::Instruction(Some(raw))
        &&& (#[trigger] listing@[k]).address@ == address_text(
            place_of_instruction(c.answers, address, k) as nat,
        )
        &&& listing@[k].instruction@ == instruction_text(name_text(raw.text@))
    } by {
        if k < n - 1 {
            assert(is_decoded(c.answers, address, before.lines@, k));
            if c.answers[n - 1]->Instruction_0 is Some {
                assert(after.lines@.drop_last()[k] == after.lines@[k]);
            }
            assert(after.lines@[k] == before.lines@[k]);
        } else {
            assert(after.lines@[k] == after.lines@.last());
        }
    }
}

// ---- memory ----

/// As many bytes are asked for as were wanted, up to what the engine takes at once.
pub proof fn reads_have_the_size_asked_for(size: usize)
    ensures
        size <= 0xFFFF_FFFF ==> read_size(size) == size,
        size > 0xFFFF_FFFF ==> read_size(size) == 0xFFFF_FFFF,
{
}

// ---- modules ----

/// The modules that can be read keep their order, and none of them is lost.
pub proof fn readable_modules_keep_their_order(raw: Seq<Option<RawModule>>, module: RawModule)
    ensures
        readable(Seq::empty()).len() == 0,
        readable(raw.push(None)) == readable(raw),
        readable(raw.push(Some(module))) == readable(raw).push(module),
{
    assert(raw.push(None).drop_last() =~= raw);
    assert(raw.push(Some(module)).drop_last() =~= raw);
}

proof fn all_readable(raw: Seq<Option<RawModule>>)
    requires
        forall|k: int| 0 <= k < raw.len() ==> (#[trigger] raw[k]) is Some,
    ensures
        readable(raw).len() == raw.len(),
        forall|k: int| 0 <= k < raw.len() ==> readable(raw)[k] == (#[trigger] raw[k])->0,
    decreases raw.len(),
{
    if raw.len() > 0 {
        let rest = raw.drop_last();
        assert forall|k: int| 0 <= k < rest.len() implies (#[trigger] rest[k]) is Some by {
            assert(raw[k] is Some);
        }
        all_readable(rest);
        assert(raw[raw.len() - 1] is Some);
        assert forall|k: int| 0 <= k < raw.len() implies readable(raw)[k] == (
        #[trigger] raw[k])->0 by {
            if k < rest.len() {
                assert(rest[k] == raw[k]);
            }
        }
    }
}

/// Whether this is the course of a listing of the modules.
pub open spec fn is_module_listing(c: Course<ModulesFlow, Vec<ModuleInfo>>) -> bool {
    &&& c.shaped()
    &&& c.flows[0].phase is Count
    &&& forall|i: int|
        0 <= i < c.answers.len() ==> (#[trigger] c.flows[i]).expects(c.answers[i])
            && c.flows[i].steps(c.answers[i], c.flows[i + 1], c.nexts[i])
}

/// All modules that the engine counts and can describe are listed, in its order, each with its own
/// name, base and size.
pub proof fn all_modules_are_listed(
    c: Course<ModulesFlow, Vec<ModuleInfo>>,
    list: Vec<ModuleInfo>,
)
    requires
        is_module_listing(c),
        c.brings(list),
        c.answers.len() > 1,
        c.answers[1] matches Answer::Modules(raw) && forall|k: int|
            0 <= k < raw@.len() ==> (#[trigger] raw@[k]) is Some,
    ensures
        c.answers.len() == 2,
        c.answers[0] matches Answer::Number(Ok(count)) && list@.len() == count && c.asks(
            0,
            Request::DescribeModules(count),
        ),
        forall|k: int|
            0 <= k < list@.len() ==> {
                let raw = c.answers[1]->Modules_0@[k]->0;
                &&& (#[trigger] list@[k]).base@ == address_text(raw.base as nat)
                &&& raw.name matches Some(bytes) ==> list@[k].name@ == name_text(bytes@)
                &&& raw.name is None ==> list@[k].name@.len() == 0
                &&& raw.params matches Some(params) ==> list@[k].size@ == decimal(params.0 as int)
                    && list@[k].symbol_status@ == symbol_status_text(params.1)
                &&& raw.params is None ==> list@[k].size@ == decimal(0)
                    && list@[k].symbol_status@ == "none"@
            },
{
    let n = c.answers.len();
    assert(c.flows[0].expects(c.answers[0]));
    assert(c.flows[1].expects(c.answers[1]));
    if n > 2 {
        assert(c.flows[2].expects(c.answers[2]));
    }
    let raw = c.answers[1]->Modules_0@;
    all_readable(raw);
    assert forall|k: int| 0 <= k < list@.len() implies {
        let found = raw[k]->0;
        &&& (#[trigger] list@[k]).base@ == address_text(found.base as nat)
        &&& found.name matches Some(bytes) ==> list@[k].name@ == name_text(bytes@)
        &&& found.name is None ==> list@[k].name@.len() == 0
        &&& found.params matches Some(params) ==> list@[k].size@ == decimal(params.0 as int)
            && list@[k].symbol_status@ == symbol_status_text(params.1)
        &&& found.params is None ==> list@[k].size@ == decimal(0) && list@[k].symbol_status@
            == "none"@
    } by {
        assert(raw[k] is Some);
        assert(readable(raw)[k] == raw[k]->0);
    }
}

/// A kind of symbols is said to be `pdb` exactly when names can be resolved with it (kinds 1, 2, 3,
/// 6 and 7), `export` for an export table (4), `deferred` while nothing is loaded (5), and `none`
/// otherwise.
pub proof fn kinds_of_symbols_have_their_names(symbol_type: u32)
    ensures
        (1 <= symbol_type <= 3 || symbol_type == 6 || symbol_type == 7) <==> symbol_status_text(
            symbol_type,
        ) == "pdb"@,
        symbol_type == 4 <==> symbol_status_text(symbol_type) == "export"@,
        symbol_type == 5 <==> symbol_status_text(symbol_type) == "deferred"@,
        (symbol_type == 0 || symbol_type > 7) <==> symbol_status_text(symbol_type) == "none"@,
{
    reveal_strlit("pdb");
    reveal_strlit("export");
    reveal_strlit("deferred");
    reveal_strlit("none");
    assert("pdb"@.len() == 3 && "export"@.len() == 6 && "deferred"@.len() == 8 && "none"@.len()
        == 4);
}

} // verus!
