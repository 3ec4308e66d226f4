//! Finding a process by the name of its executable.
use crate::decode::{
    before_zero_wide, utf16_lossy_text, wide_buffers_end_at_their_first_zero, wide_to_string,
};
use crate::text::{chars_of, same_text, string_of};
use vstd::prelude::*;
use vstd::string::*;

verus! {

broadcast use vstd::string::group_string_axioms;

/// One entry of a process snapshot: the process id, and the raw wide-character buffer with the
/// name of the executable.
#[derive(Debug, Clone, PartialEq, Eq)]
pub struct ProcessEntry {
    pub pid: u32,
    pub exe: Vec<u16>,
}

/// A character with the ASCII letters in lower case.
pub open spec fn lower(c: char) -> char {
    if 'A' as int <= c as int <= 'Z' as int {
        (c as int + 32) as char
    } else {
        c
    }
}

/// A text with the ASCII letters in lower case.
pub open spec fn lowered(s: Seq<char>) -> Seq<char> {
    s.map_values(|c: char| lower(c))
}

/// What process names are compared by: in lower case, without one `.exe` at the end.
pub open spec fn base_text(name: Seq<char>) -> Seq<char> {
    let low = lowered(name);
    if ".exe"@.is_suffix_of(low) {
        low.take(low.len() - 4)
    } else {
        low
    }
}

fn lower_char(c: char) -> (r: char)
    ensures
        r == lower(c),
{
    match c {
        'A' => 'a',
        'B' => 'b',
        'C' => 'c',
        'D' => 'd',
        'E' => 'e',
        'F' => 'f',
        'G' => 'g',
        'H' => 'h',
        'I' => 'i',
        'J' => 'j',
        'K' => 'k',
        'L' => 'l',
        'M' => 'm',
        'N' => 'n',
        'O' => 'o',
        'P' => 'p',
        'Q' => 'q',
        'R' => 'r',
        'S' => 's',
        'T' => 't',
        'U' => 'u',
        'V' => 'v',
        'W' => 'w',
        'X' => 'x',
        'Y' => 'y',
        'Z' => 'z',
        other => other,
    }
}

/// What process names are compared by.
pub fn base_name(name: &str) -> (r: String)
    ensures
        r@ == base_text(name@),
{
    let chars: Vec<char> = chars_of(name);
    let mut low: Vec<char> = Vec::new();
    let mut i: usize = 0;
    while i < chars.len()
        invariant
            i <= chars@.len(),
            low@ == lowered(chars@.take(i as int)),
        decreases chars@.len() - i,
    {
        low.push(lower_char(chars[i]));
        i = i + 1;
        assert(low@ =~= lowered(chars@.take(i as int)));
    }
    assert(chars@.take(i as int) =~= name@);
    let n: usize = low.len();
    proof {
        reveal_strlit(".exe");
    }
    let exe: bool = n >= 4 && low[n - 4] == '.' && low[n - 3] == 'e' && low[n - 2] == 'x' && low[n
        - 1] == 'e';
    proof {
        if exe {
            assert(low@.subrange(n - 4, n as int) =~= ".exe"@);
            assert(".exe"@.is_suffix_of(low@));
        } else if ".exe"@.is_suffix_of(low@) {
            let tail = low@.subrange(n - 4, n as int);
            assert(tail[0] == '.' && tail[1] == 'e' && tail[2] == 'x' && tail[3] == 'e');
        }
    }
    if exe {
        let r: String = string_of(&low, 0, n - 4);
        assert(r@ =~= low@.take(n - 4));
        r
    } else {
        let r: String = string_of(&low, 0, n);
        assert(r@ =~= low@);
        r
    }
}

/// Whether a process whose executable is `exe` answers to `name`.
pub fn answers_to(exe: &str, name: &str) -> (r: bool)
    ensures
        r == (base_text(exe@) == base_text(name@)),
{
    same_text(base_name(exe).as_str(), base_name(name).as_str())
}

/// The text of a raw wide-character buffer.
pub open spec fn wide_text(buf: Seq<u16>) -> Seq<char> {
    utf16_lossy_text(before_zero_wide(buf))
}

/// Whether an entry of a snapshot answers to `name`.
pub open spec fn is_named(entry: ProcessEntry, name: Seq<char>) -> bool {
    base_text(wide_text(entry.exe@)) == base_text(name)
}

/// The id of the first process in a snapshot that answers to `name`.
pub fn find_process_by_name(name: &str, snapshot: &Vec<ProcessEntry>) -> (r: Option<u32>)
    ensures
        match r {
            Some(pid) => exists|i: int|
                0 <= i < snapshot@.len() && pid == (#[trigger] snapshot@[i]).pid && is_named(
                    snapshot@[i],
                    name@,
                ) && forall|j: int| 0 <= j < i ==> !is_named(#[trigger] snapshot@[j], name@),
            None => forall|j: int|
                0 <= j < snapshot@.len() ==> !is_named(#[trigger] snapshot@[j], name@),
        },
{
    let mut i: usize = 0;
    while i < snapshot.len()
        invariant
            i <= snapshot@.len(),
            forall|j: int| 0 <= j < i ==> !is_named(#[trigger] snapshot@[j], name@),
        decreases snapshot@.len() - i,
    {
        let exe: String = wide_to_string(snapshot[i].exe.as_slice());
        if answers_to(exe.as_str(), name) {
            return Some(snapshot[i].pid);
        }
        i = i + 1;
    }
    None
}

/// A name matches with and without `.exe`, in upper and in lower case.
pub proof fn names_fold(name: Seq<char>, other: Seq<char>)
    ensures
        base_text(name + ".exe"@) == lowered(name),
        lowered(name) == lowered(other) ==> base_text(name) == base_text(other),
        base_text(lowered(name)) == base_text(name),
{
    reveal_strlit(".exe");
    let whole = lowered(name + ".exe"@);
    assert(whole =~= lowered(name) + ".exe"@);
    assert(whole.subrange(whole.len() - 4, whole.len() as int) =~= ".exe"@);
    assert(".exe"@.is_suffix_of(whole));
    assert(whole.take(whole.len() - 4) =~= lowered(name));
    assert(lowered(lowered(name)) =~= lowered(name));
}

/// Two characters are the same to a comparison of names exactly when they are the same letter, in
/// upper or in lower case, or the same character.
pub proof fn only_letters_fold(c: char, d: char)
    ensures
        lower(c) == lower(d) <==> c == d || ('A' as int <= c as int <= 'Z' as int && d as int
            == c as int + 32) || ('A' as int <= d as int <= 'Z' as int && c as int == d as int
            + 32),
{
}

/// Names whose lengths differ, without `.exe`, never match: a name is not matched by a part of it.
pub proof fn names_match_as_wholes(name: Seq<char>, other: Seq<char>)
    requires
        !".exe"@.is_suffix_of(lowered(name)),
        !".exe"@.is_suffix_of(lowered(other)),
    ensures
        base_text(name) == base_text(other) <==> name.len() == other.len() && forall|i: int|
            0 <= i < name.len() ==> lower(#[trigger] name[i]) == lower(other[i]),
{
    if base_text(name) == base_text(other) {
        assert(lowered(name).len() == lowered(other).len());
        assert forall|i: int| 0 <= i < name.len() implies lower(#[trigger] name[i]) == lower(
            other[i],
        ) by {
            assert(lowered(name)[i] == lowered(other)[i]);
        }
    }
    if name.len() == other.len() && (forall|i: int|
        0 <= i < name.len() ==> lower(#[trigger] name[i]) == lower(other[i])) {
        assert(lowered(name) =~= lowered(other));
    }
}

/// A process answers to the name that its executable has, up to the first zero of the buffer, and
/// to that name without `.exe`.
pub proof fn processes_answer_to_their_own_name(entry: ProcessEntry, n: int, name: Seq<char>)
    requires
        0 <= n <= entry.exe@.len(),
        forall|i: int| 0 <= i < n ==> entry.exe@[i] != 0,
        n < entry.exe@.len() ==> entry.exe@[n] == 0,
    ensures
        is_named(entry, utf16_lossy_text(entry.exe@.take(n))),
        utf16_lossy_text(entry.exe@.take(n)) == name + ".exe"@ && !".exe"@.is_suffix_of(
            lowered(name),
        ) ==> is_named(entry, name),
{
    wide_buffers_end_at_their_first_zero(entry.exe@, n);
    names_fold(name, name);
}

} // verus!
