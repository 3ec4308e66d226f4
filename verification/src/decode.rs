//! Decoding of the text buffers that the operating system fills.
use vstd::prelude::*;
use vstd::slice::slice_subrange;
use vstd::string::*;
use vstd::utf8::{decode_utf8, valid_utf8};

verus! {

/// What `String::from_utf8_lossy` makes of a byte sequence.
pub uninterp spec fn utf8_lossy_text(bytes: Seq<u8>) -> Seq<char>;

/// Whether the units begin with a surrogate pair: a high half, and a low half behind it.
pub open spec fn begins_with_pair(units: Seq<u16>) -> bool {
    units.len() > 1 && 0xD800 <= units[0] <= 0xDBFF && 0xDC00 <= units[1] <= 0xDFFF
}

/// The text that UTF-16 units stand for: a surrogate pair is one character, half of a pair by
/// itself is replaced by U+FFFD, and any other unit is the character of its value.
pub open spec fn utf16_lossy_text(units: Seq<u16>) -> Seq<char>
    decreases units.len(),
{
    if units.len() == 0 {
        Seq::empty()
    } else if begins_with_pair(units) {
        seq![(0x10000 + (units[0] - 0xD800) * 0x400 + (units[1] - 0xDC00)) as char]
            + utf16_lossy_text(units.skip(2))
    } else if 0xD800 <= units[0] <= 0xDFFF {
        seq!['\u{FFFD}'] + utf16_lossy_text(units.skip(1))
    } else {
        seq![units[0] as char] + utf16_lossy_text(units.skip(1))
    }
}

/// `String::from_utf8_lossy`: the text is a function of the bytes, and where the bytes are valid
/// UTF-8 it is what they encode. What invalid bytes are replaced by is left to the name.
#[verifier::external_body]
fn utf8_lossy(bytes: &[u8]) -> (r: String)
    ensures
        r@ == utf8_lossy_text(bytes@),
        valid_utf8(bytes@) ==> r@ == decode_utf8(bytes@),
{
    String::from_utf8_lossy(bytes).into_owned()
}

/// `String::from_utf16_lossy`: the text is what the units stand for as UTF-16, with U+FFFD in the
/// place of each surrogate that is not half of a pair.
#[verifier::external_body]
fn utf16_lossy(units: &[u16]) -> (r: String)
    ensures
        r@ == utf16_lossy_text(units@),
{
    String::from_utf16_lossy(units)
}

/// The part of a byte buffer before its first zero; all of it when it has none.
pub open spec fn before_zero(buf: Seq<u8>) -> Seq<u8>
    decreases buf.len(),
{
    if buf.len() == 0 || buf[0] == 0 {
        Seq::empty()
    } else {
        seq![buf[0]] + before_zero(buf.skip(1))
    }
}

/// The part of a buffer of 16-bit units before its first zero; all of it when it has none.
pub open spec fn before_zero_wide(buf: Seq<u16>) -> Seq<u16>
    decreases buf.len(),
{
    if buf.len() == 0 || buf[0] == 0 {
        Seq::empty()
    } else {
        seq![buf[0]] + before_zero_wide(buf.skip(1))
    }
}

proof fn before_zero_is_prefix(buf: Seq<u8>, n: int)
    requires
        0 <= n <= buf.len(),
        forall|i: int| 0 <= i < n ==> buf[i] != 0,
        n < buf.len() ==> buf[n] == 0,
    ensures
        before_zero(buf) == buf.take(n),
    decreases n,
{
    if n > 0 {
        assert forall|i: int| 0 <= i < n - 1 implies buf.skip(1)[i] != 0 by {
            assert(buf.skip(1)[i] == buf[i + 1]);
        }
        before_zero_is_prefix(buf.skip(1), n - 1);
        assert(buf.take(n) =~= seq![buf[0]] + buf.skip(1).take(n - 1));
    } else {
        assert(buf.take(0) =~= Seq::<u8>::empty());
    }
}

proof fn before_zero_wide_is_prefix(buf: Seq<u16>, n: int)
    requires
        0 <= n <= buf.len(),
        forall|i: int| 0 <= i < n ==> buf[i] != 0,
        n < buf.len() ==> buf[n] == 0,
    ensures
        before_zero_wide(buf) == buf.take(n),
    decreases n,
{
    if n > 0 {
        assert forall|i: int| 0 <= i < n - 1 implies buf.skip(1)[i] != 0 by {
            assert(buf.skip(1)[i] == buf[i + 1]);
        }
        before_zero_wide_is_prefix(buf.skip(1), n - 1);
        assert(buf.take(n) =~= seq![buf[0]] + buf.skip(1).take(n - 1));
    } else {
        assert(buf.take(0) =~= Seq::<u16>::empty());
    }
}

/// The text of a zero-terminated byte buffer.
pub fn cstr_from_buf(buf: &[u8]) -> (r: String)
    ensures
        r@ == utf8_lossy_text(before_zero(buf@)),
        valid_utf8(before_zero(buf@)) ==> r@ == decode_utf8(before_zero(buf@)),
{
    let mut end: usize = 0;
    while end < buf.len() && buf[end] != 0
        invariant
            end <= buf@.len(),
            forall|i: int| 0 <= i < end ==> buf@[i] != 0,
        decreases buf@.len() - end,
    {
        end = end + 1;
    }
    proof {
        before_zero_is_prefix(buf@, end as int);
        assert(buf@.take(end as int) =~= buf@.subrange(0, end as int));
    }
    utf8_lossy(slice_subrange(buf, 0, end))
}

/// The text of a zero-terminated buffer of 16-bit units.
pub fn wide_to_string(buf: &[u16]) -> (r: String)
    ensures
        r@ == utf16_lossy_text(before_zero_wide(buf@)),
{
    let mut end: usize = 0;
    while end < buf.len() && buf[end] != 0
        invariant
            end <= buf@.len(),
            forall|i: int| 0 <= i < end ==> buf@[i] != 0,
        decreases buf@.len() - end,
    {
        end = end + 1;
    }
    proof {
        before_zero_wide_is_prefix(buf@, end as int);
        assert(buf@.take(end as int) =~= buf@.subrange(0, end as int));
    }
    utf16_lossy(slice_subrange(buf, 0, end))
}

/// The text of a buffer ends before its first zero, wherever that is.
pub proof fn buffers_end_at_their_first_zero(buf: Seq<u8>, n: int)
    requires
        0 <= n <= buf.len(),
        forall|i: int| 0 <= i < n ==> buf[i] != 0,
        n < buf.len() ==> buf[n] == 0,
    ensures
        before_zero(buf) == buf.take(n),
{
    before_zero_is_prefix(buf, n);
}

/// The text of a wide buffer ends before its first zero, wherever that is.
pub proof fn wide_buffers_end_at_their_first_zero(buf: Seq<u16>, n: int)
    requires
        0 <= n <= buf.len(),
        forall|i: int| 0 <= i < n ==> buf[i] != 0,
        n < buf.len() ==> buf[n] == 0,
    ensures
        before_zero_wide(buf) == buf.take(n),
{
    before_zero_wide_is_prefix(buf, n);
}

/// Units that are no surrogates stand for themselves, one character for each.
pub proof fn plain_units_stand_for_themselves(units: Seq<u16>)
    requires
        forall|i: int| 0 <= i < units.len() ==> !(0xD800 <= #[trigger] units[i] <= 0xDFFF),
    ensures
        utf16_lossy_text(units).len() == units.len(),
        forall|i: int| 0 <= i < units.len() ==> utf16_lossy_text(units)[i] == #[trigger] units[i] as char,
    decreases units.len(),
{
    if units.len() > 0 {
        let rest = units.skip(1);
        assert(!(0xD800 <= units[0] <= 0xDFFF));
        assert forall|i: int| 0 <= i < rest.len() implies !(0xD800 <= #[trigger] rest[i]
            <= 0xDFFF) by {
            assert(rest[i] == units[i + 1]);
        }
        plain_units_stand_for_themselves(rest);
        assert forall|i: int| 0 <= i < units.len() implies utf16_lossy_text(units)[i]
            == #[trigger] units[i] as char by {
            if i > 0 {
                assert(rest[i - 1] == units[i]);
            }
        }
    }
}

} // verus!
