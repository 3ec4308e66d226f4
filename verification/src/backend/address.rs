//! Addresses as texts.
use crate::error::BackendError;
use crate::text::{
    address_digits_read_back, address_text, chars_of, decimal, digit_char, digits, digits_read_back,
    fixed_hex, is_space, is_upper_hex, read_unsigned, text3, trim, trim_bounds, trim_end, trim_start,
    unsigned_value,
};
use vstd::prelude::*;
use vstd::string::*;

verus! {

broadcast use vstd::string::group_string_axioms;

/// Whether a text begins as a hexadecimal number does.
pub open spec fn is_hex(s: Seq<char>) -> bool {
    s.len() >= 2 && s[0] == '0' && (s[1] == 'x' || s[1] == 'X')
}

/// The address that a text stands for: hexadecimal behind `0x`, and otherwise decimal. White
/// space around it does not count.
pub open spec fn address_value(s: Seq<char>) -> Option<nat> {
    let t = trim(s);
    let v = if is_hex(t) {
        unsigned_value(t.skip(2), 16)
    } else {
        unsigned_value(t, 10)
    };
    match v {
        Some(n) if n <= u64::MAX => Some(n),
        _ => None,
    }
}

/// Reads an address.
pub fn parse_address(address: &str) -> (r: Result<u64, BackendError>)
    ensures
        match address_value(address@) {
            Some(n) => r matches Ok(value) && value == n,
            None => r matches Err(e) && e.is_dap("invalid address: '"@ + address@ + "'"@),
        },
{
    let all: Vec<char> = chars_of(address);
    let (start, end) = trim_bounds(&all);
    let mut chars: Vec<char> = Vec::new();
    let mut i: usize = start;
    while i < end
        invariant
            start <= i <= end <= all@.len(),
            chars@ == all@.subrange(start as int, i as int),
        decreases end - i,
    {
        chars.push(all[i]);
        i = i + 1;
        assert(chars@ =~= all@.subrange(start as int, i as int));
    }
    assert(chars@ == trim(address@));
    let value: Option<u64> = if chars.len() >= 2 && chars[0] == '0' && (chars[1] == 'x' || chars[1]
        == 'X') {
        read_unsigned(&chars, 2, 16)
    } else {
        assert(chars@.skip(0) =~= chars@);
        read_unsigned(&chars, 0, 10)
    };
    match value {
        Some(n) => Ok(n),
        None => Err(BackendError::Dap { message: text3("invalid address: '", address, "'") }),
    }
}

/// An address that was written is read back.
pub proof fn addresses_read_back(n: u64)
    ensures
        address_value(address_text(n as nat)) == Some(n as nat),
{
    let s = address_text(n as nat);
    let body = fixed_hex(n as nat, 16, true);
    address_digits_read_back(n);
    assert(s.len() == 18);
    assert(s[0] == '0' && s[1] == 'x');
    assert(!is_space(s[0]));
    assert(trim_start(s) == s);
    assert(s.last() == body[15]);
    assert(is_upper_hex(body[15]));
    assert(trim_end(s) == s);
    assert(s.skip(2) =~= body);
    assert(is_upper_hex(body[0]));
    assert(body[0] != '+');
}

/// An address that was written in decimal is read, too.
pub proof fn decimal_addresses_are_read(n: u64)
    ensures
        address_value(decimal(n as int)) == Some(n as nat),
{
    let s = decimal(n as int);
    digits_read_back(n as nat, 10, true);
    decimal_digits_only(n as nat);
    assert(!is_space(s[0]));
    assert(trim_start(s) == s);
    assert(!is_space(s.last()));
    assert(trim_end(s) == s);
    if s.len() >= 2 {
        assert(s[1] as int <= '9' as int);
    }
}

proof fn decimal_digits_only(n: nat)
    ensures
        forall|i: int|
            0 <= i < digits(n, 10, true).len() ==> '0' as int <= (#[trigger] digits(n, 10, true)[i])
                as int <= '9' as int,
    decreases n,
{
    if n >= 10 {
        decimal_digits_only(n / 10);
        let high = digits(n / 10, 10, true);
        let low = digit_char((n % 10) as int, true);
        assert(digits(n, 10, true) == high.push(low));
        assert forall|i: int| 0 <= i < digits(n, 10, true).len() implies '0' as int <= (
        #[trigger] digits(n, 10, true)[i]) as int <= '9' as int by {
            if i < high.len() {
                assert(digits(n, 10, true)[i] == high[i]);
            }
        }
    }
}

} // verus!
