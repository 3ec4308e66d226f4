//! Text building blocks: comparison, joining, trimming, word splitting, and the rendering and
//! reading of numbers, all specified over sequences of characters.
use vstd::arithmetic::div_mod::{lemma_div_decreases, lemma_mod_breakdown, lemma_small_mod};
use vstd::prelude::*;
use vstd::string::*;

verus! {

broadcast use vstd::string::group_string_axioms;

/// `String::push`: the character is appended to the end of the string.
pub assume_specification[ String::push ](s: &mut String, c: char)
    ensures
        final(s)@ == old(s)@.push(c),
;

// ---- characters of a string ----

/// The characters of `s`, in order.
pub fn chars_of(s: &str) -> (r: Vec<char>)
    ensures
        r@ == s@,
{
    let mut out: Vec<char> = Vec::new();
    for c in it: s.chars()
        invariant
            it.seq() == s@,
            out@ == s@.take(it.index()),
    {
        out.push(c);
    }
    out
}

/// The string of the characters `chars[from..to]`.
pub fn string_of(chars: &Vec<char>, from: usize, to: usize) -> (r: String)
    requires
        from <= to <= chars@.len(),
    ensures
        r@ == chars@.subrange(from as int, to as int),
{
    let mut out: String = String::new();
    let mut i: usize = from;
    while i < to
        invariant
            from <= i <= to <= chars@.len(),
            out@ == chars@.subrange(from as int, i as int),
        decreases to - i,
    {
        out.push(chars[i]);
        i = i + 1;
    }
    out
}

/// Whether two character vectors hold the same text.
pub fn same_chars(a: &Vec<char>, b: &Vec<char>) -> (r: bool)
    ensures
        r == (a@ == b@),
{
    if a.len() != b.len() {
        return false;
    }
    let mut i: usize = 0;
    while i < a.len()
        invariant
            i <= a@.len(),
            a@.len() == b@.len(),
            a@.take(i as int) == b@.take(i as int),
        decreases a@.len() - i,
    {
        if a[i] != b[i] {
            assert(a@[i as int] != b@[i as int]);
            return false;
        }
        assert(a@.take(i + 1) =~= a@.take(i as int).push(a@[i as int]));
        assert(b@.take(i + 1) =~= b@.take(i as int).push(b@[i as int]));
        i = i + 1;
    }
    assert(a@.take(a@.len() as int) =~= a@);
    assert(b@.take(b@.len() as int) =~= b@);
    true
}

/// Whether two strings hold the same text.
pub fn same_text(a: &str, b: &str) -> (r: bool)
    ensures
        r == (a@ == b@),
{
    same_chars(&chars_of(a), &chars_of(b))
}

/// Whether `s` begins with `prefix`.
pub fn starts_with(s: &str, prefix: &str) -> (r: bool)
    ensures
        r == prefix@.is_prefix_of(s@),
{
    let text = chars_of(s);
    let head = chars_of(prefix);
    if text.len() < head.len() {
        return false;
    }
    let mut i: usize = 0;
    while i < head.len()
        invariant
            i <= head@.len() <= text@.len(),
            head@ == prefix@,
            text@ == s@,
            forall|j: int| 0 <= j < i ==> head@[j] == text@[j],
        decreases head@.len() - i,
    {
        if head[i] != text[i] {
            assert(prefix@[i as int] != s@[i as int]);
            assert(!prefix@.is_prefix_of(s@)) by {
                if prefix@.is_prefix_of(s@) {
                    assert(prefix@[i as int] == s@.subrange(0, prefix@.len() as int)[i as int]);
                }
            }
            return false;
        }
        i = i + 1;
    }
    assert(prefix@ =~= s@.subrange(0, prefix@.len() as int));
    true
}

/// Whether the character `c` occurs in `s`.
pub fn contains_char(s: &str, c: char) -> (r: bool)
    ensures
        r == s@.contains(c),
{
    let text = chars_of(s);
    let mut i: usize = 0;
    while i < text.len()
        invariant
            i <= text@.len(),
            text@ == s@,
            forall|j: int| 0 <= j < i ==> text@[j] != c,
        decreases text@.len() - i,
    {
        if text[i] == c {
            assert(s@[i as int] == c);
            return true;
        }
        i = i + 1;
    }
    false
}

// ---- concatenation ----

/// `a` followed by `b`.
pub fn text2(a: &str, b: &str) -> (r: String)
    ensures
        r@ == a@ + b@,
{
    let mut out: String = a.to_owned();
    out.append(b);
    out
}

/// `a`, `b` and `c` in a row.
pub fn text3(a: &str, b: &str, c: &str) -> (r: String)
    ensures
        r@ == a@ + b@ + c@,
{
    let mut out: String = text2(a, b);
    out.append(c);
    out
}

/// `a`, `b`, `c` and `d` in a row.
pub fn text4(a: &str, b: &str, c: &str, d: &str) -> (r: String)
    ensures
        r@ == a@ + b@ + c@ + d@,
{
    let mut out: String = text3(a, b, c);
    out.append(d);
    out
}

/// The texts of a vector of strings.
pub open spec fn texts(v: Seq<String>) -> Seq<Seq<char>> {
    v.map_values(|s: String| s@)
}

/// The text in an optional string.
pub open spec fn optional_text(s: Option<String>) -> Option<Seq<char>> {
    match s {
        Some(s) => Some(s@),
        None => None,
    }
}

/// The parts of `parts` with `sep` between neighbours.
pub open spec fn joined(parts: Seq<Seq<char>>, sep: Seq<char>) -> Seq<char>
    decreases parts.len(),
{
    if parts.len() == 0 {
        Seq::empty()
    } else if parts.len() == 1 {
        parts[0]
    } else {
        joined(parts.drop_last(), sep) + sep + parts.last()
    }
}

/// Joins the strings of `parts`, from index `from` on, with `sep` between neighbours.
pub fn join_from(parts: &Vec<String>, from: usize, sep: &str) -> (r: String)
    requires
        from <= parts@.len(),
    ensures
        r@ == joined(texts(parts@).skip(from as int), sep@),
{
    let mut out: String = String::new();
    let mut i: usize = from;
    let ghost all = texts(parts@).skip(from as int);
    while i < parts.len()
        invariant
            from <= i <= parts@.len(),
            all == texts(parts@).skip(from as int),
            out@ == joined(all.take(i - from), sep@),
        decreases parts@.len() - i,
    {
        let ghost before = all.take(i - from);
        let ghost after = all.take(i + 1 - from);
        proof {
            assert(after.drop_last() =~= before);
            assert(after.last() == parts@[i as int]@);
        }
        if i > from {
            out.append(sep);
        }
        out.append(parts[i].as_str());
        proof {
            if i == from {
                assert(out@ =~= parts@[i as int]@);
            }
        }
        i = i + 1;
    }
    assert(all.take(parts@.len() - from) =~= all);
    out
}

// ---- order ----

/// The lexicographic order of two texts, by character code.
pub open spec fn text_less(a: Seq<char>, b: Seq<char>) -> bool
    decreases a.len(),
{
    if b.len() == 0 {
        false
    } else if a.len() == 0 {
        true
    } else if a[0] == b[0] {
        text_less(a.skip(1), b.skip(1))
    } else {
        (a[0] as int) < (b[0] as int)
    }
}

/// The code of a character.
fn code_of(c: char) -> (r: u32)
    ensures
        r as int == c as int,
{
    c as u32
}

/// Whether `a` comes before `b` in lexicographic order.
pub fn is_text_less(a: &str, b: &str) -> (r: bool)
    ensures
        r == text_less(a@, b@),
{
    let x = chars_of(a);
    let y = chars_of(b);
    let mut i: usize = 0;
    proof {
        assert(x@.skip(0) =~= x@);
        assert(y@.skip(0) =~= y@);
    }
    while i < x.len() && i < y.len()
        invariant
            i <= x@.len(),
            i <= y@.len(),
            x@ == a@,
            y@ == b@,
            text_less(x@, y@) == text_less(x@.skip(i as int), y@.skip(i as int)),
        decreases x@.len() - i,
    {
        proof {
            assert(x@.skip(i as int).skip(1) =~= x@.skip(i + 1));
            assert(y@.skip(i as int).skip(1) =~= y@.skip(i + 1));
            assert(x@.skip(i as int)[0] == x@[i as int]);
            assert(y@.skip(i as int)[0] == y@[i as int]);
        }
        if x[i] != y[i] {
            return code_of(x[i]) < code_of(y[i]);
        }
        i = i + 1;
    }
    y.len() > i
}

/// The order on texts is irreflexive, total and transitive.
pub proof fn text_less_is_a_strict_order(a: Seq<char>, b: Seq<char>, c: Seq<char>)
    ensures
        !text_less(a, a),
        a == b || text_less(a, b) || text_less(b, a),
        !(text_less(a, b) && text_less(b, a)),
        text_less(a, b) && text_less(b, c) ==> text_less(a, c),
    decreases a.len() + b.len() + c.len(),
{
    if a.len() > 0 && b.len() > 0 {
        if c.len() > 0 {
            text_less_is_a_strict_order(a.skip(1), b.skip(1), c.skip(1));
        } else {
            text_less_is_a_strict_order(a.skip(1), b.skip(1), c);
        }
        if a[0] == b[0] && a.skip(1) == b.skip(1) {
            assert(a =~= seq![a[0]] + a.skip(1));
            assert(b =~= seq![b[0]] + b.skip(1));
        }
    } else if a.len() > 0 {
        text_less_is_a_strict_order(a.skip(1), b, c);
    } else if b.len() == 0 {
        assert(a =~= b);
    }
}

// ---- numbers: rendering ----

/// The character of one digit, `d < 16`; letters are upper case when `upper` is set.
pub open spec fn digit_char(d: int, upper: bool) -> char {
    if d < 10 {
        (('0' as int) + d) as char
    } else if upper {
        (('A' as int) + d - 10) as char
    } else {
        (('a' as int) + d - 10) as char
    }
}

/// The digits of `n` in `base`, without leading zeros; zero is a single digit.
pub open spec fn digits(n: nat, base: nat, upper: bool) -> Seq<char>
    decreases n,
{
    if n < base || base < 2 {
        seq![digit_char(n as int, upper)]
    } else {
        proof {
            lemma_div_decreases(n as int, base as int);
        }
        digits(n / base, base, upper).push(digit_char((n % base) as int, upper))
    }
}

/// The last `width` digits of `n` in base sixteen, with leading zeros.
pub open spec fn fixed_hex(n: nat, width: nat, upper: bool) -> Seq<char>
    decreases width,
{
    if width == 0 {
        Seq::empty()
    } else {
        fixed_hex(n / 16, (width - 1) as nat, upper).push(digit_char((n % 16) as int, upper))
    }
}

/// A signed number in decimal.
pub open spec fn decimal(n: int) -> Seq<char> {
    if n < 0 {
        seq!['-'] + digits((-n) as nat, 10, true)
    } else {
        digits(n as nat, 10, true)
    }
}

/// An address as `0x` and sixteen upper-case hexadecimal digits.
pub open spec fn address_text(n: nat) -> Seq<char> {
    seq!['0', 'x'] + fixed_hex(n, 16, true)
}

/// A number as `0x` and its upper-case hexadecimal digits.
pub open spec fn hex_text(n: nat) -> Seq<char> {
    seq!['0', 'x'] + digits(n, 16, true)
}

/// The character of one digit.
fn digit(d: u8, upper: bool) -> (r: char)
    requires
        d < 16,
    ensures
        r == digit_char(d as int, upper),
{
    if d < 10 {
        (48 + d) as char
    } else if upper {
        (65 + (d - 10)) as char
    } else {
        (97 + (d - 10)) as char
    }
}

/// Appends the digits of `n` in `base`.
fn push_digits(out: &mut String, n: u64, base: u64, upper: bool)
    requires
        2 <= base <= 16,
    ensures
        final(out)@ == old(out)@ + digits(n as nat, base as nat, upper),
    decreases n,
{
    if n >= base {
        proof {
            lemma_div_decreases(n as int, base as int);
        }
        push_digits(out, n / base, base, upper);
    } else {
        proof {
            lemma_small_mod(n as nat, base as nat);
        }
    }
    out.push(digit((n % base) as u8, upper));
    assert(out@ =~= old(out)@ + digits(n as nat, base as nat, upper));
}

/// Appends the last `width` hexadecimal digits of `n`.
fn push_fixed_hex(out: &mut String, n: u64, width: u8, upper: bool)
    ensures
        final(out)@ == old(out)@ + fixed_hex(n as nat, width as nat, upper),
    decreases width,
{
    if width > 0 {
        push_fixed_hex(out, n / 16, width - 1, upper);
        out.push(digit((n % 16) as u8, upper));
    }
    assert(out@ =~= old(out)@ + fixed_hex(n as nat, width as nat, upper));
}

/// `n` as `0x` and sixteen upper-case hexadecimal digits.
pub fn render_address(n: u64) -> (r: String)
    ensures
        r@ == address_text(n as nat),
{
    let mut out: String = String::new();
    out.push('0');
    out.push('x');
    push_fixed_hex(&mut out, n, 16, true);
    assert(out@ =~= address_text(n as nat));
    out
}

/// `n` as `0x` and its upper-case hexadecimal digits.
pub fn render_hex(n: u64) -> (r: String)
    ensures
        r@ == hex_text(n as nat),
{
    let mut out: String = String::new();
    out.push('0');
    out.push('x');
    push_digits(&mut out, n, 16, true);
    assert(out@ =~= hex_text(n as nat));
    out
}

/// `n` as `0x` and eight hexadecimal digits.
pub fn render_hex8(n: u32, upper: bool) -> (r: String)
    ensures
        r@ == seq!['0', 'x'] + fixed_hex(n as nat, 8, upper),
{
    let mut out: String = String::new();
    out.push('0');
    out.push('x');
    push_fixed_hex(&mut out, n as u64, 8, upper);
    assert(out@ =~= seq!['0', 'x'] + fixed_hex(n as nat, 8, upper));
    out
}

/// `n` in decimal.
pub fn render_u64(n: u64) -> (r: String)
    ensures
        r@ == decimal(n as int),
{
    let mut out: String = String::new();
    push_digits(&mut out, n, 10, true);
    assert(out@ =~= decimal(n as int));
    out
}

/// `n` in decimal, with a minus sign when it is negative.
pub fn render_i64(n: i64) -> (r: String)
    ensures
        r@ == decimal(n as int),
{
    let mut out: String = String::new();
    if n < 0 {
        out.push('-');
        let magnitude: u64 = if n == i64::MIN { 0x8000_0000_0000_0000u64 } else { (-n) as u64 };
        push_digits(&mut out, magnitude, 10, true);
        assert(out@ =~= seq!['-'] + digits((-(n as int)) as nat, 10, true));
    } else {
        push_digits(&mut out, n as u64, 10, true);
        assert(out@ =~= digits(n as nat, 10, true));
    }
    out
}

// ---- numbers: reading ----

/// The value of a digit character, if it is one in `base`.
pub open spec fn digit_value(c: char, base: nat) -> Option<nat> {
    let v: int = if '0' as int <= c as int <= '9' as int {
        c as int - '0' as int
    } else if 'a' as int <= c as int <= 'z' as int {
        c as int - 'a' as int + 10
    } else if 'A' as int <= c as int <= 'Z' as int {
        c as int - 'A' as int + 10
    } else {
        base as int
    };
    if v < base {
        Some(v as nat)
    } else {
        None
    }
}

/// The number that a run of digits stands for, if every character is a digit in `base`.
pub open spec fn digits_value(s: Seq<char>, base: nat) -> Option<nat>
    decreases s.len(),
{
    if s.len() == 0 {
        Some(0)
    } else {
        match (digits_value(s.drop_last(), base), digit_value(s.last(), base)) {
            (Some(high), Some(low)) => Some(high * base + low),
            _ => None,
        }
    }
}

/// An unsigned number as a text may give it: an optional plus sign, then at least one digit.
pub open spec fn unsigned_value(s: Seq<char>, base: nat) -> Option<nat> {
    let body = if s.len() > 0 && s[0] == '+' {
        s.skip(1)
    } else {
        s
    };
    if body.len() == 0 {
        None
    } else {
        digits_value(body, base)
    }
}

/// The value of a digit character.
fn read_digit(c: char, base: u64) -> (r: Option<u64>)
    requires
        2 <= base <= 16,
    ensures
        match r {
            Some(v) => v < base && digit_value(c, base as nat) == Some(v as nat),
            None => digit_value(c, base as nat) is None,
        },
{
    let code: u32 = c as u32;
    let v: u64 = if 48 <= code && code <= 57 {
        (code - 48) as u64
    } else if 97 <= code && code <= 122 {
        (code - 97) as u64 + 10
    } else if 65 <= code && code <= 90 {
        (code - 65) as u64 + 10
    } else {
        base
    };
    if v < base {
        Some(v)
    } else {
        None
    }
}

/// The digits of a longer run stand for at least as much.
proof fn digits_value_grows(s: Seq<char>, n: int, base: nat)
    requires
        0 <= n <= s.len(),
        base >= 1,
        digits_value(s, base) is Some,
    ensures
        digits_value(s.take(n), base) is Some,
        digits_value(s.take(n), base)->0 <= digits_value(s, base)->0,
    decreases s.len() - n,
{
    if n < s.len() {
        digits_value_grows(s, n + 1, base);
        let longer = s.take(n + 1);
        assert(longer.drop_last() =~= s.take(n));
        let high = digits_value(s.take(n), base)->0;
        assert(high <= high * base) by (nonlinear_arith)
            requires
                base >= 1,
        ;
    } else {
        assert(s.take(n) =~= s);
    }
}

/// Reads `chars[from..]` as an unsigned number in `base` that fits 64 bits.
pub fn read_unsigned(chars: &Vec<char>, from: usize, base: u64) -> (r: Option<u64>)
    requires
        from <= chars@.len(),
        2 <= base <= 16,
    ensures
        match r {
            Some(v) => unsigned_value(chars@.skip(from as int), base as nat) == Some(v as nat),
            None => match unsigned_value(chars@.skip(from as int), base as nat) {
                Some(v) => v > u64::MAX,
                None => true,
            },
        },
{
    let ghost text = chars@.skip(from as int);
    let mut start: usize = from;
    if from < chars.len() && chars[from] == '+' {
        start = from + 1;
    }
    let ghost body = chars@.skip(start as int);
    proof {
        if start == from + 1 {
            assert(text.skip(1) =~= body);
        }
    }
    if start == chars.len() {
        return None;
    }
    let mut value: u64 = 0;
    let mut i: usize = start;
    while i < chars.len()
        invariant
            start <= i <= chars@.len(),
            start < chars@.len(),
            2 <= base <= 16,
            body == chars@.skip(start as int),
            digits_value(body.take(i - start), base as nat) == Some(value as nat),
            unsigned_value(text, base as nat) == digits_value(body, base as nat),
            text == chars@.skip(from as int),
        decreases chars@.len() - i,
    {
        let ghost longer = body.take(i + 1 - start);
        proof {
            assert(longer.drop_last() =~= body.take(i - start));
            assert(longer.last() == chars@[i as int]);
            if digits_value(body, base as nat) is Some {
                digits_value_grows(body, i + 1 - start, base as nat);
            }
        }
        let low: u64 = match read_digit(chars[i], base) {
            Some(v) => v,
            None => {
                return None;
            },
        };
        assert(digits_value(longer, base as nat) == Some((value * base + low) as nat));
        let high: u64 = match value.checked_mul(base) {
            Some(v) => v,
            None => {
                return None;
            },
        };
        value = match high.checked_add(low) {
            Some(v) => v,
            None => {
                return None;
            },
        };
        i = i + 1;
    }
    assert(body.take(chars@.len() - start) =~= body);
    Some(value)
}

/// Sixteen hexadecimal digits read back as the number that they were made from.
proof fn fixed_hex_reads_back(n: nat, width: nat, upper: bool)
    ensures
        digits_value(fixed_hex(n, width, upper), 16) == Some(n % hex_span(width)),
        fixed_hex(n, width, upper).len() == width,
    decreases width,
{
    if width > 0 {
        let w = (width - 1) as nat;
        fixed_hex_reads_back(n / 16, w, upper);
        let s = fixed_hex(n, width, upper);
        assert(s.drop_last() =~= fixed_hex(n / 16, w, upper));
        assert(digit_value(digit_char((n % 16) as int, upper), 16) == Some(n % 16));
        hex_span_positive(w);
        let m = hex_span(w);
        let q = n / 16;
        assert((q % m) * 16 + n % 16 == n % (m * 16)) by {
            lemma_mod_breakdown(n as int, 16, m as int);
            assert(16 * ((n / 16) % m) + n % 16 == n % (16 * m));
            assert(16 * m == m * 16) by (nonlinear_arith);
        }
    }
}

/// Sixteen to the power `width`.
pub open spec fn hex_span(width: nat) -> nat
    decreases width,
{
    if width == 0 {
        1
    } else {
        hex_span((width - 1) as nat) * 16
    }
}

proof fn hex_span_positive(width: nat)
    ensures
        hex_span(width) > 0,
    decreases width,
{
    if width > 0 {
        hex_span_positive((width - 1) as nat);
    }
}

/// The sixteen digits of a rendered 64-bit address read back as that address.
pub proof fn address_digits_read_back(n: u64)
    ensures
        digits_value(fixed_hex(n as nat, 16, true), 16) == Some(n as nat),
        fixed_hex(n as nat, 16, true).len() == 16,
        forall|i: int| 0 <= i < 16 ==> is_upper_hex(#[trigger] fixed_hex(n as nat, 16, true)[i]),
{
    fixed_hex_reads_back(n as nat, 16, true);
    fixed_hex_is_upper(n as nat, 16);
    assert(hex_span(16) == 0x1_0000_0000_0000_0000) by {
        reveal_with_fuel(hex_span, 17);
    }
}

/// A decimal digit or an upper-case letter from `A` to `F`.
pub open spec fn is_upper_hex(c: char) -> bool {
    '0' as int <= c as int <= '9' as int || 'A' as int <= c as int <= 'F' as int
}

proof fn fixed_hex_is_upper(n: nat, width: nat)
    ensures
        fixed_hex(n, width, true).len() == width,
        forall|i: int| 0 <= i < width ==> is_upper_hex(#[trigger] fixed_hex(n, width, true)[i]),
    decreases width,
{
    if width > 0 {
        fixed_hex_is_upper(n / 16, (width - 1) as nat);
    }
}

// ---- white space ----

/// Whether a character is white space, as Unicode lists it.
pub open spec fn is_space(c: char) -> bool {
    let n = c as int;
    ||| 9 <= n <= 13
    ||| n == 0x20
    ||| n == 0x85
    ||| n == 0xA0
    ||| n == 0x1680
    ||| 0x2000 <= n <= 0x200A
    ||| n == 0x2028
    ||| n == 0x2029
    ||| n == 0x202F
    ||| n == 0x205F
    ||| n == 0x3000
}

/// `s` without leading white space.
pub open spec fn trim_start(s: Seq<char>) -> Seq<char>
    decreases s.len(),
{
    if s.len() > 0 && is_space(s[0]) {
        trim_start(s.skip(1))
    } else {
        s
    }
}

/// `s` without trailing white space.
pub open spec fn trim_end(s: Seq<char>) -> Seq<char>
    decreases s.len(),
{
    if s.len() > 0 && is_space(s.last()) {
        trim_end(s.drop_last())
    } else {
        s
    }
}

/// `s` without leading and trailing white space.
pub open spec fn trim(s: Seq<char>) -> Seq<char> {
    trim_end(trim_start(s))
}

/// The length of the word that `s` begins with.
pub open spec fn word_len(s: Seq<char>) -> int
    decreases s.len(),
{
    if s.len() == 0 || is_space(s[0]) {
        0
    } else {
        1 + word_len(s.skip(1))
    }
}

pub proof fn word_len_bounds(s: Seq<char>)
    ensures
        0 <= word_len(s) <= s.len(),
    decreases s.len(),
{
    if s.len() > 0 && !is_space(s[0]) {
        word_len_bounds(s.skip(1));
    }
}

/// Trimming the start drops characters only.
pub proof fn trim_start_bounds(s: Seq<char>)
    ensures
        trim_start(s).len() <= s.len(),
        trim_start(s).len() > 0 ==> !is_space(trim_start(s)[0]),
    decreases s.len(),
{
    if s.len() > 0 && is_space(s[0]) {
        trim_start_bounds(s.skip(1));
    }
}

/// The words of `s`: its longest runs of characters that are not white space, in order.
pub open spec fn words(s: Seq<char>) -> Seq<Seq<char>>
    decreases s.len(),
{
    let t = trim_start(s);
    if t.len() == 0 {
        Seq::empty()
    } else {
        let n = word_len(t);
        proof {
            trim_start_bounds(s);
            word_len_bounds(t);
            word_len_bounds(t.skip(1));
        }
        seq![t.take(n)] + words(t.skip(n))
    }
}

/// Whether a character is white space.
pub fn space(c: char) -> (r: bool)
    ensures
        r == is_space(c),
{
    let n: u32 = c as u32;
    (9 <= n && n <= 13) || n == 0x20 || n == 0x85 || n == 0xA0 || n == 0x1680 || (0x2000 <= n && n
        <= 0x200A) || n == 0x2028 || n == 0x2029 || n == 0x202F || n == 0x205F || n == 0x3000
}

/// The first position from `from` on that is not white space.
fn skip_spaces(chars: &Vec<char>, from: usize) -> (r: usize)
    requires
        from <= chars@.len(),
    ensures
        from <= r <= chars@.len(),
        chars@.skip(r as int) == trim_start(chars@.skip(from as int)),
{
    let mut i: usize = from;
    while i < chars.len() && space(chars[i])
        invariant
            from <= i <= chars@.len(),
            trim_start(chars@.skip(i as int)) == trim_start(chars@.skip(from as int)),
        decreases chars@.len() - i,
    {
        assert(chars@.skip(i as int).skip(1) =~= chars@.skip(i + 1));
        i = i + 1;
    }
    i
}

/// The bounds of the trimmed text within `chars`.
pub fn trim_bounds(chars: &Vec<char>) -> (r: (usize, usize))
    ensures
        r.0 <= r.1 <= chars@.len(),
        chars@.subrange(r.0 as int, r.1 as int) == trim(chars@),
{
    let start: usize = skip_spaces(chars, 0);
    let mut end: usize = chars.len();
    assert(chars@.skip(0) =~= chars@);
    assert(chars@.skip(start as int) =~= chars@.subrange(start as int, end as int));
    while end > start && space(chars[end - 1])
        invariant
            start <= end <= chars@.len(),
            trim_end(chars@.subrange(start as int, end as int)) == trim(chars@),
        decreases end,
    {
        assert(chars@.subrange(start as int, end as int).drop_last() =~= chars@.subrange(
            start as int,
            end - 1,
        ));
        end = end - 1;
    }
    (start, end)
}

/// `s` without leading and trailing white space.
pub fn trimmed(s: &str) -> (r: String)
    ensures
        r@ == trim(s@),
{
    let chars = chars_of(s);
    let bounds = trim_bounds(&chars);
    string_of(&chars, bounds.0, bounds.1)
}

/// The words of `s`, in order.
pub fn words_of(s: &str) -> (r: Vec<String>)
    ensures
        texts(r@) == words(s@),
{
    let chars = chars_of(s);
    let mut out: Vec<String> = Vec::new();
    let mut i: usize = skip_spaces(&chars, 0);
    proof {
        assert(chars@.skip(0) =~= chars@);
        trim_start_is_stable(chars@);
        assert(texts(out@) + words(chars@.skip(i as int)) =~= words(s@));
    }
    while i < chars.len()
        invariant
            i <= chars@.len(),
            trim_start(chars@.skip(i as int)) == chars@.skip(i as int),
            texts(out@) + words(chars@.skip(i as int)) == words(s@),
        decreases chars@.len() - i,
    {
        let ghost rest = chars@.skip(i as int);
        let mut end: usize = i;
        proof {
            trim_start_bounds(rest);
            word_len_bounds(rest);
        }
        while end < chars.len() && !space(chars[end])
            invariant
                i <= end <= chars@.len(),
                rest == chars@.skip(i as int),
                word_len(rest) == (end - i) + word_len(chars@.skip(end as int)),
            decreases chars@.len() - end,
        {
            assert(chars@.skip(end as int).skip(1) =~= chars@.skip(end + 1));
            end = end + 1;
        }
        assert(word_len(rest) == end - i);
        assert(rest.take(end - i) =~= chars@.subrange(i as int, end as int));
        assert(rest.skip(end - i) =~= chars@.skip(end as int));
        let ghost before = out@;
        out.push(string_of(&chars, i, end));
        let next: usize = skip_spaces(&chars, end);
        proof {
            trim_start_is_stable(chars@.skip(end as int));
            assert(rest[0] == chars@[i as int]);
            assert(texts(out@) =~= texts(before).push(rest.take(end - i)));
            assert(texts(before) + words(rest) =~= texts(out@) + words(chars@.skip(end as int)));
        }
        i = next;
    }
    assert(chars@.skip(i as int).len() == 0);
    assert(texts(out@) =~= words(s@));
    out
}

/// Trimming the start twice is trimming it once, and leaves the words alone.
pub proof fn trim_start_is_stable(s: Seq<char>)
    ensures
        trim_start(trim_start(s)) == trim_start(s),
        words(trim_start(s)) == words(s),
    decreases s.len(),
{
    if s.len() > 0 && is_space(s[0]) {
        trim_start_is_stable(s.skip(1));
    }
}

// ---- what holds of rendered texts ----

/// A number that was written in base ten or sixteen is read back.
pub proof fn digits_read_back(n: nat, base: nat, upper: bool)
    requires
        base == 10 || base == 16,
    ensures
        digits_value(digits(n, base, upper), base) == Some(n),
        digits(n, base, upper).len() > 0,
        digits(n, base, upper)[0] as int >= '0' as int,
    decreases n,
{
    if n < base {
        let s = digits(n, base, upper);
        assert(s.drop_last() =~= Seq::<char>::empty());
        assert(digits_value(s.drop_last(), base) == Some(0nat));
        assert(digit_value(digit_char(n as int, upper), base) == Some(n));
    } else {
        lemma_div_decreases(n as int, base as int);
        digits_read_back(n / base, base, upper);
        let s = digits(n, base, upper);
        let high = digits(n / base, base, upper);
        assert(s.drop_last() =~= high);
        assert(s[0] == high[0]);
        assert(digit_value(digit_char((n % base) as int, upper), base) == Some(n % base));
        if base == 10 {
            assert(n == (n / 10) * 10 + n % 10);
        } else {
            assert(n == (n / 16) * 16 + n % 16);
        }
    }
}

/// Numbers that differ are written differently, in decimal and in hexadecimal.
pub proof fn different_numbers_look_different(a: int, b: int)
    ensures
        decimal(a) == decimal(b) ==> a == b,
        a >= 0 && b >= 0 && hex_text(a as nat) == hex_text(b as nat) ==> a == b,
        a >= 0 ==> unsigned_value(decimal(a), 10) == Some(a as nat),
{
    let x: nat = if a < 0 {
        (-a) as nat
    } else {
        a as nat
    };
    let y: nat = if b < 0 {
        (-b) as nat
    } else {
        b as nat
    };
    digits_read_back(x, 10, true);
    digits_read_back(y, 10, true);
    let p = digits(x, 10, true);
    let q = digits(y, 10, true);
    if a < 0 {
        assert(decimal(a).skip(1) =~= p);
        assert(decimal(a)[0] == '-');
    }
    if b < 0 {
        assert(decimal(b).skip(1) =~= q);
        assert(decimal(b)[0] == '-');
    }
    if a >= 0 && b >= 0 {
        digits_read_back(x, 16, true);
        digits_read_back(y, 16, true);
        assert(hex_text(a as nat).skip(2) =~= digits(x, 16, true));
        assert(hex_text(b as nat).skip(2) =~= digits(y, 16, true));
    }
}

/// Addresses that differ are written differently.
pub proof fn different_addresses_look_different(a: u64, b: u64)
    ensures
        address_text(a as nat) == address_text(b as nat) ==> a == b,
        address_text(a as nat).len() == 18,
        address_text(a as nat)[0] == '0' && address_text(a as nat)[1] == 'x',
{
    address_digits_read_back(a);
    address_digits_read_back(b);
    assert(address_text(a as nat).skip(2) =~= fixed_hex(a as nat, 16, true));
    assert(address_text(b as nat).skip(2) =~= fixed_hex(b as nat, 16, true));
}

proof fn trim_start_is_a_tail(s: Seq<char>) -> (from: int)
    ensures
        0 <= from <= s.len(),
        trim_start(s) == s.skip(from),
        forall|i: int| 0 <= i < from ==> is_space(#[trigger] s[i]),
        from < s.len() ==> !is_space(s[from]),
    decreases s.len(),
{
    if s.len() > 0 && is_space(s[0]) {
        let rest = trim_start_is_a_tail(s.skip(1));
        assert(s.skip(1).skip(rest) =~= s.skip(rest + 1));
        assert forall|i: int| 0 <= i < rest + 1 implies is_space(#[trigger] s[i]) by {
            if i > 0 {
                assert(s.skip(1)[i - 1] == s[i]);
            }
        }
        if rest + 1 < s.len() {
            assert(s.skip(1)[rest] == s[rest + 1]);
        }
        rest + 1
    } else {
        assert(s.skip(0) =~= s);
        0
    }
}

proof fn trim_end_is_a_head(s: Seq<char>) -> (to: int)
    ensures
        0 <= to <= s.len(),
        trim_end(s) == s.take(to),
        forall|i: int| to <= i < s.len() ==> is_space(#[trigger] s[i]),
        to > 0 ==> !is_space(s[to - 1]),
    decreases s.len(),
{
    if s.len() > 0 && is_space(s.last()) {
        let to = trim_end_is_a_head(s.drop_last());
        assert(s.drop_last().take(to) =~= s.take(to));
        assert forall|i: int| to <= i < s.len() implies is_space(#[trigger] s[i]) by {
            if i < s.len() - 1 {
                assert(s.drop_last()[i] == s[i]);
            }
        }
        if to > 0 {
            assert(s.drop_last()[to - 1] == s[to - 1]);
        }
        to
    } else {
        assert(s.take(s.len() as int) =~= s);
        s.len() as int
    }
}

/// Trimming takes away the white space at both ends and nothing else.
pub proof fn trimming_takes_only_the_ends(s: Seq<char>) -> (r: (int, int))
    ensures
        0 <= r.0 <= r.1 <= s.len(),
        trim(s) == s.subrange(r.0, r.1),
        forall|i: int| 0 <= i < r.0 ==> is_space(#[trigger] s[i]),
        forall|i: int| r.1 <= i < s.len() ==> is_space(#[trigger] s[i]),
        r.0 < r.1 ==> !is_space(s[r.0]) && !is_space(s[r.1 - 1]),
{
    let from = trim_start_is_a_tail(s);
    let tail = s.skip(from);
    let to = trim_end_is_a_head(tail);
    assert(tail.take(to) =~= s.subrange(from, from + to));
    assert forall|i: int| from + to <= i < s.len() implies is_space(#[trigger] s[i]) by {
        assert(tail[i - from] == s[i]);
    }
    if to > 0 {
        assert(tail[to - 1] == s[from + to - 1]);
        assert(tail[0] == s[from]);
    }
    (from, from + to)
}

/// Joining keeps every part, in order, with the separator between neighbours only.
pub proof fn joining_keeps_the_parts(parts: Seq<Seq<char>>, part: Seq<char>, sep: Seq<char>)
    ensures
        joined(Seq::empty(), sep).len() == 0,
        joined(seq![part], sep) == part,
        parts.len() > 0 ==> joined(parts.push(part), sep) == joined(parts, sep) + sep + part,
{
    assert(parts.push(part).drop_last() =~= parts);
}

proof fn a_word_ends_at_white_space(word: Seq<char>, rest: Seq<char>)
    requires
        forall|i: int| 0 <= i < word.len() ==> !is_space(#[trigger] word[i]),
        rest.len() > 0 ==> is_space(rest[0]),
    ensures
        word_len(word + rest) == word.len(),
    decreases word.len(),
{
    let s = word + rest;
    if word.len() > 0 {
        assert(s[0] == word[0]);
        assert(s.skip(1) =~= word.skip(1) + rest);
        assert forall|i: int| 0 <= i < word.skip(1).len() implies !is_space(
            #[trigger] word.skip(1)[i],
        ) by {
            assert(word.skip(1)[i] == word[i + 1]);
        }
        a_word_ends_at_white_space(word.skip(1), rest);
    } else {
        assert(s =~= rest);
    }
}

/// A text is split into its words at white space and nowhere else: the first word ends where the
/// first white space is, and the others are the words of what is behind it.
pub proof fn words_end_at_white_space(word: Seq<char>, rest: Seq<char>, gap: char)
    requires
        word.len() > 0,
        forall|i: int| 0 <= i < word.len() ==> !is_space(#[trigger] word[i]),
        is_space(gap),
    ensures
        words(word) == seq![word],
        words(word + (seq![gap] + rest)) == seq![word] + words(rest),
        words(seq![gap] + rest) == words(rest),
        words(Seq::empty()).len() == 0,
{
    let empty = Seq::<char>::empty();
    let tail = seq![gap] + rest;
    assert(tail.skip(1) =~= rest);
    assert(trim_start(tail) == trim_start(rest));
    trim_start_is_stable(tail);
    trim_start_is_stable(rest);
    a_word_ends_at_white_space(word, tail);
    let whole = word + tail;
    assert(whole[0] == word[0]);
    assert(trim_start(whole) == whole);
    assert(whole.take(word.len() as int) =~= word);
    assert(whole.skip(word.len() as int) =~= tail);
    a_word_ends_at_white_space(word, empty);
    assert(word + empty =~= word);
    assert(trim_start(word) == word);
    assert(word.take(word.len() as int) =~= word);
    assert(word.skip(word.len() as int) =~= empty);
    assert(trim_start(empty) == empty);
    assert(words(empty).len() == 0);
    assert(words(word) == seq![word] + words(empty));
    assert(words(word) =~= seq![word]);
}

/// Of the ASCII characters the blank and the characters from tab to carriage return are white
/// space, and no others.
pub proof fn white_space_is_what_does_not_print(c: char)
    ensures
        (c as int) < 0x80 ==> (is_space(c) <==> 9 <= c as int <= 13 || c as int == 32),
{
}

} // verus!
