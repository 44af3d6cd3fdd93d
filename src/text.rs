use vstd::prelude::*;
use vstd::string::*;

verus! {

/// `c` is an ASCII hex digit, in either case.
pub open spec fn is_hex_digit(c: char) -> bool {
    ('0' <= c && c <= '9') || ('a' <= c && c <= 'f') || ('A' <= c && c <= 'F')
}

/// `s` begins with the two characters `0x`.
pub open spec fn has_0x_prefix(s: Seq<char>) -> bool {
    s.len() >= 2 && s[0] == '0' && s[1] == 'x'
}

/// `s` without a leading `0x`, if it has one.
pub open spec fn strip_0x(s: Seq<char>) -> Seq<char> {
    if has_0x_prefix(s) {
        s.subrange(2, s.len() as int)
    } else {
        s
    }
}

/// `s` with a leading `0x`, added if it has none.
pub open spec fn with_0x(s: Seq<char>) -> Seq<char> {
    if has_0x_prefix(s) {
        s
    } else {
        seq!['0', 'x'] + s
    }
}

/// After an optional `0x` prefix, `s` holds exactly `n` hex digits.
pub open spec fn is_hex_field(s: Seq<char>, n: nat) -> bool {
    let body = strip_0x(s);
    body.len() == n && forall|i: int| 0 <= i < body.len() ==> is_hex_digit(#[trigger] body[i])
}

/// ASCII lowercase of one character; other characters are left as they are.
pub open spec fn ascii_lower(c: char) -> char {
    if 'A' <= c && c <= 'Z' {
        (((c as u8) + 32) as u8) as char
    } else {
        c
    }
}

/// ASCII lowercase of a string.
pub open spec fn lower(s: Seq<char>) -> Seq<char> {
    s.map_values(|c: char| ascii_lower(c))
}

/// The character of a digit below sixteen, lower case.
pub open spec fn digit_char(d: int) -> char {
    seq!['0', '1', '2', '3', '4', '5', '6', '7', '8', '9', 'a', 'b', 'c', 'd', 'e', 'f'][d]
}

/// Decimal representation of `n`, without leading zeros.
pub open spec fn decimal(n: nat) -> Seq<char>
    decreases n,
{
    if n < 10 {
        seq![digit_char(n as int)]
    } else {
        decimal(n / 10).push(digit_char((n % 10) as int))
    }
}

/// Lowercase hex encoding of `b`, two digits per byte, high nibble first.
pub open spec fn hex_lower(b: Seq<u8>) -> Seq<char>
    decreases b.len(),
{
    if b.len() == 0 {
        seq![]
    } else {
        hex_lower(b.drop_last()) + seq![
            digit_char((b.last() / 16) as int),
            digit_char((b.last() % 16) as int),
        ]
    }
}

/// Whether `c` is an ASCII hex digit.
pub fn char_is_hex_digit(c: char) -> (r: bool)
    ensures
        r == is_hex_digit(c),
{
    ('0' <= c && c <= '9') || ('a' <= c && c <= 'f') || ('A' <= c && c <= 'F')
}

/// ASCII lowercase of one character.
pub fn char_to_ascii_lower(c: char) -> (r: char)
    ensures
        r == ascii_lower(c),
{
    if 'A' <= c && c <= 'Z' {
        ((c as u8) + 32) as char
    } else {
        c
    }
}

/// Whether `s` starts with `0x`.
pub fn starts_with_0x(s: &str) -> (r: bool)
    ensures
        r == has_0x_prefix(s@),
{
    let n = s.unicode_len();
    n >= 2 && s.get_char(0) == '0' && s.get_char(1) == 'x'
}

/// `s` without a leading `0x`, if it has one.
pub fn strip_0x_prefix(s: &str) -> (r: &str)
    ensures
        r@ == strip_0x(s@),
{
    if starts_with_0x(s) {
        let n = s.unicode_len();
        s.substring_char(2, n)
    } else {
        s
    }
}

/// `s` with a leading `0x`, added if it has none.
pub fn add_0x_prefix(s: &str) -> (r: String)
    ensures
        r@ == with_0x(s@),
{
    if starts_with_0x(s) {
        s.to_owned()
    } else {
        let prefix = String::from_str("0x");
        proof {
            reveal_strlit("0x");
        }
        prefix.concat(s)
    }
}

/// Whether `s` holds exactly `n` hex digits after an optional `0x` prefix.
pub fn check_hex_field(s: &str, n: usize) -> (r: bool)
    ensures
        r == is_hex_field(s@, n as nat),
{
    let body = strip_0x_prefix(s);
    let len = body.unicode_len();
    if len != n {
        return false;
    }
    let mut i: usize = 0;
    while i < len
        invariant
            len == body@.len(),
            body@ == strip_0x(s@),
            i <= len,
            forall|j: int| 0 <= j < i ==> is_hex_digit(#[trigger] body@[j]),
        decreases len - i,
    {
        if !char_is_hex_digit(body.get_char(i)) {
            return false;
        }
        i = i + 1;
    }
    true
}

/// Appends the decimal representation of `n` to `out`.
pub fn push_decimal(out: &mut String, n: u128)
    ensures
        final(out)@ == old(out)@ + decimal(n as nat),
    decreases n,
{
    if n >= 10 {
        push_decimal(out, n / 10);
    }
    let d = (n % 10) as usize;
    let digits = "0123456789";
    proof {
        reveal_strlit("0123456789");
    }
    let digit = digits.substring_char(d, d + 1);
    assert(digit@ =~= seq![digit_char(d as int)]);
    out.append(digit);
    assert(final(out)@ =~= old(out)@ + decimal(n as nat));
}

/// Whether `a` and `b` are equal after ASCII lowercasing.
pub fn eq_ignore_ascii_case(a: &str, b: &str) -> (r: bool)
    ensures
        r == (lower(a@) == lower(b@)),
{
    let n = a.unicode_len();
    if n != b.unicode_len() {
        assert(lower(a@).len() != lower(b@).len());
        return false;
    }
    let mut i: usize = 0;
    while i < n
        invariant
            n == a@.len(),
            n == b@.len(),
            i <= n,
            forall|j: int| 0 <= j < i ==> ascii_lower(#[trigger] a@[j]) == ascii_lower(b@[j]),
        decreases n - i,
    {
        if char_to_ascii_lower(a.get_char(i)) != char_to_ascii_lower(b.get_char(i)) {
            assert(lower(a@)[i as int] != lower(b@)[i as int]);
            return false;
        }
        i = i + 1;
    }
    assert(lower(a@) =~= lower(b@));
    true
}

/// A run of exactly `n` hex digits is a valid hex field both as it stands and
/// behind a `0x` prefix; a field whose digits, after an optional `0x`, are not
/// `n` long or hold a non-hex character is not.
pub proof fn lemma_hex_field_rule(digits: Seq<char>, n: nat, s: Seq<char>)
    ensures
        digits.len() == n && (forall|i: int| 0 <= i < digits.len() ==> is_hex_digit(#[trigger] digits[i]))
            ==> is_hex_field(digits, n) && is_hex_field(seq!['0', 'x'] + digits, n),
        strip_0x(s).len() != n ==> !is_hex_field(s, n),
        (exists|i: int| 0 <= i < strip_0x(s).len() && !is_hex_digit(#[trigger] strip_0x(s)[i]))
            ==> !is_hex_field(s, n),
{
    if digits.len() == n && (forall|i: int| 0 <= i < digits.len() ==> is_hex_digit(#[trigger] digits[i])) {
        if digits.len() >= 2 {
            assert(is_hex_digit(digits[1]));
        }
        assert(!has_0x_prefix(digits));
        let prefixed = seq!['0', 'x'] + digits;
        assert(has_0x_prefix(prefixed));
        assert(strip_0x(prefixed) =~= digits);
    }
}

} // verus!
