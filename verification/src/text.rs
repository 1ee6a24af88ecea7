//! Text used by the controller: decimal and hexadecimal numerals, and the
//! parsing of the numbers and flags the web client sends.

use vstd::prelude::*;

verus! {

/// `String::push` appends one character.
#[verifier::external_body]
pub(crate) fn push_char(s: &mut String, c: char)
    ensures
        final(s)@ == old(s)@.push(c),
{
    s.push(c);
}

/// The ASCII character of a decimal digit.
pub open spec fn digit_char(d: nat) -> char {
    (48 + d) as char
}

/// The lower-case ASCII character of a hexadecimal digit.
pub open spec fn hex_char(d: nat) -> char {
    if d < 10 {
        (48 + d) as char
    } else {
        (87 + d) as char
    }
}

/// The decimal numeral of `n`, without leading zeros.
pub open spec fn decimal(n: nat) -> Seq<char>
    decreases n,
{
    if n < 10 {
        seq![digit_char(n)]
    } else {
        decimal(n / 10).push(digit_char(n % 10))
    }
}

/// The two lower-case hexadecimal digits of a byte.
pub open spec fn hex_byte(b: u8) -> Seq<char> {
    seq![hex_char((b / 16) as nat), hex_char((b % 16) as nat)]
}

/// A hardware address as six colon-separated pairs of lower-case hex digits.
pub open spec fn mac_text(address: Seq<u8>) -> Seq<char> {
    hex_byte(address[0]) + seq![':'] + hex_byte(address[1]) + seq![':'] + hex_byte(address[2])
        + seq![':'] + hex_byte(address[3]) + seq![':'] + hex_byte(address[4]) + seq![':']
        + hex_byte(address[5])
}

fn digit(d: u8) -> (c: char)
    requires
        d < 10,
    ensures
        c == digit_char(d as nat),
{
    (48u8 + d) as char
}

fn hex_digit(d: u8) -> (c: char)
    requires
        d < 16,
    ensures
        c == hex_char(d as nat),
{
    if d < 10 {
        (48u8 + d) as char
    } else {
        (87u8 + d) as char
    }
}

/// Appends the decimal numeral of `n`.
pub fn push_decimal(s: &mut String, n: usize)
    ensures
        final(s)@ == old(s)@ + decimal(n as nat),
    decreases n,
{
    if n >= 10 {
        push_decimal(s, n / 10);
    }
    push_char(s, digit((n % 10) as u8));
    proof {
        if n < 10 {
            assert(n % 10 == n);
        }
    }
}

fn push_hex_byte(s: &mut String, b: u8)
    ensures
        final(s)@ == old(s)@ + hex_byte(b),
{
    push_char(s, hex_digit(b / 16));
    push_char(s, hex_digit(b % 16));
}

/// A hardware address as text, such as `00:20:e3:10:00:01`.
pub fn mac_address_as_string(address: [u8; 6]) -> (text: String)
    ensures
        text@ == mac_text(address@),
{
    let mut text = String::new();
    push_hex_byte(&mut text, address[0]);
    push_char(&mut text, ':');
    push_hex_byte(&mut text, address[1]);
    push_char(&mut text, ':');
    push_hex_byte(&mut text, address[2]);
    push_char(&mut text, ':');
    push_hex_byte(&mut text, address[3]);
    push_char(&mut text, ':');
    push_hex_byte(&mut text, address[4]);
    push_char(&mut text, ':');
    push_hex_byte(&mut text, address[5]);
    text
}

/// The characters of `s`.
pub fn chars_of(s: &str) -> (chars: Vec<char>)
    ensures
        chars@ == s@,
{
    let len = s.unicode_len();
    let mut chars: Vec<char> = Vec::with_capacity(len);
    let mut i: usize = 0;
    while i < len
        invariant
            len == s@.len(),
            0 <= i <= len,
            chars@ == s@.subrange(0, i as int),
        decreases len - i,
    {
        chars.push(s.get_char(i));
        proof {
            assert(s@.subrange(0, i + 1) == s@.subrange(0, i as int).push(s@[i as int]));
        }
        i = i + 1;
    }
    proof {
        assert(s@.subrange(0, len as int) == s@);
    }
    chars
}

/// Whether `a` and `b` hold the same characters.
pub fn same_text(a: &[char], b: &str) -> (same: bool)
    ensures
        same == (a@ == b@),
{
    let chars = chars_of(b);
    if a.len() != chars.len() {
        return false;
    }
    let mut i: usize = 0;
    while i < a.len()
        invariant
            chars@ == b@,
            a@.len() == b@.len(),
            0 <= i <= a@.len(),
            forall|k: int| 0 <= k < i ==> a@[k] == b@[k],
        decreases a@.len() - i,
    {
        if a[i] != chars[i] {
            assert(a@[i as int] != b@[i as int]);
            return false;
        }
        i = i + 1;
    }
    proof {
        assert(a@ =~= b@);
    }
    true
}

/// An ASCII decimal digit.
pub open spec fn is_digit(c: char) -> bool {
    48 <= (c as u32) <= 57
}

/// Whether all characters of `s` are decimal digits.
pub open spec fn all_digits(s: Seq<char>) -> bool {
    forall|i: int| 0 <= i < s.len() ==> is_digit(#[trigger] s[i])
}

/// The value of a string of decimal digits (0 for the empty string).
pub open spec fn digits_value(s: Seq<char>) -> nat
    decreases s.len(),
{
    if s.len() == 0 {
        0
    } else {
        digits_value(s.drop_last()) * 10 + ((s.last() as u32) - 48) as nat
    }
}

/// The digits of an unsigned numeral: without its `+` sign, if it has one.
pub open spec fn unsigned_digits(s: Seq<char>) -> Seq<char> {
    if s.len() > 0 && s[0] == '+' {
        s.drop_first()
    } else {
        s
    }
}

/// The value of an unsigned decimal numeral as Rust parses it: an optional
/// `+` followed by at least one digit and nothing else.
pub open spec fn parsed_unsigned(s: Seq<char>) -> Option<nat> {
    let digits = unsigned_digits(s);
    if digits.len() > 0 && all_digits(digits) {
        Some(digits_value(digits))
    } else {
        None
    }
}

/// The value of `s` as an unsigned number no larger than `limit`.
pub open spec fn parsed_bounded(s: Seq<char>, limit: nat) -> Option<nat> {
    match parsed_unsigned(s) {
        Some(v) => if v <= limit {
            Some(v)
        } else {
            None
        },
        None => None,
    }
}

proof fn lemma_digits_value_grows(s: Seq<char>, k: int)
    requires
        0 <= k <= s.len(),
        all_digits(s),
    ensures
        digits_value(s) >= digits_value(s.subrange(0, k)),
    decreases s.len(),
{
    if k < s.len() {
        let d = s.drop_last();
        assert(all_digits(d));
        assert(d.subrange(0, k) == s.subrange(0, k));
        lemma_digits_value_grows(d, k);
    } else {
        assert(s.subrange(0, k) == s);
    }
}

/// Parses an unsigned decimal numeral no larger than `limit`.
fn parse_bounded(s: &[char], limit: u64) -> (value: Option<u64>)
    requires
        limit >= 255,
    ensures
        value == (match parsed_bounded(s@, limit as nat) {
            Some(v) => Some(v as u64),
            None => None::<u64>,
        }),
{
    let len = s.len();
    let start: usize = if len > 0 && s[0] == '+' { 1 } else { 0 };
    let ghost digits = unsigned_digits(s@);
    assert(digits == s@.subrange(start as int, len as int));
    if start >= len {
        return None;
    }
    let mut value: u64 = 0;
    let mut i: usize = start;
    while i < len
        invariant
            len == s@.len(),
            start <= i <= len,
            digits == s@.subrange(start as int, len as int),
            digits == unsigned_digits(s@),
            all_digits(s@.subrange(start as int, i as int)),
            value == digits_value(s@.subrange(start as int, i as int)),
            value <= limit,
            limit >= 255,
        decreases len - i,
    {
        let c = s[i];
        let code = c as u32;
        let ghost prefix = s@.subrange(start as int, i as int);
        let ghost next = s@.subrange(start as int, i + 1);
        assert(next.drop_last() == prefix);
        if code < 48 || code > 57 {
            assert(!is_digit(digits[i - start]));
            assert(!all_digits(digits));
            assert(parsed_unsigned(s@).is_none());
            return None;
        }
        let d = (code - 48) as u64;
        if value > (limit - d) / 10 {
            proof {
                assert(digits_value(next) == value * 10 + d);
                assert(value * 10 + d > limit) by (nonlinear_arith)
                    requires
                        value > (limit - d) / 10,
                        d <= limit || d > limit,
                ;
                if all_digits(digits) {
                    assert(digits.subrange(0, i + 1 - start) == next);
                    lemma_digits_value_grows(digits, i + 1 - start);
                }
            }
            return None;
        }
        proof {
            assert(value * 10 + d <= limit) by (nonlinear_arith)
                requires
                    value <= (limit - d) / 10,
                    d <= limit,
            ;
        }
        value = value * 10 + d;
        i = i + 1;
        proof {
            assert(all_digits(next)) by {
                assert forall|k: int| 0 <= k < next.len() implies is_digit(#[trigger] next[k]) by {
                    if k < prefix.len() {
                        assert(next[k] == prefix[k]);
                    }
                }
            }
        }
    }
    Some(value)
}

/// Parses a `u32` as Rust's `str::parse` does.
pub fn parse_u32(s: &[char]) -> (value: Option<u32>)
    ensures
        value == (match parsed_bounded(s@, u32::MAX as nat) {
            Some(v) => Some(v as u32),
            None => None::<u32>,
        }),
{
    match parse_bounded(s, 0xffff_ffff) {
        Some(v) => Some(v as u32),
        None => None,
    }
}

/// Parses a `u8` as Rust's `str::parse` does.
pub fn parse_u8(s: &[char]) -> (value: Option<u8>)
    ensures
        value == (match parsed_bounded(s@, u8::MAX as nat) {
            Some(v) => Some(v as u8),
            None => None::<u8>,
        }),
{
    match parse_bounded(s, 0xff) {
        Some(v) => Some(v as u8),
        None => None,
    }
}

/// Parses a `usize` as Rust's `str::parse` does.
pub fn parse_usize(s: &[char]) -> (value: Option<usize>)
    ensures
        value == (match parsed_bounded(s@, usize::MAX as nat) {
            Some(v) => Some(v as usize),
            None => None::<usize>,
        }),
{
    match parse_bounded(s, usize::MAX as u64) {
        Some(v) => Some(v as usize),
        None => None,
    }
}

/// The value of `true` or `false`, as Rust's `str::parse` reads a `bool`.
pub open spec fn parsed_bool(s: Seq<char>) -> Option<bool> {
    if s == seq!['t', 'r', 'u', 'e'] {
        Some(true)
    } else if s == seq!['f', 'a', 'l', 's', 'e'] {
        Some(false)
    } else {
        None
    }
}

/// Parses a `bool` as Rust's `str::parse` does.
pub fn parse_bool(s: &[char]) -> (value: Option<bool>)
    ensures
        value == parsed_bool(s@),
{
    let t: [char; 4] = ['t', 'r', 'u', 'e'];
    let f: [char; 5] = ['f', 'a', 'l', 's', 'e'];
    if same_chars(s, t.as_slice()) {
        proof {
            assert(t@ == seq!['t', 'r', 'u', 'e']);
        }
        Some(true)
    } else if same_chars(s, f.as_slice()) {
        proof {
            assert(t@ == seq!['t', 'r', 'u', 'e']);
            assert(f@ == seq!['f', 'a', 'l', 's', 'e']);
        }
        Some(false)
    } else {
        proof {
            assert(t@ == seq!['t', 'r', 'u', 'e']);
            assert(f@ == seq!['f', 'a', 'l', 's', 'e']);
        }
        None
    }
}

/// Whether `a` and `b` hold the same characters.
pub fn same_chars(a: &[char], b: &[char]) -> (same: bool)
    ensures
        same == (a@ == b@),
{
    if a.len() != b.len() {
        return false;
    }
    let mut i: usize = 0;
    while i < a.len()
        invariant
            a@.len() == b@.len(),
            0 <= i <= a@.len(),
            forall|k: int| 0 <= k < i ==> a@[k] == b@[k],
        decreases a@.len() - i,
    {
        if a[i] != b[i] {
            return false;
        }
        i = i + 1;
    }
    proof {
        assert(a@ =~= b@);
    }
    true
}

/// The pieces of `s` between commas, as `str::split(',')` yields them (the
/// empty string is one empty piece).
pub open spec fn comma_pieces(s: Seq<char>) -> Seq<Seq<char>>
    decreases s.len(),
{
    if s.len() == 0 {
        seq![Seq::empty()]
    } else {
        let pieces = comma_pieces(s.drop_last());
        if s.last() == ',' {
            pieces.push(Seq::empty())
        } else {
            pieces.update(pieces.len() - 1, pieces.last().push(s.last()))
        }
    }
}

/// The values of the pieces that parse as `u32`, in order; the others are skipped.
pub open spec fn parsed_list(pieces: Seq<Seq<char>>) -> Seq<u32>
    decreases pieces.len(),
{
    if pieces.len() == 0 {
        Seq::empty()
    } else {
        parsed_list(pieces.drop_last()) + match parsed_bounded(pieces.last(), u32::MAX as nat) {
            Some(v) => seq![v as u32],
            None => Seq::empty(),
        }
    }
}

proof fn lemma_comma_pieces_nonempty(s: Seq<char>)
    ensures
        comma_pieces(s).len() >= 1,
    decreases s.len(),
{
    if s.len() > 0 {
        lemma_comma_pieces_nonempty(s.drop_last());
    }
}

fn push_parsed(list: &mut Vec<u32>, piece: &[char])
    ensures
        final(list)@ == old(list)@ + match parsed_bounded(piece@, u32::MAX as nat) {
            Some(v) => seq![v as u32],
            None => Seq::empty(),
        },
{
    match parse_u32(piece) {
        Some(v) => {
            list.push(v);
        },
        None => {
            assert(old(list)@ + Seq::<u32>::empty() == old(list)@);
        },
    }
}

/// The numbers of a comma-separated list, as
/// `value.split(',').filter_map(|s| s.parse().ok())` collects them.
pub fn parse_index_list(s: &str) -> (list: Vec<u32>)
    ensures
        list@ == parsed_list(comma_pieces(s@)),
{
    let chars = chars_of(s);
    let mut list: Vec<u32> = Vec::new();
    let mut piece: Vec<char> = Vec::new();
    let ghost mut done: Seq<Seq<char>> = Seq::empty();
    let mut i: usize = 0;
    while i < chars.len()
        invariant
            chars@ == s@,
            0 <= i <= chars@.len(),
            comma_pieces(s@.subrange(0, i as int)) == done.push(piece@),
            list@ == parsed_list(done),
        decreases chars@.len() - i,
    {
        let c = chars[i];
        proof {
            let t = s@.subrange(0, i + 1);
            assert(t.drop_last() == s@.subrange(0, i as int));
            assert(t.last() == c);
        }
        if c == ',' {
            push_parsed(&mut list, piece.as_slice());
            proof {
                let pushed = done.push(piece@);
                assert(pushed.drop_last() == done);
                done = pushed;
            }
            piece = Vec::new();
        } else {
            let ghost before = piece@;
            piece.push(c);
            proof {
                let pieces = done.push(before);
                assert(done.push(piece@) =~= pieces.update(pieces.len() - 1, pieces.last().push(c)));
            }
        }
        i = i + 1;
    }
    proof {
        assert(s@.subrange(0, chars@.len() as int) == s@);
    }
    push_parsed(&mut list, piece.as_slice());
    proof {
        assert(done.push(piece@).drop_last() == done);
    }
    list
}

} // verus!
