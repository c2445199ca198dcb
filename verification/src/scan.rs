//! Reading the output of tools: lines, blanks and decimal numbers, on
//! sequences of characters.

use vstd::prelude::*;
use vstd::slice::{slice_subrange, slice_to_vec};
use vstd::string::*;
use crate::text::{lemma_segment_len, push_char, segment_len};

verus! {

/// Whether a character is white space: one of the characters that Unicode
/// gives the property White_Space. These are the tab, the line feed, the
/// vertical tab, the form feed, the carriage return, the space, the next
/// line, the no-break space, the Ogham space mark, the spaces from the en
/// quad to the hair space, the line and the paragraph separator, the
/// narrow no-break space, the medium mathematical space and the
/// ideographic space.
pub open spec fn is_white(c: char) -> bool {
    let u = c as u32;
    ||| 0x09 <= u <= 0x0d
    ||| u == 0x20
    ||| u == 0x85
    ||| u == 0xa0
    ||| u == 0x1680
    ||| 0x2000 <= u <= 0x200a
    ||| u == 0x2028
    ||| u == 0x2029
    ||| u == 0x202f
    ||| u == 0x205f
    ||| u == 0x3000
}

/// Whether a character is white space, from `char::is_whitespace`, which
/// tells whether the character has the Unicode property White_Space.
/// Claimed: these are the characters of `is_white`.
#[verifier::external_body]
fn is_whitespace(c: char) -> (b: bool)
    ensures
        b == is_white(c),
{
    c.is_whitespace()
}

/// The characters of a string.
pub fn to_chars(s: &str) -> (chars: Vec<char>)
    ensures
        chars@ == s@,
{
    let len = s.unicode_len();
    let mut chars: Vec<char> = Vec::new();
    let mut i: usize = 0;
    while i < len
        invariant
            i <= len,
            len == s@.len(),
            chars@ == s@.take(i as int),
        decreases len - i,
    {
        chars.push(s.get_char(i));
        assert(chars@ =~= s@.take(i + 1));
        i += 1;
    }
    assert(s@.take(len as int) =~= s@);
    chars
}

/// The string of a sequence of characters.
pub fn to_text(chars: &[char]) -> (s: String)
    ensures
        s@ == chars@,
{
    let mut s = String::new();
    let mut i: usize = 0;
    while i < chars.len()
        invariant
            i <= chars.len(),
            s@ == chars@.take(i as int),
        decreases chars.len() - i,
    {
        push_char(&mut s, chars[i]);
        assert(s@ =~= chars@.take(i + 1));
        i += 1;
    }
    assert(chars@.take(chars@.len() as int) =~= chars@);
    s
}

/// How many characters at the start of `s` are white space.
pub open spec fn leading_white(s: Seq<char>) -> nat
    decreases s.len(),
{
    if s.len() > 0 && is_white(s[0]) {
        1 + leading_white(s.drop_first())
    } else {
        0
    }
}

/// How many characters at the end of `s` are white space.
pub open spec fn trailing_white(s: Seq<char>) -> nat
    decreases s.len(),
{
    if s.len() > 0 && is_white(s.last()) {
        1 + trailing_white(s.drop_last())
    } else {
        0
    }
}

/// `s` without the white space at its start and at its end.
pub open spec fn trimmed(s: Seq<char>) -> Seq<char> {
    let rest = s.skip(leading_white(s) as int);
    rest.take(rest.len() - trailing_white(rest))
}

/// The white space at the start of `s` ends at the first character that is
/// none.
pub proof fn lemma_leading_white(s: Seq<char>, n: int)
    requires
        0 <= n <= s.len(),
        forall|k: int| 0 <= k < n ==> is_white(s[k]),
        n == s.len() || !is_white(s[n]),
    ensures
        leading_white(s) == n,
    decreases n,
{
    if n > 0 {
        let t = s.drop_first();
        assert forall|k: int| 0 <= k < n - 1 implies is_white(t[k]) by {
            assert(t[k] == s[k + 1]);
        }
        lemma_leading_white(t, n - 1);
    }
}

/// The white space at the end of `s` starts after the last character that
/// is none.
pub proof fn lemma_trailing_white(s: Seq<char>, n: int)
    requires
        0 <= n <= s.len(),
        forall|k: int| s.len() - n <= k < s.len() ==> is_white(s[k]),
        n == s.len() || !is_white(s[s.len() - n - 1]),
    ensures
        trailing_white(s) == n,
    decreases n,
{
    if n > 0 {
        let t = s.drop_last();
        assert forall|k: int| t.len() - (n - 1) <= k < t.len() implies is_white(t[k]) by {
            assert(t[k] == s[k]);
        }
        lemma_trailing_white(t, n - 1);
    }
}

/// How many characters at the start of `s` are white space.
pub fn trim_start_len(s: &[char]) -> (n: usize)
    ensures
        n == leading_white(s@),
        n <= s@.len(),
{
    let mut start: usize = 0;
    while start < s.len() && is_whitespace(s[start])
        invariant
            start <= s.len(),
            forall|k: int| 0 <= k < start ==> is_white(s@[k]),
        decreases s.len() - start,
    {
        start += 1;
    }
    proof {
        lemma_leading_white(s@, start as int);
    }
    start
}

/// `s` without the white space at its start and at its end.
pub fn trim(s: &[char]) -> (r: Vec<char>)
    ensures
        r@ == trimmed(s@),
{
    let start = trim_start_len(s);
    let mut end: usize = s.len();
    while end > start && is_whitespace(s[end - 1])
        invariant
            start <= end <= s.len(),
            forall|k: int| end <= k < s.len() ==> is_white(s@[k]),
        decreases end,
    {
        end -= 1;
    }
    proof {
        let rest = s@.skip(start as int);
        assert forall|k: int| rest.len() - (s.len() - end) <= k < rest.len() implies is_white(
            rest[k],
        ) by {
            assert(rest[k] == s@[k + start]);
        }
        if end > start {
            assert(rest[end - start - 1] == s@[end - 1]);
        }
        lemma_trailing_white(rest, (s.len() - end) as int);
        assert(s@.subrange(start as int, end as int) =~= trimmed(s@));
    }
    slice_to_vec(slice_subrange(s, start, end))
}

/// Where the first white space of `s` stands, or the length of `s`.
pub open spec fn first_white(s: Seq<char>) -> nat
    decreases s.len(),
{
    if s.len() == 0 || is_white(s[0]) {
        0
    } else {
        1 + first_white(s.drop_first())
    }
}

/// The first white space is where no character before it is one.
pub proof fn lemma_first_white(s: Seq<char>, n: int)
    requires
        0 <= n <= s.len(),
        forall|k: int| 0 <= k < n ==> !is_white(s[k]),
        n == s.len() || is_white(s[n]),
    ensures
        first_white(s) == n,
    decreases n,
{
    if n > 0 {
        let t = s.drop_first();
        assert forall|k: int| 0 <= k < n - 1 implies !is_white(t[k]) by {
            assert(t[k] == s[k + 1]);
        }
        lemma_first_white(t, n - 1);
    }
}

/// Finds the first white space of `s` from the start.
pub fn find_white(s: &[char]) -> (i: usize)
    ensures
        i == first_white(s@),
        i <= s@.len(),
{
    let mut i: usize = 0;
    while i < s.len() && !is_whitespace(s[i])
        invariant
            i <= s.len(),
            forall|k: int| 0 <= k < i ==> !is_white(s@[k]),
        decreases s.len() - i,
    {
        i += 1;
    }
    proof {
        lemma_first_white(s@, i as int);
    }
    i
}

/// Finds the first `c` of `s` from the start.
pub fn find_char(s: &[char], c: char) -> (i: usize)
    ensures
        i == segment_len(s@, c),
        i <= s@.len(),
{
    let mut i: usize = 0;
    while i < s.len() && s[i] != c
        invariant
            i <= s.len(),
            forall|k: int| 0 <= k < i ==> s@[k] != c,
        decreases s.len() - i,
    {
        i += 1;
    }
    proof {
        lemma_segment_len(s@, c, i as int);
    }
    i
}

/// The part of `s` from `from` on.
pub fn tail(s: &[char], from: usize) -> (r: &[char])
    requires
        from <= s@.len(),
    ensures
        r@ == s@.skip(from as int),
{
    let r = slice_subrange(s, from, s.len());
    assert(r@ =~= s@.skip(from as int));
    r
}

/// The first `n` characters of `s`.
pub fn head(s: &[char], n: usize) -> (r: &[char])
    requires
        n <= s@.len(),
    ensures
        r@ == s@.take(n as int),
{
    slice_subrange(s, 0, n)
}

/// The lines of a text: what stands before each line feed, without a
/// carriage return that stands directly before the line feed, and what
/// follows the last line feed, if anything does.
pub open spec fn lines_of(s: Seq<char>) -> Seq<Seq<char>>
    decreases s.len(),
{
    if s.len() == 0 {
        Seq::empty()
    } else {
        let i = segment_len(s, '\n') as int;
        if i < s.len() {
            seq![without_return(s.take(i))] + lines_of(s.skip(i + 1))
        } else {
            seq![s]
        }
    }
}

/// A line without the carriage return at its end, if it has one.
pub open spec fn without_return(line: Seq<char>) -> Seq<char> {
    if line.len() > 0 && line.last() == '\r' {
        line.drop_last()
    } else {
        line
    }
}

/// The contents of a sequence of character vectors.
pub open spec fn char_lists(v: Seq<Vec<char>>) -> Seq<Seq<char>> {
    Seq::new(v.len(), |i: int| v[i]@)
}

/// The lines of a text.
pub fn lines(s: &[char]) -> (r: Vec<Vec<char>>)
    ensures
        char_lists(r@) == lines_of(s@),
{
    let mut r: Vec<Vec<char>> = Vec::new();
    let mut from: usize = 0;
    assert(s@.skip(0) =~= s@);
    assert(char_lists(r@) =~= Seq::<Seq<char>>::empty());
    while from < s.len()
        invariant
            from <= s.len(),
            char_lists(r@) + lines_of(s@.skip(from as int)) == lines_of(s@),
        decreases s.len() - from,
    {
        let rest = tail(s, from);
        let i = find_char(rest, '\n');
        let line = head(rest, i);
        let end = if i < rest.len() && i > 0 && line[i - 1] == '\r' {
            i - 1
        } else {
            i
        };
        let ghost done = char_lists(r@);
        r.push(slice_to_vec(head(line, end)));
        proof {
            let l = if i < rest.len() {
                without_return(rest@.take(i as int))
            } else {
                rest@
            };
            assert(rest@.take(rest@.len() as int) =~= rest@);
            assert(line@.take(end as int) =~= l);
            assert(char_lists(r@) =~= done + seq![l]);
            if i < rest.len() {
                assert(rest@.skip(i + 1) =~= s@.skip(from + i + 1));
                assert((done + seq![l]) + lines_of(rest@.skip(i + 1)) =~= done + (seq![l] + lines_of(
                    rest@.skip(i + 1),
                )));
            } else {
                assert(rest@.take(i as int) =~= rest@);
                assert(s@.skip(s@.len() as int) =~= Seq::<char>::empty());
                assert((done + seq![l]) + Seq::<Seq<char>>::empty() =~= done + seq![l]);
            }
        }
        from = if i < rest.len() {
            from + i + 1
        } else {
            s.len()
        };
    }
    assert(s@.skip(from as int) =~= Seq::<char>::empty());
    assert(char_lists(r@) + Seq::<Seq<char>>::empty() =~= char_lists(r@));
    r
}

/// Whether a character is a decimal digit.
pub open spec fn is_digit(c: char) -> bool {
    '0' <= c && c <= '9'
}

/// The value of a decimal digit.
pub open spec fn digit_value(c: char) -> nat {
    (c as u32 - '0' as u32) as nat
}

/// The number that a sequence of decimal digits stands for.
pub open spec fn decimal_value(s: Seq<char>) -> nat
    decreases s.len(),
{
    if s.len() == 0 {
        0
    } else {
        decimal_value(s.drop_last()) * 10 + digit_value(s.last())
    }
}

/// A text without the `+` that may stand at its start.
pub open spec fn unsigned_part(s: Seq<char>) -> Seq<char> {
    if s.len() > 0 && s[0] == '+' {
        s.drop_first()
    } else {
        s
    }
}

/// Whether a text holds decimal digits only, and at least one.
pub open spec fn is_digits(s: Seq<char>) -> bool {
    s.len() > 0 && forall|i: int| 0 <= i < s.len() ==> is_digit(#[trigger] s[i])
}

/// The value of a text of decimal digits, if it is one and its value is at
/// most `limit`.
pub open spec fn digits_up_to(s: Seq<char>, limit: nat) -> Option<nat> {
    if is_digits(s) && decimal_value(s) <= limit {
        Some(decimal_value(s))
    } else {
        None
    }
}

/// The number that a text stands for, if it is a decimal number that fits
/// into 64 bits: digits only, at least one, after at most one `+`.
pub open spec fn number_of(s: Seq<char>) -> Option<u64> {
    match digits_up_to(unsigned_part(s), u64::MAX as nat) {
        Some(v) => Some(v as u64),
        None => None,
    }
}

/// The number that a text stands for, if it is a decimal number that fits
/// into 32 bits.
pub open spec fn unsigned_of(s: Seq<char>) -> Option<u32> {
    match digits_up_to(unsigned_part(s), u32::MAX as nat) {
        Some(v) => Some(v as u32),
        None => None,
    }
}

/// The number that a text stands for, if it is a decimal number with or
/// without a sign that fits into 32 bits with a sign.
pub open spec fn signed_of(s: Seq<char>) -> Option<i32> {
    if s.len() > 0 && s[0] == '-' {
        match digits_up_to(s.drop_first(), 0x8000_0000) {
            Some(v) => Some((-(v as int)) as i32),
            None => None,
        }
    } else {
        match digits_up_to(unsigned_part(s), 0x7fff_ffff) {
            Some(v) => Some(v as i32),
            None => None,
        }
    }
}

/// The value of a sequence of digits never falls when digits follow.
pub proof fn lemma_decimal_grows(s: Seq<char>, n: int)
    requires
        0 <= n <= s.len(),
    ensures
        decimal_value(s.take(n)) <= decimal_value(s),
    decreases s.len() - n,
{
    if n < s.len() {
        lemma_decimal_grows(s, n + 1);
        assert(s.take(n + 1).drop_last() =~= s.take(n));
        assert(decimal_value(s.take(n + 1)) >= decimal_value(s.take(n)) * 10) by (nonlinear_arith)
            requires
                decimal_value(s.take(n + 1)) == decimal_value(s.take(n)) * 10 + digit_value(
                    s.take(n + 1).last(),
                ),
        ;
    } else {
        assert(s.take(n) =~= s);
    }
}

/// Reads a text of decimal digits of a value of at most `limit`.
pub fn parse_digits(digits: &[char], limit: u64) -> (r: Option<u64>)
    ensures
        match r {
            Some(v) => digits_up_to(digits@, limit as nat) == Some(v as nat),
            None => digits_up_to(digits@, limit as nat) is None,
        },
{
    if digits.len() == 0 {
        return None;
    }
    let mut value: u64 = 0;
    let mut i: usize = 0;
    assert(digits@.take(0) =~= Seq::<char>::empty());
    while i < digits.len()
        invariant
            i <= digits.len(),
            value <= limit,
            value == decimal_value(digits@.take(i as int)),
            forall|k: int| 0 <= k < i ==> is_digit(#[trigger] digits@[k]),
        decreases digits.len() - i,
    {
        let c = digits[i];
        if !(c >= '0' && c <= '9') {
            assert(!is_digit(digits@[i as int]));
            return None;
        }
        let d = (c as u32 - '0' as u32) as u64;
        assert(d == digit_value(c));
        proof {
            assert(digits@.take(i + 1).drop_last() =~= digits@.take(i as int));
            assert(digits@.take(i + 1).last() == c);
            lemma_decimal_grows(digits@, i + 1);
        }
        if d > limit || value > (limit - d) / 10 {
            assert(decimal_value(digits@.take(i + 1)) > limit) by (nonlinear_arith)
                requires
                    decimal_value(digits@.take(i + 1)) == value * 10 + d,
                    d > limit || value > (limit - d) / 10,
                    d < 10,
            ;
            return None;
        }
        assert(value * 10 + d <= limit) by (nonlinear_arith)
            requires
                d <= limit,
                value <= (limit - d) / 10,
                d < 10,
        ;
        value = value * 10 + d;
        i += 1;
    }
    assert(digits@.take(digits@.len() as int) =~= digits@);
    Some(value)
}

/// A text without the `+` that may stand at its start.
pub fn after_plus(s: &[char]) -> (r: &[char])
    ensures
        r@ == unsigned_part(s@),
{
    if s.len() > 0 && s[0] == '+' {
        let d = tail(s, 1);
        assert(d@ =~= s@.drop_first());
        d
    } else {
        s
    }
}

/// Reads a decimal number of up to 64 bits.
pub fn parse_number(s: &[char]) -> (r: Option<u64>)
    ensures
        r == number_of(s@),
{
    parse_digits(after_plus(s), u64::MAX)
}

/// Reads a decimal number of up to 32 bits.
pub fn parse_unsigned(s: &[char]) -> (r: Option<u32>)
    ensures
        r == unsigned_of(s@),
{
    match parse_digits(after_plus(s), 0xffff_ffff) {
        Some(v) => Some(v as u32),
        None => None,
    }
}

/// Reads a decimal number with or without a sign, of up to 32 bits.
pub fn parse_signed(s: &[char]) -> (r: Option<i32>)
    ensures
        r == signed_of(s@),
{
    if s.len() > 0 && s[0] == '-' {
        let d = tail(s, 1);
        assert(d@ =~= s@.drop_first());
        match parse_digits(d, 0x8000_0000) {
            Some(v) => {
                if v == 0x8000_0000 {
                    Some(i32::MIN)
                } else {
                    Some(0 - (v as i32))
                }
            },
            None => None,
        }
    } else {
        match parse_digits(after_plus(s), 0x7fff_ffff) {
            Some(v) => Some(v as i32),
            None => None,
        }
    }
}

/// The decimal digit of a number below ten.
pub open spec fn digit_char(d: nat) -> char {
    if d == 0 {
        '0'
    } else if d == 1 {
        '1'
    } else if d == 2 {
        '2'
    } else if d == 3 {
        '3'
    } else if d == 4 {
        '4'
    } else if d == 5 {
        '5'
    } else if d == 6 {
        '6'
    } else if d == 7 {
        '7'
    } else if d == 8 {
        '8'
    } else {
        '9'
    }
}

/// A number in decimal digits, without leading zeros.
pub open spec fn decimal_of(v: nat) -> Seq<char>
    decreases v,
{
    if v < 10 {
        seq![digit_char(v)]
    } else {
        decimal_of(v / 10).push(digit_char(v % 10))
    }
}

/// A number with a sign in decimal digits: a `-` before the digits of a
/// negative one.
pub open spec fn signed_decimal_of(v: int) -> Seq<char> {
    if v < 0 {
        seq!['-'] + decimal_of((-v) as nat)
    } else {
        decimal_of(v as nat)
    }
}

fn decimal_digit(d: u64) -> (c: char)
    requires
        d < 10,
    ensures
        c == digit_char(d as nat),
{
    if d == 0 {
        '0'
    } else if d == 1 {
        '1'
    } else if d == 2 {
        '2'
    } else if d == 3 {
        '3'
    } else if d == 4 {
        '4'
    } else if d == 5 {
        '5'
    } else if d == 6 {
        '6'
    } else if d == 7 {
        '7'
    } else if d == 8 {
        '8'
    } else {
        '9'
    }
}

/// Writes a number in decimal digits.
pub fn decimal(v: u64) -> (s: String)
    ensures
        s@ == decimal_of(v as nat),
    decreases v,
{
    if v < 10 {
        let mut s = String::new();
        push_char(&mut s, decimal_digit(v));
        assert(s@ =~= seq![digit_char(v as nat)]);
        s
    } else {
        let mut s = decimal(v / 10);
        push_char(&mut s, decimal_digit(v % 10));
        s
    }
}

/// Writes a number with a sign in decimal digits.
pub fn signed_decimal(v: i32) -> (s: String)
    ensures
        s@ == signed_decimal_of(v as int),
{
    if v < 0 {
        let magnitude: u64 = (0 - (v as i64)) as u64;
        let digits = decimal(magnitude);
        let mut s = String::new();
        push_char(&mut s, '-');
        s.append(digits.as_str());
        assert(s@ =~= seq!['-'] + digits@);
        s
    } else {
        decimal(v as u64)
    }
}

/// The digits that `decimal` writes stand for the number written.
pub proof fn lemma_decimal_digits(v: nat)
    ensures
        is_digits(decimal_of(v)),
        decimal_value(decimal_of(v)) == v,
    decreases v,
{
    if v < 10 {
        assert(decimal_of(v).drop_last() =~= Seq::<char>::empty());
        assert(decimal_value(Seq::<char>::empty()) == 0);
    } else {
        lemma_decimal_digits(v / 10);
        assert(decimal_of(v).drop_last() =~= decimal_of(v / 10));
    }
}

/// Reading back what `decimal` wrote gives the number.
pub proof fn lemma_decimal_round_trip(v: u64)
    ensures
        number_of(decimal_of(v as nat)) == Some(v),
{
    lemma_decimal_digits(v as nat);
    assert(is_digit(decimal_of(v as nat)[0]));
}

} // verus!
