//! Character-level text utilities with their mathematical meaning: decimal
//! rendering and parsing of unsigned integers, whitespace trimming, padding.

use vstd::prelude::*;

verus! {

/// An ASCII letter.
pub open spec fn is_ascii_letter(c: char) -> bool {
    ('a' <= c && c <= 'z') || ('A' <= c && c <= 'Z')
}

/// An ASCII decimal digit.
pub open spec fn is_ascii_digit(c: char) -> bool {
    '0' <= c && c <= '9'
}

/// The character that stands for the decimal digit `d`.
pub open spec fn digit_char(d: nat) -> char {
    if d == 0 { '0' }
    else if d == 1 { '1' }
    else if d == 2 { '2' }
    else if d == 3 { '3' }
    else if d == 4 { '4' }
    else if d == 5 { '5' }
    else if d == 6 { '6' }
    else if d == 7 { '7' }
    else if d == 8 { '8' }
    else { '9' }
}

/// The value of a decimal digit character.
pub open spec fn digit_value(c: char) -> nat {
    ((c as int) - ('0' as int)) as nat
}

/// The shortest decimal rendering of `n`, as `{}` formats an unsigned integer.
pub open spec fn decimal(n: nat) -> Seq<char>
    decreases n,
{
    if n < 10 {
        seq![digit_char(n)]
    } else {
        decimal(n / 10).push(digit_char(n % 10))
    }
}

pub fn is_letter(c: char) -> (b: bool)
    ensures
        b == is_ascii_letter(c),
{
    ('a' <= c && c <= 'z') || ('A' <= c && c <= 'Z')
}

pub fn is_digit(c: char) -> (b: bool)
    ensures
        b == is_ascii_digit(c),
{
    '0' <= c && c <= '9'
}

fn digit_str(d: u64) -> (s: &'static str)
    requires
        d < 10,
    ensures
        s@ == seq![digit_char(d as nat)],
{
    if d == 0 {
        proof { reveal_strlit("0"); }
        "0"
    } else if d == 1 {
        proof { reveal_strlit("1"); }
        "1"
    } else if d == 2 {
        proof { reveal_strlit("2"); }
        "2"
    } else if d == 3 {
        proof { reveal_strlit("3"); }
        "3"
    } else if d == 4 {
        proof { reveal_strlit("4"); }
        "4"
    } else if d == 5 {
        proof { reveal_strlit("5"); }
        "5"
    } else if d == 6 {
        proof { reveal_strlit("6"); }
        "6"
    } else if d == 7 {
        proof { reveal_strlit("7"); }
        "7"
    } else if d == 8 {
        proof { reveal_strlit("8"); }
        "8"
    } else {
        proof { reveal_strlit("9"); }
        "9"
    }
}

/// Renders `n` in decimal, as `n.to_string()` does.
pub fn u64_to_decimal(n: u64) -> (s: String)
    ensures
        s@ == decimal(n as nat),
    decreases n,
{
    if n < 10 {
        String::from_str(digit_str(n))
    } else {
        let mut s = u64_to_decimal(n / 10);
        s.append(digit_str(n % 10));
        s
    }
}


/// Why a string is not the decimal rendering of an integer in range, in the
/// order in which `str::parse` for unsigned integers detects it.
#[derive(Debug, Clone, Copy, PartialEq, Eq)]
pub enum IntErrorKind {
    Empty,
    InvalidDigit,
    PosOverflow,
}

/// Reads decimal digits left to right onto `acc`; the first position that holds
/// no digit, or that takes the value above `max`, decides the error.
pub open spec fn accumulate_digits(d: Seq<char>, acc: nat, max: nat) -> Result<nat, IntErrorKind>
    decreases d.len(),
{
    if d.len() == 0 {
        Ok(acc)
    } else if !is_ascii_digit(d[0]) {
        Err(IntErrorKind::InvalidDigit)
    } else if acc * 10 + digit_value(d[0]) > max {
        Err(IntErrorKind::PosOverflow)
    } else {
        accumulate_digits(d.drop_first(), acc * 10 + digit_value(d[0]), max)
    }
}

/// The value that parsing `s` as an unsigned integer no greater than `max`
/// yields: an optional leading `+`, then at least one decimal digit.
pub open spec fn parse_unsigned(s: Seq<char>, max: nat) -> Result<nat, IntErrorKind> {
    if s.len() == 0 {
        Err(IntErrorKind::Empty)
    } else if s.len() == 1 && (s[0] == '+' || s[0] == '-') {
        Err(IntErrorKind::InvalidDigit)
    } else if s[0] == '+' {
        accumulate_digits(s.drop_first(), 0, max)
    } else {
        accumulate_digits(s, 0, max)
    }
}

/// The message with which `str::parse` reports each kind of failure.
pub open spec fn int_error_message(k: IntErrorKind) -> Seq<char> {
    match k {
        IntErrorKind::Empty => "cannot parse integer from empty string"@,
        IntErrorKind::InvalidDigit => "invalid digit found in string"@,
        IntErrorKind::PosOverflow => "number too large to fit in target type"@,
    }
}

impl IntErrorKind {
    /// The message that `str::parse` gives for this failure.
    pub fn message(&self) -> (s: String)
        ensures
            s@ == int_error_message(*self),
    {
        match self {
            IntErrorKind::Empty => String::from_str("cannot parse integer from empty string"),
            IntErrorKind::InvalidDigit => String::from_str("invalid digit found in string"),
            IntErrorKind::PosOverflow => String::from_str("number too large to fit in target type"),
        }
    }
}

/// Parses `s` as an unsigned integer no greater than `max`, as `str::parse`
/// does for `u8`, `u16`, `u32` and `u64`.
pub fn parse_unsigned_str(s: &str, max: u64) -> (r: Result<u64, IntErrorKind>)
    ensures
        match r {
            Ok(v) => parse_unsigned(s@, max as nat) == Ok::<nat, IntErrorKind>(v as nat),
            Err(e) => parse_unsigned(s@, max as nat) == Err::<nat, IntErrorKind>(e),
        },
{
    let len = s.unicode_len();
    if len == 0 {
        return Err(IntErrorKind::Empty);
    }
    let c0 = s.get_char(0);
    if len == 1 && (c0 == '+' || c0 == '-') {
        return Err(IntErrorKind::InvalidDigit);
    }
    let start: usize = if c0 == '+' { 1 } else { 0 };
    let ghost digits = s@.subrange(start as int, len as int);
    assert(digits == if c0 == '+' { s@.drop_first() } else { s@ });
    let mut i: usize = start;
    let mut acc: u64 = 0;
    while i < len
        invariant
            start <= i <= len,
            len == s@.len(),
            acc <= max,
            parse_unsigned(s@, max as nat) == accumulate_digits(digits, 0, max as nat),
            accumulate_digits(digits, 0, max as nat)
                == accumulate_digits(s@.subrange(i as int, len as int), acc as nat, max as nat),
        decreases len - i,
    {
        let c = s.get_char(i);
        let ghost rest = s@.subrange(i as int, len as int);
        assert(rest[0] == c);
        assert(rest.drop_first() == s@.subrange(i + 1, len as int));
        if !is_digit(c) {
            return Err(IntErrorKind::InvalidDigit);
        }
        let d: u64 = (c as u64) - ('0' as u64);
        assert(d as nat == digit_value(c));
        if d > max || acc > (max - d) / 10 {
            assert(acc * 10 + d > max) by (nonlinear_arith)
                requires d > max || acc > (max - d) / 10, acc >= 0;
            return Err(IntErrorKind::PosOverflow);
        }
        assert(acc * 10 + d <= max) by (nonlinear_arith)
            requires acc <= (max - d) / 10, d <= 9;
        acc = acc * 10 + d;
        i = i + 1;
    }
    assert(s@.subrange(len as int, len as int).len() == 0);
    Ok(acc)
}


/// The characters with the Unicode `White_Space` property, which
/// `char::is_whitespace` recognises.
pub open spec fn is_white_space(c: char) -> bool {
    ||| ('\u{9}' <= c && c <= '\u{d}')
    ||| c == ' '
    ||| c == '\u{85}'
    ||| c == '\u{a0}'
    ||| c == '\u{1680}'
    ||| ('\u{2000}' <= c && c <= '\u{200a}')
    ||| c == '\u{2028}'
    ||| c == '\u{2029}'
    ||| c == '\u{202f}'
    ||| c == '\u{205f}'
    ||| c == '\u{3000}'
}

pub fn is_space(c: char) -> (b: bool)
    ensures
        b == is_white_space(c),
{
    ('\u{9}' <= c && c <= '\u{d}') || c == ' ' || c == '\u{85}' || c == '\u{a0}'
        || c == '\u{1680}' || ('\u{2000}' <= c && c <= '\u{200a}') || c == '\u{2028}'
        || c == '\u{2029}' || c == '\u{202f}' || c == '\u{205f}' || c == '\u{3000}'
}

/// `s` without its leading white space.
pub open spec fn trim_start(s: Seq<char>) -> Seq<char>
    decreases s.len(),
{
    if s.len() > 0 && is_white_space(s[0]) {
        trim_start(s.drop_first())
    } else {
        s
    }
}

/// `s` without its trailing white space.
pub open spec fn trim_end(s: Seq<char>) -> Seq<char>
    decreases s.len(),
{
    if s.len() > 0 && is_white_space(s.last()) {
        trim_end(s.drop_last())
    } else {
        s
    }
}

/// `s` without leading and trailing white space, as `str::trim` returns it.
pub open spec fn trim(s: Seq<char>) -> Seq<char> {
    trim_end(trim_start(s))
}

/// Returns `s` without leading and trailing white space.
pub fn trim_str(s: &str) -> (r: &str)
    ensures
        r@ == trim(s@),
{
    let len = s.unicode_len();
    let mut i: usize = 0;
    assert(s@.subrange(0, len as int) == s@);
    while i < len && is_space(s.get_char(i))
        invariant
            i <= len,
            len == s@.len(),
            trim_start(s@) == trim_start(s@.subrange(i as int, len as int)),
        decreases len - i,
    {
        assert(s@.subrange(i as int, len as int).drop_first() == s@.subrange(i + 1, len as int));
        i = i + 1;
    }
    let ghost mid = s@.subrange(i as int, len as int);
    assert(trim_start(s@) == mid);
    let mut j: usize = len;
    while j > i && is_space(s.get_char(j - 1))
        invariant
            i <= j <= len,
            len == s@.len(),
            mid == s@.subrange(i as int, len as int),
            trim_end(mid) == trim_end(s@.subrange(i as int, j as int)),
        decreases j,
    {
        assert(s@.subrange(i as int, j as int).drop_last() == s@.subrange(i as int, j - 1));
        j = j - 1;
    }
    s.substring_char(i, j)
}

/// Decimal renderings hold no white space, so trimming leaves them as they are.
pub proof fn lemma_trim_decimal(n: nat)
    ensures
        trim(decimal(n)) == decimal(n),
{
    lemma_decimal_digits(n);
    let d = decimal(n);
    assert(!is_white_space(d[0]));
    assert(trim_start(d) == d);
    assert(!is_white_space(d.last()));
}

/// Every character of a decimal rendering is a digit, and the rendering is not empty.
pub proof fn lemma_decimal_digits(n: nat)
    ensures
        decimal(n).len() >= 1,
        forall|i: int| 0 <= i < decimal(n).len() ==> is_ascii_digit(#[trigger] decimal(n)[i]),
    decreases n,
{
    if n >= 10 {
        lemma_decimal_digits(n / 10);
    }
}

/// Reading one more digit after a prefix continues from the prefix's value.
pub proof fn lemma_accumulate_push(s: Seq<char>, c: char, acc: nat, max: nat)
    ensures
        accumulate_digits(s.push(c), acc, max) == match accumulate_digits(s, acc, max) {
            Ok(v) => accumulate_digits(seq![c], v, max),
            Err(e) => Err(e),
        },
    decreases s.len(),
{
    if s.len() == 0 {
        assert(s.push(c) == seq![c]);
    } else {
        assert(s.push(c).drop_first() == s.drop_first().push(c));
        assert(s.push(c)[0] == s[0]);
        if is_ascii_digit(s[0]) && acc * 10 + digit_value(s[0]) <= max {
            lemma_accumulate_push(s.drop_first(), c, acc * 10 + digit_value(s[0]), max);
        }
    }
}

/// Digit characters and their values correspond.
pub proof fn lemma_digit_char(d: nat)
    requires
        d < 10,
    ensures
        is_ascii_digit(digit_char(d)),
        digit_value(digit_char(d)) == d,
{
}

/// The decimal rendering of a value in range reads back as that value.
pub proof fn lemma_decimal_accumulates(n: nat, max: nat)
    requires
        n <= max,
    ensures
        accumulate_digits(decimal(n), 0, max) == Ok::<nat, IntErrorKind>(n),
    decreases n,
{
    if n < 10 {
        lemma_digit_char(n);
        let one = seq![digit_char(n)];
        assert(one.drop_first() =~= Seq::<char>::empty());
        assert(one[0] == digit_char(n));
        assert(accumulate_digits(one.drop_first(), n, max) == Ok::<nat, IntErrorKind>(n));
    } else {
        lemma_digit_char(n % 10);
        lemma_decimal_accumulates(n / 10, max);
        lemma_accumulate_push(decimal(n / 10), digit_char(n % 10), 0, max);
        let one = seq![digit_char(n % 10)];
        assert(one.drop_first() =~= Seq::<char>::empty());
        assert(one[0] == digit_char(n % 10));
        assert((n / 10) * 10 + n % 10 == n);
        assert(accumulate_digits(one.drop_first(), n, max) == Ok::<nat, IntErrorKind>(n));
        assert(accumulate_digits(one, n / 10, max) == Ok::<nat, IntErrorKind>(n));
    }
}

/// What is written as the decimal rendering of a value, possibly with surrounding
/// white space removed, parses back to that value.
pub proof fn lemma_parse_decimal(n: nat, max: nat)
    requires
        n <= max,
    ensures
        parse_unsigned(decimal(n), max) == Ok::<nat, IntErrorKind>(n),
        parse_unsigned(trim(decimal(n)), max) == Ok::<nat, IntErrorKind>(n),
{
    lemma_decimal_digits(n);
    lemma_decimal_accumulates(n, max);
    lemma_trim_decimal(n);
    let d = decimal(n);
    assert(is_ascii_digit(d[0]));
}

/// `n` spaces.
pub open spec fn spaces(n: nat) -> Seq<char> {
    Seq::new(n, |i: int| ' ')
}

/// `s` padded with spaces on the right to `width` characters, as `{:<width}`
/// formats it; a longer `s` stays as it is.
pub open spec fn pad_right(s: Seq<char>, width: nat) -> Seq<char> {
    if s.len() >= width { s } else { s + spaces((width - s.len()) as nat) }
}

/// Returns `s` padded with spaces on the right to `width` characters.
pub fn pad_str(s: &str, width: usize) -> (r: String)
    ensures
        r@ == pad_right(s@, width as nat),
{
    let mut r = String::from_str(s);
    let n = s.unicode_len();
    if n >= width {
        return r;
    }
    let mut k: usize = n;
    assert(s@ + spaces(0) =~= s@);
    while k < width
        invariant
            n <= k <= width,
            n == s@.len(),
            r@ == s@ + spaces((k - n) as nat),
        decreases width - k,
    {
        r.append(" ");
        proof { reveal_strlit(" "); }
        assert(spaces((k - n) as nat).push(' ') =~= spaces((k + 1 - n) as nat));
        assert(s@ + spaces((k - n) as nat) + seq![' '] =~= s@ + spaces((k + 1 - n) as nat));
        k = k + 1;
    }
    r
}

/// Appends the UTF-8 encoding of `text` to `out`.
pub fn write_text(out: &mut Vec<u8>, text: &str)
    ensures
        final(out)@ == old(out)@ + vstd::utf8::encode_utf8(text@),
{
    let bytes = text.as_bytes();
    let ghost before = out@;
    out.extend_from_slice(bytes);
    assert(final(out)@ =~= before + vstd::utf8::encode_utf8(text@)) by {
        assert forall|i: int| 0 <= i < out@.len() implies out@[i] == (before + vstd::utf8::encode_utf8(text@))[i] by {
            if i >= before.len() {
                assert(cloned::<u8>(bytes@[i - before.len()], out@[i]));
            }
        }
    }
}

/// A line without the carriage return that ended it before its newline.
pub open spec fn without_cr(line: Seq<char>) -> Seq<char> {
    if line.len() > 0 && line.last() == '\r' { line.drop_last() } else { line }
}

/// Drops the carriage return at the end of a line.
pub fn line_without_cr(line: &str) -> (l: &str)
    ensures
        l@ == without_cr(line@),
{
    let n = line.unicode_len();
    if n > 0 && line.get_char(n - 1) == '\r' {
        line.substring_char(0, n - 1)
    } else {
        line
    }
}

/// The first position of `c` in `s`.
pub open spec fn first_index_of(s: Seq<char>, c: char) -> Option<int>
    decreases s.len(),
{
    if s.len() == 0 {
        None
    } else if s[0] == c {
        Some(0)
    } else {
        match first_index_of(s.drop_first(), c) {
            Some(i) => Some(i + 1),
            None => None,
        }
    }
}

/// Returns the first position of `c` in `s`.
pub fn find_char(s: &str, c: char) -> (r: Option<usize>)
    ensures
        match r {
            Some(i) => first_index_of(s@, c) == Some(i as int) && i < s@.len(),
            None => first_index_of(s@, c) is None,
        },
{
    let n = s.unicode_len();
    let mut i: usize = 0;
    assert(s@.skip(0) =~= s@);
    while i < n
        invariant
            i <= n,
            n == s@.len(),
            first_index_of(s@, c) == match first_index_of(s@.skip(i as int), c) {
                Some(j) => Some(j + i),
                None => None::<int>,
            },
        decreases n - i,
    {
        assert(s@.skip(i as int)[0] == s@[i as int]);
        if s.get_char(i) == c {
            return Some(i);
        }
        assert(s@.skip(i as int).drop_first() =~= s@.skip(i + 1));
        i = i + 1;
    }
    None
}

/// The parts of `s` before and after the first `c`, as `str::split_once` gives them.
pub open spec fn split_once(s: Seq<char>, c: char) -> Option<(Seq<char>, Seq<char>)> {
    match first_index_of(s, c) {
        Some(i) => Some((s.subrange(0, i), s.subrange(i + 1, s.len() as int))),
        None => None,
    }
}

/// Returns the parts of `s` before and after the first `c`.
pub fn split_once_str(s: &str, c: char) -> (r: Option<(&str, &str)>)
    ensures
        match r {
            Some((a, b)) => split_once(s@, c) == Some((a@, b@)),
            None => split_once(s@, c) is None,
        },
{
    match find_char(s, c) {
        None => None,
        Some(i) => {
            let n = s.unicode_len();
            Some((s.substring_char(0, i), s.substring_char(i + 1, n)))
        },
    }
}

/// A copy of a list of strings.
pub fn copy_strings(v: &Vec<String>) -> (r: Vec<String>)
    ensures
        r@ == v@,
{
    let mut r: Vec<String> = Vec::new();
    let n = v.len();
    let mut i: usize = 0;
    while i < n
        invariant
            i <= n,
            n == v@.len(),
            r@ == v@.take(i as int),
        decreases n - i,
    {
        r.push(v[i].clone());
        assert(r@ =~= v@.take(i + 1));
        i = i + 1;
    }
    assert(v@.take(n as int) =~= v@);
    r
}

} // verus!
