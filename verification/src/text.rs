//! Text that the handlers read and write: blank names, numbers in decimal,
//! and messages put together from pieces.

use vstd::prelude::*;

verus! {

/// Whether `c` is white space: the code points with the Unicode property
/// `White_Space`.
pub open spec fn is_whitespace(c: char) -> bool {
    let u = c as u32;
    ||| 0x09 <= u <= 0x0D
    ||| u == 0x20
    ||| u == 0x85
    ||| u == 0xA0
    ||| u == 0x1680
    ||| 0x2000 <= u <= 0x200A
    ||| u == 0x2028
    ||| u == 0x2029
    ||| u == 0x202F
    ||| u == 0x205F
    ||| u == 0x3000
}

/// Whether nothing is left of `s` once white space is trimmed from both ends.
pub open spec fn is_blank(s: Seq<char>) -> bool {
    forall|i: int| 0 <= i < s.len() ==> is_whitespace(#[trigger] s[i])
}

/// The character of the decimal digit `d`.
pub open spec fn digit_char(d: int) -> char {
    if d == 0 {
        '0'
    } else if d == 1 {
        '1'
    } else if d == 2 {
        '2'
    } else if d == 3 {
        '3'
    } else if d == 4 {
        '4'
    } else if d == 5 {
        '5'
    } else if d == 6 {
        '6'
    } else if d == 7 {
        '7'
    } else if d == 8 {
        '8'
    } else {
        '9'
    }
}

/// The decimal digits of `n`, without leading zeros.
pub open spec fn decimal_nat(n: nat) -> Seq<char>
    decreases n,
{
    if n < 10 {
        seq![digit_char(n as int)]
    } else {
        decimal_nat(n / 10).push(digit_char((n % 10) as int))
    }
}

/// `n` in decimal, with a minus sign where it is negative.
pub open spec fn decimal(n: int) -> Seq<char> {
    if n < 0 {
        seq!['-'] + decimal_nat((-n) as nat)
    } else {
        decimal_nat(n as nat)
    }
}

/// Whether `c` is white space.
pub fn char_is_whitespace(c: char) -> (b: bool)
    ensures
        b == is_whitespace(c),
{
    let u: u32 = c as u32;
    (0x09 <= u && u <= 0x0D) || u == 0x20 || u == 0x85 || u == 0xA0 || u == 0x1680 || (0x2000 <= u
        && u <= 0x200A) || u == 0x2028 || u == 0x2029 || u == 0x202F || u == 0x205F || u == 0x3000
}

/// Whether `s` is empty once trimmed.
pub fn str_is_blank(s: &str) -> (b: bool)
    ensures
        b == is_blank(s@),
{
    let n = s.unicode_len();
    let mut i: usize = 0;
    while i < n
        invariant
            i <= n,
            n == s@.len(),
            forall|j: int| 0 <= j < i ==> is_whitespace(#[trigger] s@[j]),
        decreases n - i,
    {
        if !char_is_whitespace(s.get_char(i)) {
            return false;
        }
        i = i + 1;
    }
    true
}

/// The one-character text of the decimal digit `d`.
fn digit_str(d: u64) -> (s: &'static str)
    requires
        d < 10,
    ensures
        s@ == seq![digit_char(d as int)],
{
    proof {
        reveal_strlit("0");
        reveal_strlit("1");
        reveal_strlit("2");
        reveal_strlit("3");
        reveal_strlit("4");
        reveal_strlit("5");
        reveal_strlit("6");
        reveal_strlit("7");
        reveal_strlit("8");
        reveal_strlit("9");
    }
    let s = if d == 0 {
        "0"
    } else if d == 1 {
        "1"
    } else if d == 2 {
        "2"
    } else if d == 3 {
        "3"
    } else if d == 4 {
        "4"
    } else if d == 5 {
        "5"
    } else if d == 6 {
        "6"
    } else if d == 7 {
        "7"
    } else if d == 8 {
        "8"
    } else {
        "9"
    };
    assert(s@ =~= seq![digit_char(d as int)]);
    s
}

/// Appends the decimal digits of `n` to `out`.
fn push_decimal(out: &mut String, n: u64)
    ensures
        final(out)@ == old(out)@ + decimal_nat(n as nat),
    decreases n,
{
    if n >= 10 {
        push_decimal(out, n / 10);
    }
    out.append(digit_str(n % 10));
    proof {
        if n >= 10 {
            assert(final(out)@ =~= old(out)@ + decimal_nat(n as nat));
        } else {
            assert(final(out)@ =~= old(out)@ + decimal_nat(n as nat));
        }
    }
}

/// `n` in decimal.
pub fn i64_to_string(n: i64) -> (s: String)
    ensures
        s@ == decimal(n as int),
{
    let mut out = String::new();
    if n < 0 {
        proof {
            reveal_strlit("-");
        }
        out.append("-");
        let magnitude: u64 = if n == i64::MIN {
            0x8000_0000_0000_0000
        } else {
            (-n) as u64
        };
        push_decimal(&mut out, magnitude);
        proof {
            assert(out@ =~= decimal(n as int));
        }
    } else {
        push_decimal(&mut out, n as u64);
        proof {
            assert(out@ =~= decimal(n as int));
        }
    }
    out
}

/// `a` followed by `b`.
pub fn concat2(a: &str, b: &str) -> (s: String)
    ensures
        s@ == a@ + b@,
{
    let mut out = String::from_str(a);
    out.append(b);
    out
}

/// `a`, `b` and `c` in a row.
pub fn concat3(a: &str, b: &str, c: &str) -> (s: String)
    ensures
        s@ == a@ + b@ + c@,
{
    let mut out = String::from_str(a);
    out.append(b);
    out.append(c);
    out
}

/// Whether `c` is one of the ten decimal digits.
pub open spec fn is_digit(c: char) -> bool {
    '0' <= c <= '9'
}

/// Whether `s` holds decimal digits only.
pub open spec fn all_digits(s: Seq<char>) -> bool {
    forall|i: int| 0 <= i < s.len() ==> is_digit(#[trigger] s[i])
}

/// The number that the decimal digits `s` spell; leading zeros count for
/// nothing, and no digits spell 0.
pub open spec fn digits_value(s: Seq<char>) -> int
    decreases s.len(),
{
    if s.len() == 0 {
        0
    } else {
        digits_value(s.drop_last()) * 10 + (s.last() as int - '0' as int)
    }
}

/// The text starts with a minus sign.
pub open spec fn has_minus(s: Seq<char>) -> bool {
    s.len() > 0 && s[0] == '-'
}

/// The text without the one sign, plus or minus, that it may start with.
pub open spec fn unsigned_part(s: Seq<char>) -> Seq<char> {
    if s.len() > 0 && (s[0] == '-' || s[0] == '+') {
        s.skip(1)
    } else {
        s
    }
}

/// The number that the text spells in signed decimal.
pub open spec fn signed_value(s: Seq<char>) -> int {
    if has_minus(s) {
        -digits_value(unsigned_part(s))
    } else {
        digits_value(unsigned_part(s))
    }
}

/// The 64-bit signed number that `s` spells: an optional sign, then one or
/// more decimal digits and nothing else, with a value that fits. Nothing
/// where `s` is not of that form or the value does not fit.
pub open spec fn parsed_i64(s: Seq<char>) -> Option<i64> {
    let digits = unsigned_part(s);
    if digits.len() > 0 && all_digits(digits) && i64::MIN <= signed_value(s) <= i64::MAX {
        Some(signed_value(s) as i64)
    } else {
        None
    }
}

/// More digits never spell less.
pub proof fn lemma_digits_value_grows(s: Seq<char>, k: int)
    requires
        all_digits(s),
        0 <= k <= s.len(),
    ensures
        0 <= digits_value(s.take(k)) <= digits_value(s),
    decreases s.len() - k,
{
    lemma_digits_value_nonnegative(s.take(k));
    if k < s.len() {
        lemma_digits_value_grows(s, k + 1);
        assert(s.take(k + 1).drop_last() =~= s.take(k));
        assert(s.take(k + 1).last() == s[k]);
        assert(is_digit(s[k]));
    } else {
        assert(s.take(k) =~= s);
    }
}

/// Digits spell no negative number.
pub proof fn lemma_digits_value_nonnegative(s: Seq<char>)
    requires
        all_digits(s),
    ensures
        digits_value(s) >= 0,
    decreases s.len(),
{
    if s.len() > 0 {
        assert(is_digit(s.last()));
        assert forall|i: int| 0 <= i < s.drop_last().len() implies is_digit(
            #[trigger] s.drop_last()[i],
        ) by {
            assert(s.drop_last()[i] == s[i]);
        }
        lemma_digits_value_nonnegative(s.drop_last());
    }
}

/// Why a text is no 64-bit signed number.
#[derive(Clone, Copy, Debug, PartialEq, Eq, Structural)]
pub enum IntErrorKind {
    /// The text is empty.
    Empty,
    /// A character is no digit, or a sign has no digits behind it.
    InvalidDigit,
    /// The digits up to some point spell a number above the largest.
    PosOverflow,
    /// The digits up to some point spell a number below the smallest.
    NegOverflow,
}

/// What reading the digits from the left gives, `acc` being the number read
/// so far: the number, or the first thing that goes wrong. At a character
/// that is no digit that is an invalid digit; at a digit with which the
/// number leaves the 64-bit range it is an overflow.
pub open spec fn scan_digits(digits: Seq<char>, negative: bool, acc: int) -> Result<
    int,
    IntErrorKind,
>
    decreases digits.len(),
{
    if digits.len() == 0 {
        Ok(acc)
    } else if !is_digit(digits[0]) {
        Err(IntErrorKind::InvalidDigit)
    } else {
        let d = digits[0] as int - '0' as int;
        let next = if negative {
            acc * 10 - d
        } else {
            acc * 10 + d
        };
        if next > i64::MAX {
            Err(IntErrorKind::PosOverflow)
        } else if next < i64::MIN {
            Err(IntErrorKind::NegOverflow)
        } else {
            scan_digits(digits.skip(1), negative, next)
        }
    }
}

/// The 64-bit signed number that the text spells, or why it spells none.
pub open spec fn int_from_text(s: Seq<char>) -> Result<i64, IntErrorKind> {
    if s.len() == 0 {
        Err(IntErrorKind::Empty)
    } else if unsigned_part(s).len() == 0 {
        Err(IntErrorKind::InvalidDigit)
    } else {
        match scan_digits(unsigned_part(s), has_minus(s), 0) {
            Ok(v) => Ok(v as i64),
            Err(k) => Err(k),
        }
    }
}

/// The words for a text that is no number.
pub open spec fn int_error_message(kind: IntErrorKind) -> Seq<char> {
    match kind {
        IntErrorKind::Empty => "cannot parse integer from empty string"@,
        IntErrorKind::InvalidDigit => "invalid digit found in string"@,
        IntErrorKind::PosOverflow => "number too large to fit in target type"@,
        IntErrorKind::NegOverflow => "number too small to fit in target type"@,
    }
}

impl IntErrorKind {
    /// The words for the failure.
    pub fn message(&self) -> (words: &'static str)
        ensures
            words@ == int_error_message(*self),
    {
        match self {
            IntErrorKind::Empty => "cannot parse integer from empty string",
            IntErrorKind::InvalidDigit => "invalid digit found in string",
            IntErrorKind::PosOverflow => "number too large to fit in target type",
            IntErrorKind::NegOverflow => "number too small to fit in target type",
        }
    }
}

/// The number read so far, with its sign.
pub open spec fn signed(negative: bool, magnitude: int) -> int {
    if negative {
        -magnitude
    } else {
        magnitude
    }
}

/// Reading the digits from the left succeeds exactly where all of them are
/// digits and the number fits, and gives that number.
pub proof fn lemma_scan_digits(digits: Seq<char>, negative: bool, k: int)
    requires
        0 <= k <= digits.len(),
        all_digits(digits.take(k)),
        i64::MIN <= signed(negative, digits_value(digits.take(k))) <= i64::MAX,
    ensures
        match scan_digits(
            digits.skip(k),
            negative,
            signed(negative, digits_value(digits.take(k))),
        ) {
            Ok(v) => all_digits(digits) && v == signed(negative, digits_value(digits)) && i64::MIN
                <= v <= i64::MAX,
            Err(_) => !all_digits(digits) || !(i64::MIN <= signed(
                negative,
                digits_value(digits),
            ) <= i64::MAX),
        },
    decreases digits.len() - k,
{
    let rest = digits.skip(k);
    if rest.len() == 0 {
        assert(digits.take(k) =~= digits);
    } else {
        assert(rest[0] == digits[k]);
        if !is_digit(rest[0]) {
            assert(!all_digits(digits));
        } else {
            let next = digits.take(k + 1);
            assert(next.drop_last() =~= digits.take(k));
            assert(next.last() == digits[k]);
            assert forall|i: int| 0 <= i < next.len() implies is_digit(#[trigger] next[i]) by {
                if i < k {
                    assert(digits.take(k)[i] == next[i]);
                }
            }
            assert(rest.skip(1) =~= digits.skip(k + 1));
            let value = signed(negative, digits_value(next));
            if i64::MIN <= value <= i64::MAX {
                lemma_scan_digits(digits, negative, k + 1);
            } else if all_digits(digits) {
                lemma_digits_value_grows(digits, k + 1);
            }
        }
    }
}

/// A text spells a number read from the left exactly where it is a sign or
/// none and then digits whose number fits.
pub proof fn lemma_int_from_text(s: Seq<char>)
    ensures
        parsed_i64(s) == match int_from_text(s) {
            Ok(v) => Some(v),
            Err(_) => None::<i64>,
        },
{
    let digits = unsigned_part(s);
    if digits.len() > 0 {
        assert(digits.take(0) =~= Seq::<char>::empty());
        assert(digits.skip(0) =~= digits);
        lemma_scan_digits(digits, has_minus(s), 0);
    }
}

/// Reads a 64-bit signed number in decimal, from the left, and says what
/// went wrong first where there is none.
pub fn i64_from_str(s: &str) -> (number: Result<i64, IntErrorKind>)
    ensures
        number == int_from_text(s@),
{
    let n = s.unicode_len();
    if n == 0 {
        return Err(IntErrorKind::Empty);
    }
    let first = s.get_char(0) as u32;
    let negative = first == 45;
    let start: usize = if first == 45 || first == 43 {
        1
    } else {
        0
    };
    let ghost digits = unsigned_part(s@);
    proof {
        assert(('-' as u32) == 45 && ('+' as u32) == 43 && ('0' as u32) == 48 && ('9' as u32)
            == 57);
        assert(digits.len() == n - start);
        assert(digits.skip(0) =~= digits);
    }
    if start == n {
        return Err(IntErrorKind::InvalidDigit);
    }
    // The magnitude is at most 2^63, which a negative number may reach.
    let limit: u64 = if negative {
        0x8000_0000_0000_0000
    } else {
        0x7FFF_FFFF_FFFF_FFFF
    };
    let mut acc: u64 = 0;
    let mut i: usize = start;
    while i < n
        invariant
            start <= i <= n,
            n == s@.len(),
            digits == unsigned_part(s@),
            digits.len() == n - start,
            acc <= limit,
            negative == has_minus(s@),
            limit == if negative {
                0x8000_0000_0000_0000u64
            } else {
                0x7FFF_FFFF_FFFF_FFFFu64
            },
            scan_digits(digits.skip(i - start), negative, signed(negative, acc as int))
                == scan_digits(digits, negative, 0),
        decreases n - i,
    {
        let c = s.get_char(i) as u32;
        proof {
            assert(('0' as u32) == 48 && ('9' as u32) == 57);
            assert(digits[i - start] == s@[i as int]);
            assert(digits.skip(i - start)[0] == digits[i - start]);
            assert(digits.skip(i - start).skip(1) =~= digits.skip(i - start + 1));
        }
        if c < 48 || c > 57 {
            return Err(IntErrorKind::InvalidDigit);
        }
        let d: u64 = (c - 48) as u64;
        if acc > (limit - d) / 10 {
            return Err(
                if negative {
                    IntErrorKind::NegOverflow
                } else {
                    IntErrorKind::PosOverflow
                },
            );
        }
        acc = acc * 10 + d;
        i = i + 1;
    }
    if negative {
        if acc == 0x8000_0000_0000_0000 {
            Ok(i64::MIN)
        } else {
            Ok(-(acc as i64))
        }
    } else {
        Ok(acc as i64)
    }
}

/// Reads a 64-bit signed number in decimal.
pub fn parse_i64(s: &str) -> (number: Option<i64>)
    ensures
        number == parsed_i64(s@),
{
    proof {
        lemma_int_from_text(s@);
    }
    match i64_from_str(s) {
        Ok(v) => Some(v),
        Err(_) => None,
    }
}

/// The parts of `s` between the separators: one more than there are
/// separators, so an empty text has one part, which is empty.
pub open spec fn split(s: Seq<char>, sep: char) -> Seq<Seq<char>>
    decreases s.len(),
{
    if s.len() == 0 {
        seq![Seq::empty()]
    } else {
        let front = split(s.drop_last(), sep);
        if s.last() == sep {
            front.push(Seq::empty())
        } else {
            front.drop_last().push(front.last().push(s.last()))
        }
    }
}

/// What a list of texts holds.
pub open spec fn texts_view(texts: Seq<String>) -> Seq<Seq<char>> {
    texts.map_values(|t: String| t@)
}

/// The parts of `s` between the separators.
pub fn split_on(s: &str, sep: char) -> (parts: Vec<String>)
    ensures
        texts_view(parts@) == split(s@, sep),
{
    let n = s.unicode_len();
    let mut parts: Vec<String> = Vec::new();
    let mut start: usize = 0;
    let mut i: usize = 0;
    proof {
        assert(s@.take(0) =~= Seq::<char>::empty());
        assert(s@.subrange(0, 0) =~= Seq::<char>::empty());
        assert(texts_view(parts@).push(s@.subrange(0, 0)) =~= split(s@.take(0), sep));
    }
    while i < n
        invariant
            start <= i <= n,
            n == s@.len(),
            split(s@.take(i as int), sep) == texts_view(parts@).push(
                s@.subrange(start as int, i as int),
            ),
        decreases n - i,
    {
        let c = s.get_char(i);
        let ghost before = texts_view(parts@);
        proof {
            let next = s@.take(i + 1);
            assert(next.drop_last() =~= s@.take(i as int));
            assert(next.last() == s@[i as int]);
        }
        if c == sep {
            let part = s.substring_char(start, i);
            parts.push(String::from_str(part));
            start = i + 1;
            proof {
                assert(texts_view(parts@) =~= before.push(part@));
                assert(s@.subrange(start as int, i + 1) =~= Seq::<char>::empty());
            }
        } else {
            proof {
                let front = before.push(s@.subrange(start as int, i as int));
                assert(front.drop_last() =~= before);
                assert(front.last().push(c) =~= s@.subrange(start as int, i + 1));
            }
        }
        i = i + 1;
    }
    let part = s.substring_char(start, n);
    let ghost before = texts_view(parts@);
    parts.push(String::from_str(part));
    proof {
        assert(s@.take(n as int) =~= s@);
        assert(texts_view(parts@) =~= before.push(s@.subrange(start as int, n as int)));
    }
    parts
}

/// `s` begins with `p`.
pub open spec fn is_prefix(p: Seq<char>, s: Seq<char>) -> bool {
    p.len() <= s.len() && s.subrange(0, p.len() as int) == p
}

/// Whether `s` begins with `p`.
pub fn str_starts_with(s: &str, p: &str) -> (b: bool)
    ensures
        b == is_prefix(p@, s@),
{
    let n = s.unicode_len();
    let m = p.unicode_len();
    if m > n {
        return false;
    }
    let mut i: usize = 0;
    while i < m
        invariant
            i <= m <= n,
            n == s@.len(),
            m == p@.len(),
            forall|k: int| 0 <= k < i ==> s@[k] == p@[k],
        decreases m - i,
    {
        if s.get_char(i) != p.get_char(i) {
            proof {
                assert(s@.subrange(0, m as int)[i as int] == s@[i as int]);
            }
            return false;
        }
        i = i + 1;
    }
    proof {
        assert(s@.subrange(0, m as int) =~= p@);
    }
    true
}

/// Whether the two texts are the same.
pub fn str_equal(a: &str, b: &str) -> (same: bool)
    ensures
        same == (a@ == b@),
{
    let n = a.unicode_len();
    if n != b.unicode_len() {
        return false;
    }
    let starts = str_starts_with(a, b);
    proof {
        assert(a@.subrange(0, n as int) =~= a@);
    }
    starts
}

} // verus!
