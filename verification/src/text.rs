//! Character-level helpers shared by the validated primitives: digit tests,
//! decimal parsing and decimal rendering, each with its mathematical model.

use vstd::prelude::*;
use vstd::string::*;

verus! {

broadcast use vstd::string::group_string_axioms;

/// A decimal digit, `'0'` to `'9'`.
pub open spec fn is_digit_char(c: char) -> bool {
    '0' <= c <= '9'
}

/// Every character of `s` is a decimal digit.
pub open spec fn all_digits(s: Seq<char>) -> bool {
    forall|i: int| 0 <= i < s.len() ==> is_digit_char(#[trigger] s[i])
}

/// `s` consists of exactly `n` decimal digits.
pub open spec fn is_digit_code(s: Seq<char>, n: nat) -> bool {
    s.len() == n && all_digits(s)
}

/// The value of a decimal digit character.
pub open spec fn digit_value(c: char) -> nat {
    (c as u32 - '0' as u32) as nat
}

/// The number that a sequence of decimal digits denotes, most significant
/// digit first; the empty sequence denotes zero.
pub open spec fn decimal_value(s: Seq<char>) -> nat
    decreases s.len(),
{
    if s.len() == 0 {
        0
    } else {
        decimal_value(s.drop_last()) * 10 + digit_value(s.last())
    }
}

/// Whether two string slices hold the same text. The slices are compared
/// byte by byte; their encodings are the same exactly when their texts are.
pub fn same_text(a: &str, b: &str) -> (r: bool)
    ensures
        r == (a@ == b@),
{
    let x = a.as_bytes();
    let y = b.as_bytes();
    proof {
        vstd::utf8::encode_utf8_decode_utf8(a@);
        vstd::utf8::encode_utf8_decode_utf8(b@);
    }
    if x.len() != y.len() {
        return false;
    }
    let mut i: usize = 0;
    while i < x.len()
        invariant
            x@ == a.spec_bytes(),
            y@ == b.spec_bytes(),
            x@.len() == y@.len(),
            0 <= i <= x@.len(),
            forall|j: int| 0 <= j < i ==> x@[j] == y@[j],
        decreases x@.len() - i,
    {
        if x[i] != y[i] {
            return false;
        }
        i = i + 1;
    }
    assert(x@ =~= y@);
    true
}

/// Whether every character of `s` is a decimal digit.
pub fn is_digits(s: &str) -> (r: bool)
    ensures
        r == all_digits(s@),
{
    if !s.is_ascii() {
        proof {
            let i = choose|i: int| 0 <= i < s@.len() && !('\0' <= #[trigger] s@[i] <= '\u{7f}');
            assert(!is_digit_char(s@[i]));
        }
        return false;
    }
    let n = s.unicode_len();
    let mut i: usize = 0;
    while i < n
        invariant
            n == s@.len(),
            is_ascii(s),
            0 <= i <= n,
            forall|j: int| 0 <= j < i ==> is_digit_char(#[trigger] s@[j]),
        decreases n - i,
    {
        let b = s.get_ascii(i);
        if b < 48 || b > 57 {
            assert(!is_digit_char(s@[i as int]));
            return false;
        }
        assert(is_digit_char(s@[i as int]));
        i = i + 1;
    }
    true
}

/// Whether `s` consists of exactly `n` decimal digits.
pub fn is_digit_code_str(s: &str, n: usize) -> (r: bool)
    ensures
        r == is_digit_code(s@, n as nat),
{
    is_digits(s) && s.unicode_len() == n
}

/// The character that shows the decimal digit `d`.
pub open spec fn digit_char(d: nat) -> char
    recommends
        d < 10,
{
    (d + 48) as u8 as char
}

/// The shortest decimal rendering of `n`: no sign, no leading zero but for
/// zero itself.
pub open spec fn decimal_digits(n: nat) -> Seq<char>
    decreases n,
{
    if n < 10 {
        seq![digit_char(n)]
    } else {
        decimal_digits(n / 10).push(digit_char(n % 10))
    }
}

/// The one-character string that shows the decimal digit `d`.
pub fn digit_str(d: u8) -> (r: &'static str)
    requires
        d < 10,
    ensures
        r@ == seq![digit_char(d as nat)],
{
    proof {
        reveal_strlit("0");
        reveal_strlit("1");
        reveal_strlit("2");
        reveal_strlit("3");
        reveal_strlit("4");
        reveal_strlit("5");
        reveal_strlit("6");
        reveal_strlit("7");
        reveal_strlit("8");
        reveal_strlit("9");
    }
    let r = match d {
        0 => "0",
        1 => "1",
        2 => "2",
        3 => "3",
        4 => "4",
        5 => "5",
        6 => "6",
        7 => "7",
        8 => "8",
        _ => "9",
    };
    assert(r@ =~= seq![digit_char(d as nat)]);
    r
}

/// Renders `n` in decimal, as the standard formatting of an unsigned integer
/// does.
pub fn to_decimal(n: u64) -> (r: String)
    ensures
        r@ == decimal_digits(n as nat),
{
    let mut rest: u64 = n / 10;
    let mut out: String = digit_str((n % 10) as u8).to_owned();
    while rest > 0
        invariant
            decimal_digits(n as nat) == if rest == 0 {
                out@
            } else {
                decimal_digits(rest as nat) + out@
            },
            out@.len() > 0,
        decreases rest,
    {
        let head = digit_str((rest % 10) as u8).to_owned();
        proof {
            let d = seq![digit_char((rest % 10) as nat)];
            if rest >= 10 {
                assert(decimal_digits(rest as nat) + out@ =~= decimal_digits((rest / 10) as nat)
                    + (d + out@));
            } else {
                assert(decimal_digits(rest as nat) + out@ =~= d + out@);
            }
        }
        out = head.concat(out.as_str());
        rest = rest / 10;
    }
    out
}

/// Whether `s` ends with `suffix`.
pub open spec fn is_suffix(suffix: Seq<char>, s: Seq<char>) -> bool {
    suffix.len() <= s.len() && s.subrange(s.len() - suffix.len(), s.len() as int) == suffix
}

/// Whether `s` ends with `suffix`.
pub fn ends_with(s: &str, suffix: &str) -> (r: bool)
    ensures
        r == is_suffix(suffix@, s@),
{
    let n = s.unicode_len();
    let m = suffix.unicode_len();
    if m > n {
        return false;
    }
    let ghost tail = s@.subrange(n - m, n as int);
    let mut i: usize = 0;
    while i < m
        invariant
            n == s@.len(),
            m == suffix@.len(),
            m <= n,
            0 <= i <= m,
            tail == s@.subrange(n - m, n as int),
            forall|j: int| 0 <= j < i ==> tail[j] == suffix@[j],
        decreases m - i,
    {
        if s.get_char(n - m + i) != suffix.get_char(i) {
            assert(tail[i as int] != suffix@[i as int]);
            return false;
        }
        i = i + 1;
    }
    assert(tail =~= suffix@);
    true
}

/// Why a text is no unsigned decimal number within a bound.
#[derive(Debug, Clone, Copy, PartialEq, Eq, Structural)]
pub enum IntFault {
    /// The text is empty.
    Empty,
    /// The text holds a character that is no decimal digit, or is a sign
    /// alone.
    InvalidDigit,
    /// The number is above the bound.
    TooLarge,
    /// The number is below the bound.
    TooSmall,
}

/// The message that reports why a text is no number, in the words of the
/// standard library.
pub open spec fn int_fault_message(fault: IntFault) -> Seq<char> {
    match fault {
        IntFault::Empty => "cannot parse integer from empty string"@,
        IntFault::InvalidDigit => "invalid digit found in string"@,
        IntFault::TooLarge => "number too large to fit in target type"@,
        IntFault::TooSmall => "number too small to fit in target type"@,
    }
}

/// The message that reports why a text is no number.
pub fn fault_message(fault: IntFault) -> (r: &'static str)
    ensures
        r@ == int_fault_message(fault),
{
    match fault {
        IntFault::Empty => "cannot parse integer from empty string",
        IntFault::InvalidDigit => "invalid digit found in string",
        IntFault::TooLarge => "number too large to fit in target type",
        IntFault::TooSmall => "number too small to fit in target type",
    }
}

/// The number that `digits` denote if it stays within `max`, read digit by
/// digit from the left. The first character that is no digit, or that takes
/// the number above `max`, ends the reading with its fault.
pub open spec fn scan_digits(digits: Seq<char>, max: nat) -> Result<nat, IntFault>
    decreases digits.len(),
{
    if digits.len() == 0 {
        Ok(0)
    } else {
        match scan_digits(digits.drop_last(), max) {
            Err(fault) => Err(fault),
            Ok(value) => if !is_digit_char(digits.last()) {
                Err(IntFault::InvalidDigit)
            } else if value * 10 + digit_value(digits.last()) > max {
                Err(IntFault::TooLarge)
            } else {
                Ok(value * 10 + digit_value(digits.last()))
            },
        }
    }
}

/// The unsigned number within `max` that the text `s` denotes, as the
/// standard parsing of unsigned integers reads it: an optional `+`, then at
/// least one decimal digit and nothing else.
pub open spec fn parse_unsigned_spec(s: Seq<char>, max: nat) -> Result<nat, IntFault> {
    if s.len() == 0 {
        Err(IntFault::Empty)
    } else if s[0] == '+' {
        if s.len() == 1 {
            Err(IntFault::InvalidDigit)
        } else {
            scan_digits(s.drop_first(), max)
        }
    } else {
        scan_digits(s, max)
    }
}

/// Reading digits succeeds exactly on digits whose number stays within the
/// bound, and gives that number.
pub proof fn lemma_scan_digits(digits: Seq<char>, max: nat)
    ensures
        scan_digits(digits, max) is Ok <==> all_digits(digits) && decimal_value(digits) <= max,
        scan_digits(digits, max) matches Ok(value) ==> value == decimal_value(digits),
    decreases digits.len(),
{
    if digits.len() > 0 {
        let front = digits.drop_last();
        lemma_scan_digits(front, max);
        if all_digits(digits) {
            assert forall|i: int| 0 <= i < front.len() implies is_digit_char(
                #[trigger] front[i],
            ) by {
                assert(front[i] == digits[i]);
            }
        }
        if all_digits(front) && is_digit_char(digits.last()) {
            assert forall|i: int| 0 <= i < digits.len() implies is_digit_char(
                #[trigger] digits[i],
            ) by {
                if i < front.len() {
                    assert(front[i] == digits[i]);
                }
            }
        }
        if !is_digit_char(digits.last()) {
            assert(!is_digit_char(digits[digits.len() - 1]));
        }
    }
}

/// The decimal rendering of a number holds digits only, is not empty, does
/// not start with a sign, and denotes the number.
pub proof fn lemma_decimal_round_trip(n: nat)
    ensures
        decimal_digits(n).len() > 0,
        all_digits(decimal_digits(n)),
        decimal_value(decimal_digits(n)) == n,
        decimal_digits(n)[0] != '+',
    decreases n,
{
    if n >= 10 {
        lemma_decimal_round_trip(n / 10);
        let front = decimal_digits(n / 10);
        let all = decimal_digits(n);
        assert(all.drop_last() =~= front);
        assert(all.last() == digit_char(n % 10));
        assert forall|i: int| 0 <= i < all.len() implies is_digit_char(#[trigger] all[i]) by {
            if i < front.len() {
                assert(all[i] == front[i]);
            }
        }
        assert(all[0] == front[0]);
        assert(digit_value(digit_char(n % 10)) == n % 10);
        assert(decimal_value(all) == decimal_value(front) * 10 + n % 10);
    } else {
        let all = decimal_digits(n);
        assert(all.drop_last() =~= Seq::<char>::empty());
        assert(digit_value(digit_char(n)) == n);
        assert(decimal_value(all.drop_last()) == 0);
        assert(decimal_value(all) == n);
    }
}

/// A number within the bound is read back from its decimal rendering.
pub proof fn lemma_reads_its_decimal(n: nat, max: nat)
    requires
        n <= max,
    ensures
        parse_unsigned_spec(decimal_digits(n), max) == Ok::<nat, IntFault>(n),
{
    lemma_decimal_round_trip(n);
    lemma_scan_digits(decimal_digits(n), max);
}

/// Reads `digits` as decimal digits whose number is at most `max`, as
/// [`scan_digits`] says.
pub fn scan(digits: &str, max: u64) -> (r: Result<u64, IntFault>)
    ensures
        match r {
            Ok(value) => scan_digits(digits@, max as nat) == Ok::<nat, IntFault>(value as nat),
            Err(fault) => scan_digits(digits@, max as nat) == Err::<nat, IntFault>(fault),
        },
{
    let n = digits.unicode_len();
    let mut value: u64 = 0;
    let mut i: usize = 0;
    assert(digits@.subrange(0, 0) =~= Seq::<char>::empty());
    while i < n
        invariant
            n == digits@.len(),
            0 <= i <= n,
            value <= max,
            scan_digits(digits@.subrange(0, i as int), max as nat) == Ok::<nat, IntFault>(
                value as nat,
            ),
        decreases n - i,
    {
        let c = digits.get_char(i);
        proof {
            let next = digits@.subrange(0, i + 1);
            assert(next.drop_last() =~= digits@.subrange(0, i as int));
            assert(next.last() == c);
        }
        if c < '0' || c > '9' {
            proof {
                lemma_scan_fault_stays(digits@, i + 1, max as nat);
            }
            return Err(IntFault::InvalidDigit);
        }
        let d = (c as u32 - '0' as u32) as u64;
        if d > max || value > (max - d) / 10 {
            proof {
                lemma_scan_fault_stays(digits@, i + 1, max as nat);
            }
            return Err(IntFault::TooLarge);
        }
        value = value * 10 + d;
        i = i + 1;
    }
    assert(digits@.subrange(0, n as int) =~= digits@);
    Ok(value)
}

/// Reads `s` as an unsigned decimal number that is at most `max`, as
/// [`parse_unsigned_spec`] says.
pub fn parse_unsigned(s: &str, max: u64) -> (r: Result<u64, IntFault>)
    ensures
        match r {
            Ok(value) => parse_unsigned_spec(s@, max as nat) == Ok::<nat, IntFault>(value as nat),
            Err(fault) => parse_unsigned_spec(s@, max as nat) == Err::<nat, IntFault>(fault),
        },
{
    let n = s.unicode_len();
    if n == 0 {
        return Err(IntFault::Empty);
    }
    if s.get_char(0) == '+' {
        if n == 1 {
            return Err(IntFault::InvalidDigit);
        }
        let rest = s.substring_char(1, n);
        assert(rest@ =~= s@.drop_first());
        scan(rest, max)
    } else {
        scan(s, max)
    }
}

/// Once reading a prefix of the digits has failed, reading all of them
/// fails in the same way.
proof fn lemma_scan_fault_stays(digits: Seq<char>, upto: int, max: nat)
    requires
        0 <= upto <= digits.len(),
        scan_digits(digits.subrange(0, upto), max) is Err,
    ensures
        scan_digits(digits, max) == scan_digits(digits.subrange(0, upto), max),
    decreases digits.len() - upto,
{
    if upto < digits.len() {
        let next = digits.subrange(0, upto + 1);
        assert(next.drop_last() =~= digits.subrange(0, upto));
        lemma_scan_fault_stays(digits, upto + 1, max);
    } else {
        assert(digits.subrange(0, upto) =~= digits);
    }
}

/// The model of an optional string.
pub open spec fn optional_text(value: Option<String>) -> Option<Seq<char>> {
    match value {
        Some(text) => Some(text@),
        None => None,
    }
}

/// How the standard debug formatting shows an optional string: `None`, or
/// `Some(..)` around the quoted and escaped text.
pub uninterp spec fn debug_text(value: Option<Seq<char>>) -> Seq<char>;

/// Shows an optional string as the standard debug formatting does.
///
/// Wraps the standard `{:?}` formatting of `Option<String>`, whose output is
/// a function of the value, named [`debug_text`].
#[verifier::external_body]
pub(crate) fn debug_optional(value: &Option<String>) -> (r: String)
    ensures
        r@ == debug_text(optional_text(*value)),
{
    format!("{:?}", value)
}

/// The number within `min` and `max` that the text `s` denotes, as the
/// standard parsing of signed integers reads it: an optional `+` or `-`,
/// then at least one decimal digit and nothing else.
pub open spec fn parse_signed_spec(s: Seq<char>, min: int, max: int) -> Result<int, IntFault>
    recommends
        min <= 0 <= max,
{
    if s.len() > 0 && s[0] == '-' {
        if s.len() == 1 {
            Err(IntFault::InvalidDigit)
        } else {
            match scan_digits(s.drop_first(), (-min) as nat) {
                Ok(value) => Ok(-(value as int)),
                Err(IntFault::TooLarge) => Err(IntFault::TooSmall),
                Err(fault) => Err(fault),
            }
        }
    } else {
        match parse_unsigned_spec(s, max as nat) {
            Ok(value) => Ok(value as int),
            Err(fault) => Err(fault),
        }
    }
}

/// Reads `s` as a signed decimal number of 64 bits, as
/// [`parse_signed_spec`] says.
pub fn parse_i64(s: &str) -> (r: Result<i64, IntFault>)
    ensures
        match r {
            Ok(value) => parse_signed_spec(s@, i64::MIN as int, i64::MAX as int) == Ok::<
                int,
                IntFault,
            >(value as int),
            Err(fault) => parse_signed_spec(s@, i64::MIN as int, i64::MAX as int) == Err::<
                int,
                IntFault,
            >(fault),
        },
{
    let n = s.unicode_len();
    if n > 0 && s.get_char(0) == '-' {
        if n == 1 {
            return Err(IntFault::InvalidDigit);
        }
        let rest = s.substring_char(1, n);
        assert(rest@ =~= s@.drop_first());
        match scan(rest, 0x8000_0000_0000_0000) {
            Ok(value) => {
                if value == 0x8000_0000_0000_0000 {
                    Ok(i64::MIN)
                } else {
                    Ok(-(value as i64))
                }
            },
            Err(IntFault::TooLarge) => Err(IntFault::TooSmall),
            Err(fault) => Err(fault),
        }
    } else {
        match parse_unsigned(s, 0x7fff_ffff_ffff_ffff) {
            Ok(value) => Ok(value as i64),
            Err(fault) => Err(fault),
        }
    }
}

/// The decimal rendering of `n`: a `-` for a negative number, then the
/// shortest decimal rendering of its magnitude.
pub open spec fn signed_decimal(n: int) -> Seq<char> {
    if n < 0 {
        seq!['-'] + decimal_digits((-n) as nat)
    } else {
        decimal_digits(n as nat)
    }
}

/// Renders `n` in decimal, as the standard formatting of a signed integer
/// does.
pub fn i64_to_decimal(n: i64) -> (r: String)
    ensures
        r@ == signed_decimal(n as int),
{
    if n < 0 {
        let magnitude: u64 = if n == i64::MIN {
            0x8000_0000_0000_0000
        } else {
            (-n) as u64
        };
        proof {
            reveal_strlit("-");
        }
        let out = String::from_str("-").concat(to_decimal(magnitude).as_str());
        assert(out@ =~= signed_decimal(n as int));
        out
    } else {
        to_decimal(n as u64)
    }
}

} // verus!
