//! Decimal text for unsigned integers, the form in which the service writes
//! amounts, and the text of booleans and of joined lists.

use vstd::prelude::*;

verus! {

/// The character that stands for the decimal digit `d`.
pub open spec fn digit_char(d: nat) -> char {
    if d == 0 {
        '0'
    } else if d == 1 {
        '1'
    } else if d == 2 {
        '2'
    } else if d == 3 {
        '3'
    } else if d == 4 {
        '4'
    } else if d == 5 {
        '5'
    } else if d == 6 {
        '6'
    } else if d == 7 {
        '7'
    } else if d == 8 {
        '8'
    } else {
        '9'
    }
}

/// The decimal text of `n`: no sign, no leading zero, `"0"` for zero.
pub open spec fn decimal(n: nat) -> Seq<char>
    decreases n,
{
    if n < 10 {
        seq![digit_char(n)]
    } else {
        decimal(n / 10).push(digit_char(n % 10))
    }
}

/// The text of a boolean: `true` or `false`.
pub open spec fn bool_text(b: bool) -> Seq<char> {
    if b {
        "true"@
    } else {
        "false"@
    }
}

fn digit_str(d: u64) -> (s: &'static str)
    requires
        d < 10,
    ensures
        s@ == seq![digit_char(d as nat)],
{
    proof {
        reveal_strlit("0");
        reveal_strlit("1");
        reveal_strlit("2");
        reveal_strlit("3");
        reveal_strlit("4");
        reveal_strlit("5");
        reveal_strlit("6");
        reveal_strlit("7");
        reveal_strlit("8");
        reveal_strlit("9");
    }
    let s = if d == 0 {
        "0"
    } else if d == 1 {
        "1"
    } else if d == 2 {
        "2"
    } else if d == 3 {
        "3"
    } else if d == 4 {
        "4"
    } else if d == 5 {
        "5"
    } else if d == 6 {
        "6"
    } else if d == 7 {
        "7"
    } else if d == 8 {
        "8"
    } else {
        "9"
    };
    s
}

/// Appends the decimal text of `n` to `out`.
pub fn push_decimal(out: &mut String, n: u64)
    ensures
        final(out)@ == old(out)@ + decimal(n as nat),
    decreases n,
{
    if n >= 10 {
        push_decimal(out, n / 10);
    }
    out.append(digit_str(n % 10));
}

/// Appends `true` or `false` to `out`.
pub fn push_bool(out: &mut String, b: bool)
    ensures
        final(out)@ == old(out)@ + bool_text(b),
{
    if b {
        out.append("true");
    } else {
        out.append("false");
    }
}

/// The decimal text of `n`.
pub fn u64_to_string(n: u64) -> (s: String)
    ensures
        s@ == decimal(n as nat),
{
    let mut s = String::new();
    push_decimal(&mut s, n);
    s
}

/// The texts that a sequence of strings holds.
pub open spec fn texts(items: Seq<String>) -> Seq<Seq<char>> {
    items.map_values(|item: String| item@)
}

/// The items written one after the other, with `sep` between each two.
pub open spec fn joined(items: Seq<Seq<char>>, sep: Seq<char>) -> Seq<char>
    decreases items.len(),
{
    if items.len() == 0 {
        Seq::empty()
    } else if items.len() == 1 {
        items[0]
    } else {
        joined(items.drop_last(), sep) + sep + items.last()
    }
}

/// Calls `itertools::Itertools::join` on the strings of `items`. The
/// contract states what the method's documentation and source show: the
/// first item, then for each further item the separator and the item; the
/// empty string where there is no item.
#[verifier::external_body]
pub(crate) fn join(items: &Vec<String>, sep: &str) -> (s: String)
    ensures
        s@ == joined(texts(items@), sep@),
{
    itertools::Itertools::join(&mut items.iter(), sep)
}

/// Whether two texts are the same.
pub fn str_eq(a: &str, b: &str) -> (r: bool)
    ensures
        r == (a@ == b@),
{
    String::from_str(a) == String::from_str(b)
}

/// Whether `c` is one of the ten decimal digits.
pub open spec fn is_digit(c: char) -> bool {
    '0' <= c <= '9'
}

/// The number that the digit `c` stands for.
pub open spec fn digit_value(c: char) -> nat {
    (c as nat - '0' as nat) as nat
}

/// The number that a sequence of digits stands for, read as decimal.
pub open spec fn digits_value(s: Seq<char>) -> nat
    decreases s.len(),
{
    if s.len() == 0 {
        0
    } else {
        10 * digits_value(s.drop_last()) + digit_value(s.last())
    }
}

/// Whether `s` starts with exactly `k` digits: the first `k` characters are
/// digits, and the text ends there or goes on with something else.
pub open spec fn starts_with_digits(s: Seq<char>, k: int) -> bool {
    &&& 0 <= k <= s.len()
    &&& forall|j: int| 0 <= j < k ==> is_digit(#[trigger] s[j])
    &&& k < s.len() ==> !is_digit(s[k])
}

/// How many digits `s` starts with.
pub open spec fn digit_prefix_len(s: Seq<char>) -> int {
    choose|k: int| starts_with_digits(s, k)
}

/// Why a text is no `u64` in decimal.
#[derive(Clone, Copy, Debug, PartialEq, Eq, Structural)]
pub enum ParseU64Error {
    /// The text is empty.
    Empty,
    /// The text holds something else than digits after an optional `+`, or
    /// nothing after the `+`.
    InvalidDigit,
    /// The digits stand for a number above `u64::MAX`.
    PosOverflow,
}

/// What is left of `s` once an optional leading `+` is taken off.
pub open spec fn unsigned_part(s: Seq<char>) -> Seq<char> {
    if s.len() > 0 && s[0] == '+' {
        s.drop_first()
    } else {
        s
    }
}

/// The number that `s` stands for: an optional `+`, then one digit or more,
/// whose value fits in 64 bits. Digits are read from the left, so a value
/// that grows too large is reported before a later character that is no
/// digit.
pub open spec fn parsed_u64(s: Seq<char>) -> Result<u64, ParseU64Error> {
    let digits = unsigned_part(s);
    let m = digit_prefix_len(digits);
    if s.len() == 0 {
        Err(ParseU64Error::Empty)
    } else if digits.len() == 0 {
        Err(ParseU64Error::InvalidDigit)
    } else if digits_value(digits.take(m)) > u64::MAX {
        Err(ParseU64Error::PosOverflow)
    } else if m < digits.len() {
        Err(ParseU64Error::InvalidDigit)
    } else {
        Ok(digits_value(digits) as u64)
    }
}

/// A text starts with one number of digits only.
pub proof fn lemma_digit_prefix_unique(s: Seq<char>, k: int)
    requires
        starts_with_digits(s, k),
    ensures
        digit_prefix_len(s) == k,
{
    let m = digit_prefix_len(s);
    if m < k {
        assert(is_digit(s[m]));
    } else if k < m {
        assert(is_digit(s[k]));
    }
}

/// Every text starts with some number of digits: at least `i`, where its
/// first `i` characters are digits.
pub proof fn lemma_digit_prefix_from(s: Seq<char>, i: int)
    requires
        0 <= i <= s.len(),
        forall|j: int| 0 <= j < i ==> is_digit(#[trigger] s[j]),
    ensures
        starts_with_digits(s, digit_prefix_len(s)),
        i <= digit_prefix_len(s),
    decreases s.len() - i,
{
    if i < s.len() && is_digit(s[i]) {
        lemma_digit_prefix_from(s, i + 1);
    } else {
        lemma_digit_prefix_unique(s, i);
    }
}

/// A longer prefix of a text never stands for a smaller number.
pub proof fn lemma_digits_value_monotonic(s: Seq<char>, a: int, b: int)
    requires
        0 <= a <= b <= s.len(),
    ensures
        digits_value(s.take(a)) <= digits_value(s.take(b)),
    decreases b - a,
{
    if a < b {
        lemma_digits_value_monotonic(s, a, b - 1);
        assert(s.take(b).drop_last() =~= s.take(b - 1));
    }
}

/// Whether `s` holds digits only.
pub open spec fn all_digits(s: Seq<char>) -> bool {
    forall|j: int| 0 <= j < s.len() ==> is_digit(#[trigger] s[j])
}

/// A text stands for a number exactly where, after an optional `+`, it
/// holds one digit or more, digits only, and their value fits in 64 bits.
/// The number is then that value.
pub proof fn lemma_parsed_u64_ok(s: Seq<char>)
    ensures
        parsed_u64(s) is Ok <==> unsigned_part(s).len() > 0 && all_digits(unsigned_part(s))
            && digits_value(unsigned_part(s)) <= u64::MAX,
        parsed_u64(s) matches Ok(n) ==> n == digits_value(unsigned_part(s)),
{
    let digits = unsigned_part(s);
    lemma_digit_prefix_from(digits, 0);
    let m = digit_prefix_len(digits);
    if all_digits(digits) {
        lemma_digit_prefix_unique(digits, digits.len() as int);
    }
    if m == digits.len() {
        assert(digits.take(m) =~= digits);
    } else {
        assert(!is_digit(digits[m]));
    }
}

/// The decimal text of a number is made of digits, and stands for it.
pub proof fn lemma_decimal_digits(n: nat)
    ensures
        decimal(n).len() >= 1,
        forall|j: int| 0 <= j < decimal(n).len() ==> is_digit(#[trigger] decimal(n)[j]),
        digits_value(decimal(n)) == n,
    decreases n,
{
    if n < 10 {
        assert(digits_value(decimal(n).drop_last()) == 0);
    } else {
        lemma_decimal_digits(n / 10);
        assert(decimal(n).drop_last() =~= decimal(n / 10));
    }
}

/// The decimal text of a number other than zero does not start with `0`.
pub proof fn lemma_decimal_no_leading_zero(n: nat)
    requires
        n > 0,
    ensures
        decimal(n)[0] != '0',
    decreases n,
{
    if n >= 10 {
        lemma_decimal_no_leading_zero(n / 10);
        lemma_decimal_digits(n / 10);
    }
}

/// Writing a number and reading the text back gives the number.
pub proof fn lemma_decimal_round_trip(n: u64)
    ensures
        parsed_u64(decimal(n as nat)) == Ok::<u64, ParseU64Error>(n),
{
    let s = decimal(n as nat);
    lemma_decimal_digits(n as nat);
    lemma_digit_prefix_unique(s, s.len() as int);
    assert(s.take(s.len() as int) =~= s);
}

/// Two numbers with the same decimal text are the same number.
pub proof fn lemma_decimal_injective(a: u64, b: u64)
    requires
        decimal(a as nat) == decimal(b as nat),
    ensures
        a == b,
{
    lemma_decimal_round_trip(a);
    lemma_decimal_round_trip(b);
}

fn char_at(s: &str, ascii: bool, i: usize) -> (c: char)
    requires
        i < s@.len(),
        ascii == s.is_ascii(),
    ensures
        c == s@[i as int],
{
    if ascii {
        let b: u8 = s.get_ascii(i);
        b as char
    } else {
        s.get_char(i)
    }
}

/// Reads a `u64` written in decimal, as `parsed_u64` says.
pub fn parse_u64(s: &str) -> (r: Result<u64, ParseU64Error>)
    ensures
        r == parsed_u64(s@),
{
    let n: usize = s.unicode_len();
    if n == 0 {
        return Err(ParseU64Error::Empty);
    }
    let ascii = s.is_ascii();
    let start: usize = if char_at(s, ascii, 0) == '+' {
        1
    } else {
        0
    };
    let ghost digits = unsigned_part(s@);
    if start == n {
        return Err(ParseU64Error::InvalidDigit);
    }
    let mut i: usize = start;
    let mut acc: u64 = 0;
    while i < n
        invariant
            start <= i <= n,
            n == s@.len(),
            ascii == s.is_ascii(),
            digits == unsigned_part(s@),
            digits == s@.skip(start as int),
            digits.len() == n - start,
            forall|j: int| 0 <= j < i - start ==> is_digit(#[trigger] digits[j]),
            acc == digits_value(digits.take(i - start)),
        decreases n - i,
    {
        let c = char_at(s, ascii, i);
        let ghost k: int = i - start;
        if !(c >= '0' && c <= '9') {
            proof {
                lemma_digit_prefix_unique(digits, k);
            }
            return Err(ParseU64Error::InvalidDigit);
        }
        let d: u64 = (c as u32 - '0' as u32) as u64;
        assert(digits.take(k + 1).drop_last() =~= digits.take(k));
        if acc > (u64::MAX - d) / 10 {
            proof {
                lemma_digit_prefix_from(digits, k + 1);
                lemma_digits_value_monotonic(digits, k + 1, digit_prefix_len(digits));
            }
            return Err(ParseU64Error::PosOverflow);
        }
        acc = acc * 10 + d;
        i = i + 1;
    }
    proof {
        lemma_digit_prefix_unique(digits, digits.len() as int);
        assert(digits.take(digits.len() as int) =~= digits);
    }
    Ok(acc)
}

} // verus!
