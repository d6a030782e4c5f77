//! Decimal numerals: writing an integer as text and reading one back.
use crate::text::chars_of;
use crate::text::text_less;
use vstd::prelude::*;

verus! {

/// The numeral of one digit.
pub open spec fn digit(d: nat) -> char {
    (48 + d) as char
}

/// Whether a character is one of the ten numerals.
pub open spec fn is_digit(c: char) -> bool {
    '0' <= c <= '9'
}

/// The value of a numeral.
pub open spec fn digit_value(c: char) -> nat {
    (c as int - 48) as nat
}

/// A natural number in decimal, without leading zeros.
pub open spec fn decimal(n: nat) -> Seq<char>
    decreases n,
{
    if n < 10 {
        seq![digit(n)]
    } else {
        decimal(n / 10).push(digit(n % 10))
    }
}

/// An integer in decimal, with a leading `-` when it is negative.
pub open spec fn signed_decimal(n: int) -> Seq<char> {
    if n < 0 {
        seq!['-'] + decimal((-n) as nat)
    } else {
        decimal(n as nat)
    }
}

/// The last `width` decimal digits of a number, leading zeros included.
pub open spec fn fixed_decimal(n: nat, width: nat) -> Seq<char>
    decreases width,
{
    if width == 0 {
        Seq::empty()
    } else {
        fixed_decimal(n / 10, (width - 1) as nat).push(digit(n % 10))
    }
}

/// The number that a string of numerals writes.
pub open spec fn numeral_value(s: Seq<char>) -> nat
    decreases s.len(),
{
    if s.len() == 0 {
        0
    } else {
        numeral_value(s.drop_last()) * 10 + digit_value(s.last())
    }
}

/// Whether every character is a numeral.
pub open spec fn all_digits(s: Seq<char>) -> bool {
    forall|i: int| 0 <= i < s.len() ==> is_digit(#[trigger] s[i])
}

/// Reads an integer: an optional sign, then one or more numerals and nothing
/// else.
pub open spec fn read_integer(s: Seq<char>) -> Option<int> {
    let signed = s.len() > 0 && (s[0] == '-' || s[0] == '+');
    let body = if signed {
        s.skip(1)
    } else {
        s
    };
    if body.len() > 0 && all_digits(body) {
        if signed && s[0] == '-' {
            Some(-(numeral_value(body) as int))
        } else {
            Some(numeral_value(body) as int)
        }
    } else {
        None
    }
}

/// Reads an integer that fits in 64 bits, sign included.
pub open spec fn read_i64(s: Seq<char>) -> Option<i64> {
    match read_integer(s) {
        Some(v) => if i64::MIN <= v <= i64::MAX {
            Some(v as i64)
        } else {
            None
        },
        None => None,
    }
}

/// The numeral of a digit below ten.
fn digit_char(d: u64) -> (c: char)
    requires
        d < 10,
    ensures
        c == digit(d as nat),
{
    match d {
        0 => '0',
        1 => '1',
        2 => '2',
        3 => '3',
        4 => '4',
        5 => '5',
        6 => '6',
        7 => '7',
        8 => '8',
        _ => '9',
    }
}

/// Writes a natural number in decimal.
pub fn unsigned(n: u64) -> (s: String)
    ensures
        s@ == decimal(n as nat),
    decreases n,
{
    if n < 10 {
        let mut s = String::new();
        s.push(digit_char(n));
        proof {
            assert(s@ =~= seq![digit(n as nat)]);
        }
        s
    } else {
        let mut s = unsigned(n / 10);
        s.push(digit_char(n % 10));
        s
    }
}

/// Writes an integer in decimal.
pub fn signed(n: i64) -> (s: String)
    ensures
        s@ == signed_decimal(n as int),
{
    if n < 0 {
        let magnitude: u64 = (-(n as i128)) as u64;
        let digits = unsigned(magnitude);
        let mut s = String::new();
        s.push('-');
        s.append(digits.as_str());
        proof {
            assert(s@ =~= seq!['-'] + decimal((-(n as int)) as nat));
        }
        s
    } else {
        unsigned(n as u64)
    }
}

/// Writes the last `width` decimal digits of a number.
pub fn fixed(n: u64, width: usize) -> (s: String)
    ensures
        s@ == fixed_decimal(n as nat, width as nat),
    decreases width,
{
    if width == 0 {
        String::new()
    } else {
        let mut s = fixed(n / 10, width - 1);
        s.push(digit_char(n % 10));
        s
    }
}

/// Reads a 64-bit integer, or `None` where the text is not one.
pub fn parse_i64(text: &str) -> (r: Option<i64>)
    ensures
        r == read_i64(text@),
{
    let chars = chars_of(text);
    let has_sign: bool = chars.len() > 0 && (chars[0] == '-' || chars[0] == '+');
    let negative: bool = chars.len() > 0 && chars[0] == '-';
    let start: usize = if has_sign {
        1
    } else {
        0
    };
    let ghost body = chars@.skip(start as int);
    proof {
        assert(chars@.skip(0) =~= chars@);
    }
    if chars.len() == start {
        return None;
    }
    let limit: u64 = 9_223_372_036_854_775_808;
    let mut value: u64 = 0;
    let mut beyond: bool = false;
    let mut i: usize = start;
    proof {
        assert(body.take(0) =~= Seq::<char>::empty());
    }
    while i < chars.len()
        invariant
            start <= i <= chars@.len(),
            chars@ == text@,
            start == (if text@.len() > 0 && (text@[0] == '-' || text@[0] == '+') {
                1int
            } else {
                0
            }),
            body == chars@.skip(start as int),
            limit == 9_223_372_036_854_775_808,
            all_digits(body.take(i - start)),
            beyond ==> numeral_value(body.take(i - start)) > limit,
            !beyond ==> value == numeral_value(body.take(i - start)) && value <= limit,
        decreases chars@.len() - i,
    {
        let c = chars[i];
        proof {
            assert(body[i - start] == c);
            assert(body.take(i + 1 - start).drop_last() =~= body.take(i - start));
            assert(body.take(i + 1 - start).last() == c);
        }
        if !('0' <= c && c <= '9') {
            proof {
                assert(!is_digit(body[i - start]));
                assert(!all_digits(body));
                assert(text@.skip(0) =~= text@);
            }
            return None;
        }
        let d: u64 = (c as u32 - 48) as u64;
        if !beyond {
            let wide: u128 = value as u128 * 10 + d as u128;
            if wide > limit as u128 {
                beyond = true;
            } else {
                value = wide as u64;
            }
        }
        proof {
            assert(all_digits(body.take(i + 1 - start))) by {
                assert forall|j: int| 0 <= j < i + 1 - start implies is_digit(
                    #[trigger] body.take(i + 1 - start)[j],
                ) by {
                    if j < i - start {
                        assert(body.take(i - start)[j] == body[j]);
                    }
                }
            }
        }
        i = i + 1;
    }
    proof {
        assert(body.take(body.len() as int) =~= body);
    }
    if beyond {
        None
    } else if negative {
        Some((-(value as i128)) as i64)
    } else if value < limit {
        Some(value as i64)
    } else {
        None
    }
}

/// A decimal numeral reads back as the number that it was written for.
pub proof fn decimal_reads_back(n: nat)
    ensures
        decimal(n).len() > 0,
        all_digits(decimal(n)),
        numeral_value(decimal(n)) == n,
    decreases n,
{
    if n < 10 {
        let s = seq![digit(n)];
        assert(s.drop_last() =~= Seq::<char>::empty());
        assert(numeral_value(s.drop_last()) == 0);
        assert(digit_value(s.last()) == n);
    } else {
        decimal_reads_back(n / 10);
        let s = decimal(n);
        assert(s.drop_last() =~= decimal(n / 10));
        assert(digit_value(s.last()) == n % 10);
    }
}

/// A signed numeral reads back as the integer that it was written for.
pub proof fn signed_decimal_reads_back(n: int)
    ensures
        read_integer(signed_decimal(n)) == Some(n),
{
    if n < 0 {
        decimal_reads_back((-n) as nat);
        assert(signed_decimal(n).skip(1) =~= decimal((-n) as nat));
    } else {
        decimal_reads_back(n as nat);
        assert(is_digit(decimal(n as nat)[0]));
    }
}

/// A 64-bit integer written in decimal reads back.
pub proof fn i64_reads_back(n: i64)
    ensures
        read_i64(signed_decimal(n as int)) == Some(n),
{
    signed_decimal_reads_back(n as int);
}

/// Ten to the power of `width`.
pub open spec fn ten_to(width: nat) -> nat
    decreases width,
{
    if width == 0 {
        1
    } else {
        10 * ten_to((width - 1) as nat)
    }
}

/// A fixed-width numeral has exactly its width.
pub proof fn fixed_decimal_width(n: nat, width: nat)
    ensures
        fixed_decimal(n, width).len() == width,
    decreases width,
{
    if width > 0 {
        fixed_decimal_width(n / 10, (width - 1) as nat);
    }
}

proof fn text_less_extends(x: Seq<char>, y: Seq<char>, c: char, d: char)
    requires
        x.len() == y.len(),
        text_less(x, y) || (x == y && c < d),
    ensures
        text_less(x.push(c), y.push(d)),
    decreases x.len(),
{
    let a = x.push(c);
    let b = y.push(d);
    if x.len() == 0 {
        assert(a.skip(1) =~= Seq::<char>::empty());
    } else {
        assert(a[0] == x[0] && b[0] == y[0]);
        if x[0] == y[0] {
            assert(a.skip(1) =~= x.skip(1).push(c));
            assert(b.skip(1) =~= y.skip(1).push(d));
            text_less_extends(x.skip(1), y.skip(1), c, d);
        }
    }
}

/// Fixed-width numerals are ordered as text the way their numbers are.
pub proof fn fixed_decimal_keeps_order(a: nat, b: nat, width: nat)
    requires
        a < b < ten_to(width),
    ensures
        text_less(fixed_decimal(a, width), fixed_decimal(b, width)),
    decreases width,
{
    if width > 0 {
        let w = (width - 1) as nat;
        fixed_decimal_width(a / 10, w);
        fixed_decimal_width(b / 10, w);
        if a / 10 < b / 10 {
            fixed_decimal_keeps_order(a / 10, b / 10, w);
        }
        text_less_extends(
            fixed_decimal(a / 10, w),
            fixed_decimal(b / 10, w),
            digit(a % 10),
            digit(b % 10),
        );
    }
}

/// A signed numeral is made of numerals and at most a leading minus.
pub proof fn signed_decimal_characters(n: int, i: int)
    requires
        0 <= i < signed_decimal(n).len(),
    ensures
        is_digit(signed_decimal(n)[i]) || signed_decimal(n)[i] == '-',
{
    if n < 0 {
        decimal_reads_back((-n) as nat);
        if i > 0 {
            assert(signed_decimal(n)[i] == decimal((-n) as nat)[i - 1]);
        }
    } else {
        decimal_reads_back(n as nat);
    }
}

/// A number that is not zero is written without a leading zero.
pub proof fn no_leading_zero(n: nat)
    requires
        n > 0,
    ensures
        decimal(n).len() > 0,
        decimal(n)[0] != '0',
    decreases n,
{
    if n >= 10 {
        no_leading_zero(n / 10);
    }
}

/// What is written is read again, and different numbers are written differently.
pub proof fn what_is_written_is_read_again(
    n: i64,
    m: u64,
    k: u64,
    written: String,
    text: &str,
    read: Option<i64>,
    x: String,
    y: String,
)
    requires
        call_ensures(signed, (n,), written),
        text@ == written@,
        call_ensures(parse_i64, (text,), read),
        call_ensures(unsigned, (m,), x),
        call_ensures(unsigned, (k,), y),
    ensures
        read == Some(n),
        x@ == y@ <==> m == k,
{
    i64_reads_back(n);
    decimal_reads_back(m as nat);
    decimal_reads_back(k as nat);
}

/// A text with a character that is neither a numeral nor a sign in front is no number, nor
/// is an empty one or a sign alone; a sign of plus makes no difference.
pub proof fn what_is_not_a_numeral_is_not_read(text: Seq<char>, i: int, digits: Seq<char>)
    requires
        0 <= i < text.len(),
        !is_digit(text[i]),
        i > 0 || (text[i] != '-' && text[i] != '+'),
        digits.len() > 0,
        all_digits(digits),
    ensures
        read_i64(text) is None,
        read_i64(Seq::<char>::empty()) is None,
        read_i64(seq!['-']) is None,
        read_i64(seq!['+']) is None,
        read_i64(seq!['+'] + digits) == read_i64(digits),
{
    let signed = text[0] == '-' || text[0] == '+';
    if signed {
        assert(text.skip(1)[i - 1] == text[i]);
    }
    assert(seq!['-'].skip(1).len() == 0);
    assert(seq!['+'].skip(1).len() == 0);
    assert((seq!['+'] + digits).skip(1) =~= digits);
    assert(is_digit(digits[0]));
}

} // verus!
