//! Whole numbers written in decimal notation.
//!
//! The zoom levels of a document are small whole numbers. In JSON they are
//! written in plain decimal notation: digits only, with no sign, no fraction,
//! no exponent and no leading zero.

use vstd::prelude::*;

verus! {

/// The character that stands for the digit `d`, for `0 <= d <= 9`.
pub open spec fn digit(d: int) -> char {
    ((d + 48) as u8) as char
}

/// Whether `c` is one of the ten decimal digits.
pub open spec fn is_digit(c: char) -> bool {
    '0' <= c <= '9'
}

/// The number that the digit `c` stands for.
pub open spec fn digit_value(c: char) -> int {
    c as int - 48
}

/// The decimal notation of a natural number.
pub open spec fn decimal(n: nat) -> Seq<char>
    decreases n,
{
    if n < 10 {
        seq![digit(n as int)]
    } else {
        decimal(n / 10).push(digit((n % 10) as int))
    }
}

/// The decimal notation of an integer: a minus sign goes before a negative one.
pub open spec fn signed_decimal(n: int) -> Seq<char> {
    if n < 0 {
        seq!['-'] + decimal((-n) as nat)
    } else {
        decimal(n as nat)
    }
}

/// Whether every character of `s` is a digit.
pub open spec fn all_digits(s: Seq<char>) -> bool {
    forall|i: int| 0 <= i < s.len() ==> is_digit(#[trigger] s[i])
}

/// Whether `s` is a whole number in plain notation: one digit or more, and no
/// leading zero before another digit.
pub open spec fn is_plain(s: Seq<char>) -> bool {
    &&& s.len() > 0
    &&& all_digits(s)
    &&& s.len() > 1 ==> s[0] != '0'
}

/// The number that a run of digits stands for.
pub open spec fn digits_value(s: Seq<char>) -> nat
    decreases s.len(),
{
    if s.len() == 0 {
        0
    } else {
        (digits_value(s.drop_last()) * 10 + digit_value(s.last())) as nat
    }
}

/// The number from 0 to 255 that `s` is the plain notation of, if it is one.
pub open spec fn small_decimal(s: Seq<char>) -> Option<u8> {
    if is_plain(s) && digits_value(s) <= 255 {
        Some(digits_value(s) as u8)
    } else {
        None
    }
}

/// The decimal notation of a number is plain, and stands for that number.
pub proof fn lemma_decimal_is_plain(n: nat)
    ensures
        is_plain(decimal(n)),
        digits_value(decimal(n)) == n,
        n > 0 ==> decimal(n)[0] != '0',
    decreases n,
{
    if n < 10 {
        let s = decimal(n);
        assert(s.drop_last() =~= Seq::<char>::empty());
        assert(digits_value(s.drop_last()) == 0);
    } else {
        lemma_decimal_is_plain(n / 10);
        let shorter = decimal(n / 10);
        let s = decimal(n);
        assert(s.drop_last() =~= shorter);
        assert(s[0] == shorter[0]);
        assert forall|i: int| 0 <= i < s.len() implies is_digit(#[trigger] s[i]) by {
            if i < shorter.len() {
                assert(s[i] == shorter[i]);
            }
        }
    }
}

/// A whole number in plain notation is the decimal notation of its value.
pub proof fn lemma_plain_is_decimal(s: Seq<char>)
    requires
        is_plain(s),
    ensures
        decimal(digits_value(s)) == s,
        s.len() > 1 ==> digits_value(s) >= 10,
    decreases s.len(),
{
    let last = s.last();
    let shorter = s.drop_last();
    assert(is_digit(last));
    if s.len() == 1 {
        assert(shorter =~= Seq::<char>::empty());
        assert(digits_value(shorter) == 0);
        assert(decimal(digits_value(s)) =~= s);
    } else {
        assert forall|i: int| 0 <= i < shorter.len() implies is_digit(#[trigger] shorter[i]) by {
            assert(shorter[i] == s[i]);
        }
        assert(shorter[0] == s[0]);
        lemma_plain_is_decimal(shorter);
        let v = digits_value(shorter);
        assert(v >= 1) by {
            if shorter.len() == 1 {
                assert(shorter.drop_last() =~= Seq::<char>::empty());
                assert(digits_value(shorter.drop_last()) == 0);
                assert(is_digit(shorter[0]));
            }
        }
        let n = digits_value(s);
        assert(n == v * 10 + digit_value(last));
        assert(n / 10 == v && n % 10 == digit_value(last));
        assert(decimal(n) =~= s);
    }
}

/// A text reads as a number from 0 to 255 exactly where it is the decimal
/// notation of that number.
pub proof fn lemma_small_decimal_is_exact(s: Seq<char>, n: u8)
    ensures
        small_decimal(s) == Some(n) <==> s == decimal(n as nat),
{
    lemma_decimal_is_plain(n as nat);
    if is_plain(s) {
        lemma_plain_is_decimal(s);
    }
}

/// A number stands for at least as much as any of its leading digits do.
proof fn lemma_prefix_value(s: Seq<char>, k: int)
    requires
        all_digits(s),
        0 <= k <= s.len(),
    ensures
        digits_value(s.take(k)) <= digits_value(s),
    decreases s.len() - k,
{
    if k == s.len() {
        assert(s.take(k) =~= s);
    } else {
        lemma_prefix_value(s, k + 1);
        let longer = s.take(k + 1);
        assert(longer.drop_last() =~= s.take(k));
        assert(is_digit(s[k]));
        assert(longer.last() == s[k]);
    }
}

/// The text of one decimal digit.
fn digit_text(d: u8) -> (text: &'static str)
    requires
        d <= 9,
    ensures
        text@ == seq![digit(d as int)],
{
    proof {
        reveal_strlit("0");
        reveal_strlit("1");
        reveal_strlit("2");
        reveal_strlit("3");
        reveal_strlit("4");
        reveal_strlit("5");
        reveal_strlit("6");
        reveal_strlit("7");
        reveal_strlit("8");
        reveal_strlit("9");
    }
    let text = match d {
        0 => "0",
        1 => "1",
        2 => "2",
        3 => "3",
        4 => "4",
        5 => "5",
        6 => "6",
        7 => "7",
        8 => "8",
        _ => "9",
    };
    assert(text@ =~= seq![digit(d as int)]);
    text
}

/// Writes a natural number in decimal notation.
pub fn format_unsigned(n: u64) -> (text: String)
    ensures
        text@ == decimal(n as nat),
    decreases n,
{
    if n < 10 {
        digit_text(n as u8).to_owned()
    } else {
        let mut text = format_unsigned(n / 10);
        text.append(digit_text((n % 10) as u8));
        assert(text@ =~= decimal(n as nat));
        text
    }
}

/// Writes an integer in decimal notation, with a minus sign if it is negative.
pub fn format_signed(n: i64) -> (text: String)
    ensures
        text@ == signed_decimal(n as int),
{
    if n < 0 {
        let magnitude: u64 = ((-(n + 1)) as u64) + 1;
        let mut text = "-".to_owned();
        let digits = format_unsigned(magnitude);
        text.append(digits.as_str());
        proof {
            reveal_strlit("-");
            assert(text@ =~= signed_decimal(n as int));
        }
        text
    } else {
        format_unsigned(n as u64)
    }
}

/// The characters of a text, one by one.
pub fn chars_of(text: &str) -> (chars: Vec<char>)
    ensures
        chars@ == text@,
{
    let mut chars: Vec<char> = Vec::new();
    for c in it: text.chars()
        invariant
            it.seq() == text@,
            chars@ == text@.take(it.index() as int),
    {
        chars.push(c);
        assert(text@.take(it.index() + 1) =~= text@.take(it.index() as int).push(c));
    }
    assert(text@.take(text@.len() as int) =~= text@);
    chars
}

/// Reads a number from 0 to 255 written in plain decimal notation.
///
/// Anything else gives `None`: an empty text, a sign, a fraction, an exponent,
/// a leading zero before another digit, or a number above 255.
pub fn parse_u8(text: &str) -> (number: Option<u8>)
    ensures
        number == small_decimal(text@),
{
    let chars = chars_of(text);
    let n: usize = chars.len();
    if n == 0 {
        return None;
    }
    if n > 1 && chars[0] == '0' {
        return None;
    }
    let mut value: u16 = 0;
    let mut i: usize = 0;
    while i < n
        invariant
            n == chars.len(),
            chars@ == text@,
            i <= n,
            value <= 255,
            value == digits_value(chars@.take(i as int)),
            all_digits(chars@.take(i as int)),
        decreases n - i,
    {
        let c = chars[i];
        if !('0' <= c && c <= '9') {
            return None;
        }
        let d: u16 = (c as u32 - '0' as u32) as u16;
        let next: u16 = value * 10 + d;
        proof {
            let longer = chars@.take(i + 1);
            assert(longer.drop_last() =~= chars@.take(i as int));
            assert(longer.last() == c);
            assert(digits_value(longer) == next);
            assert forall|j: int| 0 <= j < longer.len() implies is_digit(#[trigger] longer[j]) by {
                if j < i {
                    assert(longer[j] == chars@.take(i as int)[j]);
                }
            }
        }
        if next > 255 {
            proof {
                if all_digits(chars@) {
                    lemma_prefix_value(chars@, i + 1);
                }
            }
            return None;
        }
        value = next;
        i += 1;
    }
    assert(chars@.take(n as int) =~= chars@);
    Some(value as u8)
}

} // verus!
