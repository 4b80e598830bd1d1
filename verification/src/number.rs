//! Coordinates, kept as JSON number literals.
//!
//! The bounds and the center of a document are numbers with a fraction. The
//! library keeps each as the text that stands for it in JSON, always written
//! with a fraction or an exponent: a whole literal such as `-180` is read as
//! `-180.0`, so the two are the same value.

use vstd::prelude::*;
use crate::decimal::{
    chars_of, decimal, format_signed, is_digit, lemma_decimal_is_plain, signed_decimal,
};

verus! {

/// Whether `s` holds the character `c` at position `at`.
pub open spec fn has(s: Seq<char>, at: int, c: char) -> bool {
    0 <= at < s.len() && s[at] == c
}

/// How many digits `s` holds in a row from position `from` on.
pub open spec fn digit_run(s: Seq<char>, from: int) -> nat
    decreases s.len() - from,
{
    if 0 <= from < s.len() && is_digit(s[from]) {
        1 + digit_run(s, from + 1)
    } else {
        0
    }
}

/// Where the digits of the whole part begin: after the minus sign, if there is one.
pub open spec fn whole_start(s: Seq<char>) -> int {
    if has(s, 0, '-') {
        1
    } else {
        0
    }
}

/// Where the whole part ends.
pub open spec fn whole_end(s: Seq<char>) -> int {
    whole_start(s) + digit_run(s, whole_start(s))
}

/// Whether the whole part is sound: one digit or more, and no leading zero
/// before another digit.
pub open spec fn whole_is_sound(s: Seq<char>) -> bool {
    &&& whole_end(s) > whole_start(s)
    &&& has(s, whole_start(s), '0') ==> whole_end(s) == whole_start(s) + 1
}

/// Where the fraction ends: it is a point and the digits after it.
pub open spec fn fraction_end(s: Seq<char>) -> int {
    let from = whole_end(s);
    if has(s, from, '.') {
        from + 1 + digit_run(s, from + 1)
    } else {
        from
    }
}

/// Whether the fraction, if there is one, has a digit.
pub open spec fn fraction_is_sound(s: Seq<char>) -> bool {
    has(s, whole_end(s), '.') ==> digit_run(s, whole_end(s) + 1) > 0
}

/// Whether an exponent follows the fraction.
pub open spec fn has_exponent(s: Seq<char>) -> bool {
    has(s, fraction_end(s), 'e') || has(s, fraction_end(s), 'E')
}

/// Where the digits of the exponent begin: after the letter and its sign, if it has one.
pub open spec fn exponent_start(s: Seq<char>) -> int {
    let from = fraction_end(s) + 1;
    if has(s, from, '+') || has(s, from, '-') {
        from + 1
    } else {
        from
    }
}

/// Where the exponent ends.
pub open spec fn exponent_end(s: Seq<char>) -> int {
    if has_exponent(s) {
        exponent_start(s) + digit_run(s, exponent_start(s))
    } else {
        fraction_end(s)
    }
}

/// Whether the exponent, if there is one, has a digit.
pub open spec fn exponent_is_sound(s: Seq<char>) -> bool {
    has_exponent(s) ==> digit_run(s, exponent_start(s)) > 0
}

/// Whether `s` is a JSON number literal: an optional minus sign, a whole part,
/// an optional fraction and an optional exponent, and nothing after them.
pub open spec fn is_number_literal(s: Seq<char>) -> bool {
    &&& whole_is_sound(s)
    &&& fraction_is_sound(s)
    &&& exponent_is_sound(s)
    &&& exponent_end(s) == s.len()
}

/// Whether `s` is a number literal with neither fraction nor exponent.
pub open spec fn is_whole_literal(s: Seq<char>) -> bool {
    whole_is_sound(s) && whole_end(s) == s.len()
}

/// Whether `s` is a number literal with a fraction or an exponent.
pub open spec fn is_fractional_literal(s: Seq<char>) -> bool {
    is_number_literal(s) && !is_whole_literal(s)
}

/// The fractional spelling of a number literal: a whole literal gets `.0`,
/// any other literal stays as it is.
pub open spec fn fractional(s: Seq<char>) -> Seq<char> {
    if is_whole_literal(s) {
        s + seq!['.', '0']
    } else {
        s
    }
}

/// The coordinate that a text stands for: its fractional spelling, if the
/// text is a number literal.
pub open spec fn number_of(s: Seq<char>) -> Option<Seq<char>> {
    if is_number_literal(s) {
        Some(fractional(s))
    } else {
        None
    }
}

/// A run of digits is no longer than what is left of the text.
pub proof fn lemma_run_is_bounded(s: Seq<char>, from: int)
    requires
        0 <= from <= s.len(),
    ensures
        from + digit_run(s, from) <= s.len(),
    decreases s.len() - from,
{
    if from < s.len() && is_digit(s[from]) {
        lemma_run_is_bounded(s, from + 1);
    }
}

/// Where the rest of a text is digits only, the run goes to its end.
pub proof fn lemma_run_of_digits(s: Seq<char>, from: int)
    requires
        0 <= from <= s.len(),
        forall|i: int| from <= i < s.len() ==> is_digit(#[trigger] s[i]),
    ensures
        from + digit_run(s, from) == s.len(),
    decreases s.len() - from,
{
    if from < s.len() {
        lemma_run_of_digits(s, from + 1);
    }
}

/// A run that stops inside a text is the same run in any longer text; one that
/// reaches the end goes on into what follows.
pub proof fn lemma_run_in_longer_text(s: Seq<char>, t: Seq<char>, from: int)
    requires
        0 <= from <= s.len(),
    ensures
        digit_run(s + t, from) == if from + digit_run(s, from) == s.len() {
            digit_run(s, from) + digit_run(t, 0)
        } else {
            digit_run(s, from)
        },
    decreases s.len() - from,
{
    let longer = s + t;
    lemma_run_is_bounded(s, from);
    if from < s.len() {
        assert(longer[from] == s[from]);
        if is_digit(s[from]) {
            lemma_run_in_longer_text(s, t, from + 1);
        }
    } else {
        lemma_shifted_run(s, t, 0);
    }
}

/// A run in the second of two joined texts is the same run in the whole.
proof fn lemma_shifted_run(s: Seq<char>, t: Seq<char>, from: int)
    requires
        0 <= from <= t.len(),
    ensures
        digit_run(s + t, s.len() + from) == digit_run(t, from),
    decreases t.len() - from,
{
    if from < t.len() {
        assert((s + t)[s.len() + from] == t[from]);
        if is_digit(t[from]) {
            lemma_shifted_run(s, t, from + 1);
        }
    }
}

/// The fractional spelling of a number literal is a number literal with a
/// fraction or an exponent, and spelling it again changes nothing.
pub proof fn lemma_fractional_is_sound(s: Seq<char>)
    requires
        is_number_literal(s),
    ensures
        is_fractional_literal(fractional(s)),
        number_of(fractional(s)) == Some(fractional(s)),
{
    if is_whole_literal(s) {
        let tail = seq!['.', '0'];
        let longer = s + tail;
        let from = whole_start(s);
        assert(s.len() > 0);
        assert(longer[0] == s[0]);
        assert(whole_start(longer) == from);
        lemma_run_in_longer_text(s, tail, from);
        assert(digit_run(tail, 0) == 0);
        assert(whole_end(longer) == s.len());
        assert(longer[from] == s[from]);
        assert(longer[s.len() as int] == '.');
        assert(longer[s.len() as int + 1] == '0');
        lemma_shifted_run(s, tail, 1);
        assert(digit_run(tail, 1) == 1) by {
            assert(digit_run(tail, 2) == 0);
        }
        assert(fraction_end(longer) == longer.len());
        assert(!has_exponent(longer));
    }
}

/// A whole literal and its fractional spelling stand for the same coordinate.
pub proof fn lemma_whole_and_fractional_agree(s: Seq<char>)
    requires
        is_whole_literal(s),
    ensures
        number_of(s) == number_of(s + seq!['.', '0']),
{
    assert(is_number_literal(s));
    lemma_fractional_is_sound(s);
}

/// The decimal notation of an integer is a whole literal.
pub proof fn lemma_integer_is_whole(n: int)
    ensures
        is_whole_literal(signed_decimal(n)),
{
    let s = signed_decimal(n);
    if n < 0 {
        let digits = decimal((-n) as nat);
        lemma_decimal_is_plain((-n) as nat);
        assert(s[0] == '-');
        assert forall|i: int| 1 <= i < s.len() implies is_digit(#[trigger] s[i]) by {
            assert(s[i] == digits[i - 1]);
        }
        lemma_run_of_digits(s, 1);
        assert(s[1] == digits[0]);
    } else {
        lemma_decimal_is_plain(n as nat);
        assert(is_digit(s[0]));
        lemma_run_of_digits(s, 0);
        if s[0] == '0' && s.len() > 1 {
            assert(n > 0) by {
                if n == 0 {
                    assert(decimal(0).len() == 1);
                }
            }
        }
    }
}

/// A coordinate: a JSON number literal with a fraction or an exponent.
///
/// The literal is kept as it is and written as it is. Two coordinates are
/// equal where their literals are: `-180` and `-180.0` are the same
/// coordinate, `100.0` and `1e2` are two.
#[derive(Debug, Eq)]
pub struct Number {
    text: String,
}

impl PartialEq for Number {
    fn eq(&self, other: &Number) -> (same: bool) {
        self.text == other.text
    }
}

impl vstd::std_specs::cmp::PartialEqSpecImpl for Number {
    open spec fn obeys_eq_spec() -> bool {
        true
    }

    open spec fn eq_spec(&self, other: &Number) -> bool {
        self@ == other@
    }
}

impl View for Number {
    type V = Seq<char>;

    /// The literal, character by character.
    closed spec fn view(&self) -> Seq<char> {
        self.text@
    }
}

impl Number {
    #[verifier::type_invariant]
    spec fn is_sound(self) -> bool {
        is_fractional_literal(self.text@)
    }

    /// Reads a coordinate from a JSON number literal.
    ///
    /// A whole literal is kept with `.0` after it; a literal with a fraction
    /// or an exponent is kept as it is. A text that is no number literal gives
    /// `None`.
    pub fn parse(text: &str) -> (number: Option<Number>)
        ensures
            match number {
                Some(number) => number_of(text@) == Some(number@),
                None => number_of(text@) is None,
            },
    {
        let chars = chars_of(text);
        let n: usize = chars.len();
        let start: usize = if n > 0 && chars[0] == '-' {
            1
        } else {
            0
        };
        let whole: usize = skip_digits(&chars, start);
        if whole == start {
            return None;
        }
        if chars[start] == '0' && whole != start + 1 {
            return None;
        }
        if whole == n {
            let mut spelled = text.to_owned();
            spelled.append(".0");
            proof {
                reveal_strlit(".0");
                assert(".0"@ =~= seq!['.', '0']);
                lemma_fractional_is_sound(text@);
            }
            return Some(Number { text: spelled });
        }
        let mut at: usize = whole;
        if chars[at] == '.' {
            let fraction: usize = skip_digits(&chars, at + 1);
            if fraction == at + 1 {
                return None;
            }
            at = fraction;
        }
        if at < n && (chars[at] == 'e' || chars[at] == 'E') {
            let mut from: usize = at + 1;
            if from < n && (chars[from] == '+' || chars[from] == '-') {
                from = from + 1;
            }
            let exponent: usize = skip_digits(&chars, from);
            if exponent == from {
                return None;
            }
            at = exponent;
        }
        if at != n {
            return None;
        }
        proof {
            lemma_fractional_is_sound(text@);
        }
        Some(Number { text: text.to_owned() })
    }

    /// The coordinate that a whole number stands for: its decimal notation with `.0` after it.
    pub fn from_integer(n: i64) -> (number: Number)
        ensures
            number@ == signed_decimal(n as int) + seq!['.', '0'],
    {
        let mut text = format_signed(n);
        text.append(".0");
        proof {
            reveal_strlit(".0");
            assert(".0"@ =~= seq!['.', '0']);
            lemma_integer_is_whole(n as int);
            lemma_fractional_is_sound(signed_decimal(n as int));
        }
        Number { text }
    }

    /// The literal of this coordinate: a number literal with a fraction or an
    /// exponent, which reads back as this coordinate.
    pub fn as_str(&self) -> (text: &str)
        ensures
            text@ == self@,
            is_fractional_literal(self@),
            number_of(self@) == Some(self@),
    {
        proof {
            use_type_invariant(self);
        }
        self.text.as_str()
    }
}

impl Clone for Number {
    /// A copy holds the same literal.
    fn clone(&self) -> (copy: Number)
        ensures
            copy@ == self@,
    {
        proof {
            use_type_invariant(self);
        }
        Number { text: self.text.clone() }
    }
}

/// The position after the digits that `chars` holds in a row from `from` on.
fn skip_digits(chars: &Vec<char>, from: usize) -> (end: usize)
    requires
        from <= chars.len(),
    ensures
        end == from + digit_run(chars@, from as int),
        end <= chars.len(),
{
    let mut end: usize = from;
    while end < chars.len() && '0' <= chars[end] && chars[end] <= '9'
        invariant
            from <= end <= chars.len(),
            from + digit_run(chars@, from as int) == end + digit_run(chars@, end as int),
        decreases chars.len() - end,
    {
        end += 1;
    }
    end
}

} // verus!
