//! Quantities, carried as the JSON number literals that stand for them.

use vstd::prelude::*;

verus! {

pub open spec fn is_digit(c: char) -> bool {
    '0' <= c && c <= '9'
}

/// The index after the digits of `s` that start at `from`.
pub open spec fn digits_end(s: Seq<char>, from: int) -> int
    decreases s.len() - from,
{
    if 0 <= from < s.len() && is_digit(s[from]) {
        digits_end(s, from + 1)
    } else {
        from
    }
}

/// The index after the sign, if there is one.
pub open spec fn sign_end(s: Seq<char>) -> int {
    if s.len() > 0 && s[0] == '-' {
        1
    } else {
        0
    }
}

/// The index after the digits before the point.
pub open spec fn integer_end(s: Seq<char>) -> int {
    digits_end(s, sign_end(s))
}

/// Whether a point follows the digits before the point.
pub open spec fn has_fraction(s: Seq<char>) -> bool {
    integer_end(s) < s.len() && s[integer_end(s)] == '.'
}

/// The index after the fraction, if there is one.
pub open spec fn fraction_end(s: Seq<char>) -> int {
    if has_fraction(s) {
        digits_end(s, integer_end(s) + 1)
    } else {
        integer_end(s)
    }
}

/// Whether an exponent mark follows the fraction.
pub open spec fn has_exponent(s: Seq<char>) -> bool {
    fraction_end(s) < s.len() && (s[fraction_end(s)] == 'e' || s[fraction_end(s)] == 'E')
}

/// The index of the first digit of the exponent: after the mark and its sign.
pub open spec fn exponent_start(s: Seq<char>) -> int {
    let mark = fraction_end(s);
    if mark + 1 < s.len() && (s[mark + 1] == '+' || s[mark + 1] == '-') {
        mark + 2
    } else {
        mark + 1
    }
}

/// The index after the exponent, if there is one.
pub open spec fn exponent_end(s: Seq<char>) -> int {
    if has_exponent(s) {
        digits_end(s, exponent_start(s))
    } else {
        fraction_end(s)
    }
}

/// Whether `s` is a JSON number literal: an optional minus sign; digits
/// without a leading zero, or a single zero; optionally a point and digits;
/// optionally an exponent mark, a sign and digits; and nothing else.
pub open spec fn is_number(s: Seq<char>) -> bool {
    &&& integer_end(s) > sign_end(s)
    &&& (s[sign_end(s)] == '0' ==> integer_end(s) == sign_end(s) + 1)
    &&& (has_fraction(s) ==> fraction_end(s) > integer_end(s) + 1)
    &&& (has_exponent(s) ==> exponent_end(s) > exponent_start(s))
    &&& exponent_end(s) == s.len()
}

/// The index after the digits of `text` that start at `from`.
fn skip_digits(text: &str, len: usize, from: usize) -> (end: usize)
    requires
        len == text@.len(),
        from <= len,
    ensures
        end == digits_end(text@, from as int),
        from <= end <= len,
{
    let mut index = from;
    while index < len && is_digit_char(text.get_char(index))
        invariant
            len == text@.len(),
            from <= index <= len,
            digits_end(text@, from as int) == digits_end(text@, index as int),
        decreases len - index,
    {
        index = index + 1;
    }
    index
}

fn is_digit_char(c: char) -> (digit: bool)
    ensures
        digit == is_digit(c),
{
    '0' <= c && c <= '9'
}

/// Whether `text` is a JSON number literal.
pub fn is_number_literal(text: &str) -> (number: bool)
    ensures
        number == is_number(text@),
{
    let len = text.unicode_len();
    let after_sign: usize = if len > 0 && text.get_char(0) == '-' {
        1
    } else {
        0
    };
    let after_integer = skip_digits(text, len, after_sign);
    if after_integer == after_sign {
        return false;
    }
    if text.get_char(after_sign) == '0' && after_integer != after_sign + 1 {
        return false;
    }
    let mut after_fraction = after_integer;
    if after_integer < len && text.get_char(after_integer) == '.' {
        after_fraction = skip_digits(text, len, after_integer + 1);
        if after_fraction == after_integer + 1 {
            return false;
        }
    }
    let mut after_exponent = after_fraction;
    if after_fraction < len && (text.get_char(after_fraction) == 'e' || text.get_char(
        after_fraction,
    ) == 'E') {
        let mut start = after_fraction + 1;
        if start < len && (text.get_char(start) == '+' || text.get_char(start) == '-') {
            start = start + 1;
        }
        after_exponent = skip_digits(text, len, start);
        if after_exponent == start {
            return false;
        }
    }
    after_exponent == len
}

/// A measured quantity, carried as the JSON number literal that stands for it.
#[derive(Debug, PartialEq, Eq)]
pub struct Decimal {
    literal: String,
}

impl View for Decimal {
    type V = Seq<char>;

    closed spec fn view(&self) -> Seq<char> {
        self.literal@
    }
}

impl Decimal {
    /// Every quantity holds a JSON number literal.
    #[verifier::type_invariant]
    pub open spec fn holds_number(self) -> bool {
        is_number(self@)
    }

    /// The quantity that the literal stands for; `None` where the text is no
    /// JSON number literal.
    pub fn new(literal: &str) -> (decimal: Option<Decimal>)
        ensures
            decimal is Some <==> is_number(literal@),
            decimal matches Some(d) ==> d@ == literal@,
    {
        if is_number_literal(literal) {
            Some(Decimal { literal: String::from_str(literal) })
        } else {
            None
        }
    }

    /// The literal.
    pub fn as_str(&self) -> (literal: &str)
        ensures
            literal@ == self@,
            is_number(literal@),
    {
        proof {
            use_type_invariant(self);
        }
        self.literal.as_str()
    }
}

impl Clone for Decimal {
    fn clone(&self) -> (copy: Decimal)
        ensures
            copy@ == self@,
    {
        proof {
            use_type_invariant(self);
        }
        Decimal { literal: self.literal.clone() }
    }
}

} // verus!
