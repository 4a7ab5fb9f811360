//! Numeric text coercion: the upstream service quotes many numeric fields as
//! JSON strings, so the decoder validates and converts such texts itself.
//!
//! Integer texts follow the grammar `'-'? digit+` and must fit the target
//! width.  Floating-point texts follow the grammar
//! `sign? digit+ ('.' digit+)? (('e'|'E') sign? digit+)?`; textual special
//! values such as `NaN` or `inf` are rejected.

use vstd::prelude::*;

verus! {

pub open spec fn is_dec_digit(c: char) -> bool {
    '0' as u32 <= c as u32 && c as u32 <= '9' as u32
}

pub open spec fn digit_val(c: char) -> int {
    c as u32 - '0' as u32
}

pub open spec fn all_digits(s: Seq<char>) -> bool {
    forall|i: int| 0 <= i < s.len() ==> is_dec_digit(#[trigger] s[i])
}

/// Value of a sequence of decimal digits, most significant first.
pub open spec fn dec_val(s: Seq<char>) -> int
    decreases s.len(),
{
    if s.len() == 0 {
        0
    } else {
        dec_val(s.drop_last()) * 10 + digit_val(s.last())
    }
}

/// The mathematical integer an integer text denotes, if it is one.
pub open spec fn int_text_val(s: Seq<char>) -> Option<int> {
    if s.len() > 0 && s[0] == '-' {
        if s.len() > 1 && all_digits(s.skip(1)) {
            Some(-dec_val(s.skip(1)))
        } else {
            None
        }
    } else {
        if s.len() > 0 && all_digits(s) {
            Some(dec_val(s))
        } else {
            None
        }
    }
}

/// The `u32` an integer text denotes: `None` if the text is not an integer
/// text or its value does not fit.
pub open spec fn u32_text_val(s: Seq<char>) -> Option<u32> {
    match int_text_val(s) {
        Some(v) => if 0 <= v && v <= u32::MAX { Some(v as u32) } else { None },
        None => None,
    }
}

pub proof fn lemma_dec_val_nonneg(s: Seq<char>)
    requires
        all_digits(s),
    ensures
        dec_val(s) >= 0,
    decreases s.len(),
{
    if s.len() > 0 {
        assert(all_digits(s.drop_last()));
        lemma_dec_val_nonneg(s.drop_last());
    }
}

/// A digit text's value only grows as more digits are read.
pub proof fn lemma_dec_val_prefix_le(s: Seq<char>, j: int)
    requires
        all_digits(s),
        0 <= j <= s.len(),
    ensures
        dec_val(s.take(j)) <= dec_val(s),
    decreases s.len() - j,
{
    if j == s.len() {
        assert(s.take(j) =~= s);
    } else {
        let t = s.take(j + 1);
        assert(t.drop_last() =~= s.take(j));
        assert(all_digits(s.take(j)));
        lemma_dec_val_nonneg(s.take(j));
        assert(dec_val(t) == dec_val(s.take(j)) * 10 + digit_val(s[j]));
        lemma_dec_val_prefix_le(s, j + 1);
    }
}

/// Parses an integer text as a `u32`, exactly as `u32_text_val` describes.
pub fn parse_u32_text(s: &str) -> (r: Option<u32>)
    ensures
        r == u32_text_val(s@),
{
    let n: usize = s.unicode_len();
    if n == 0 {
        return None;
    }
    let neg = s.get_char(0) == '-';
    let start: usize = if neg { 1 } else { 0 };
    if neg && n == 1 {
        return None;
    }
    let ghost body = if neg { s@.skip(1) } else { s@ };
    assert(body.len() == n - start);
    let mut acc: u64 = 0;
    let mut i: usize = start;
    while i < n
        invariant
            start <= i <= n,
            n == s@.len(),
            n >= 1,
            neg == (s@[0] == '-'),
            neg ==> n >= 2,
            start == if neg { 1int } else { 0int },
            body == (if neg { s@.skip(1) } else { s@ }),
            body.len() == n - start,
            forall|k: int| 0 <= k < i - start ==> is_dec_digit(#[trigger] body[k]),
            acc == dec_val(body.take(i - start)),
            acc <= u32::MAX,
        decreases n - i,
    {
        let c = s.get_char(i);
        let cu: u32 = c as u32;
        assert(body[i - start] == s@[i as int]);
        if cu < '0' as u32 || cu > '9' as u32 {
            assert(!all_digits(body));
            return None;
        }
        let d: u32 = cu - '0' as u32;
        proof {
            let t = body.take(i - start + 1);
            assert(t.drop_last() =~= body.take(i - start));
            assert(t.last() == body[i - start]);
        }
        acc = acc * 10 + d as u64;
        i = i + 1;
        if acc > u32::MAX as u64 {
            proof {
                if all_digits(body) {
                    lemma_dec_val_prefix_le(body, i - start);
                }
            }
            return None;
        }
    }
    assert(body.take(n - start) =~= body);
    if neg {
        if acc == 0 {
            Some(0)
        } else {
            None
        }
    } else {
        proof {
            assert(int_text_val(s@) == Some(dec_val(body)));
        }
        Some(acc as u32)
    }
}

/// States of the floating-point text recogniser, read left to right.
#[derive(PartialEq, Eq, Structural, Clone, Copy)]
pub enum FloatState {
    /// Nothing read yet: a sign or a first digit may come.
    Start,
    /// A leading sign was read: a first digit must come.
    Sign,
    /// Inside the integer part.
    IntPart,
    /// A decimal point was read: a fraction digit must come.
    Dot,
    /// Inside the fractional part.
    Frac,
    /// An exponent marker was read: a sign or an exponent digit may come.
    ExpStart,
    /// An exponent sign was read: an exponent digit must come.
    ExpSign,
    /// Inside the exponent's digits.
    ExpDigits,
    /// The text can no longer be a floating-point text.
    Reject,
}

pub open spec fn float_step(st: FloatState, c: char) -> FloatState {
    match st {
        FloatState::Start => if c == '-' || c == '+' {
            FloatState::Sign
        } else if is_dec_digit(c) {
            FloatState::IntPart
        } else {
            FloatState::Reject
        },
        FloatState::Sign => if is_dec_digit(c) {
            FloatState::IntPart
        } else {
            FloatState::Reject
        },
        FloatState::IntPart => if is_dec_digit(c) {
            FloatState::IntPart
        } else if c == '.' {
            FloatState::Dot
        } else if c == 'e' || c == 'E' {
            FloatState::ExpStart
        } else {
            FloatState::Reject
        },
        FloatState::Dot => if is_dec_digit(c) {
            FloatState::Frac
        } else {
            FloatState::Reject
        },
        FloatState::Frac => if is_dec_digit(c) {
            FloatState::Frac
        } else if c == 'e' || c == 'E' {
            FloatState::ExpStart
        } else {
            FloatState::Reject
        },
        FloatState::ExpStart => if c == '-' || c == '+' {
            FloatState::ExpSign
        } else if is_dec_digit(c) {
            FloatState::ExpDigits
        } else {
            FloatState::Reject
        },
        FloatState::ExpSign => if is_dec_digit(c) {
            FloatState::ExpDigits
        } else {
            FloatState::Reject
        },
        FloatState::ExpDigits => if is_dec_digit(c) {
            FloatState::ExpDigits
        } else {
            FloatState::Reject
        },
        FloatState::Reject => FloatState::Reject,
    }
}

pub open spec fn float_accepting(st: FloatState) -> bool {
    st == FloatState::IntPart || st == FloatState::Frac || st == FloatState::ExpDigits
}

pub open spec fn float_run(st: FloatState, s: Seq<char>) -> FloatState
    decreases s.len(),
{
    if s.len() == 0 {
        st
    } else {
        float_run(float_step(st, s[0]), s.skip(1))
    }
}

/// Whether a text is a floating-point text of this crate's grammar.
pub open spec fn is_float_text(s: Seq<char>) -> bool {
    float_accepting(float_run(FloatState::Start, s))
}

fn float_step_exec(st: FloatState, c: char) -> (r: FloatState)
    ensures
        r == float_step(st, c),
{
    let cu: u32 = c as u32;
    let digit = '0' as u32 <= cu && cu <= '9' as u32;
    match st {
        FloatState::Start => if c == '-' || c == '+' {
            FloatState::Sign
        } else if digit {
            FloatState::IntPart
        } else {
            FloatState::Reject
        },
        FloatState::Sign => if digit {
            FloatState::IntPart
        } else {
            FloatState::Reject
        },
        FloatState::IntPart => if digit {
            FloatState::IntPart
        } else if c == '.' {
            FloatState::Dot
        } else if c == 'e' || c == 'E' {
            FloatState::ExpStart
        } else {
            FloatState::Reject
        },
        FloatState::Dot => if digit {
            FloatState::Frac
        } else {
            FloatState::Reject
        },
        FloatState::Frac => if digit {
            FloatState::Frac
        } else if c == 'e' || c == 'E' {
            FloatState::ExpStart
        } else {
            FloatState::Reject
        },
        FloatState::ExpStart => if c == '-' || c == '+' {
            FloatState::ExpSign
        } else if digit {
            FloatState::ExpDigits
        } else {
            FloatState::Reject
        },
        FloatState::ExpSign => if digit {
            FloatState::ExpDigits
        } else {
            FloatState::Reject
        },
        FloatState::ExpDigits => if digit {
            FloatState::ExpDigits
        } else {
            FloatState::Reject
        },
        FloatState::Reject => FloatState::Reject,
    }
}

/// Checks a text against the floating-point grammar, exactly as
/// `is_float_text` describes.
pub fn check_float_text(s: &str) -> (r: bool)
    ensures
        r == is_float_text(s@),
{
    let n: usize = s.unicode_len();
    let mut st = FloatState::Start;
    let mut i: usize = 0;
    proof {
        assert(s@.skip(0) =~= s@);
    }
    while i < n
        invariant
            0 <= i <= n,
            n == s@.len(),
            float_run(FloatState::Start, s@) == float_run(st, s@.skip(i as int)),
        decreases n - i,
    {
        let c = s.get_char(i);
        proof {
            let rest = s@.skip(i as int);
            assert(rest[0] == s@[i as int]);
            assert(rest.skip(1) =~= s@.skip(i as int + 1));
        }
        st = float_step_exec(st, c);
        i = i + 1;
    }
    proof {
        assert(s@.skip(n as int) =~= Seq::<char>::empty());
    }
    match st {
        FloatState::IntPart => true,
        FloatState::Frac => true,
        FloatState::ExpDigits => true,
        _ => false,
    }
}

} // verus!
