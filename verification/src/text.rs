//! Small text building blocks: appending a character to a `String`,
//! decimal rendering of integers, and a character-count prefix.

use vstd::prelude::*;

verus! {

/// Relies on String::push, which appends the one character at the end of
/// the string.
#[verifier::external_body]
pub fn push_char(s: &mut String, c: char)
    ensures
        final(s)@ == old(s)@.push(c),
{
    s.push(c);
}

/// The decimal digit character for a value from 0 through 9.
pub open spec fn spec_digit(d: int) -> char {
    if d == 0 {
        '0'
    } else if d == 1 {
        '1'
    } else if d == 2 {
        '2'
    } else if d == 3 {
        '3'
    } else if d == 4 {
        '4'
    } else if d == 5 {
        '5'
    } else if d == 6 {
        '6'
    } else if d == 7 {
        '7'
    } else if d == 8 {
        '8'
    } else {
        '9'
    }
}

/// Decimal digits of a positive value, most significant first; empty for
/// zero and below.
pub open spec fn spec_pos_dec(n: int) -> Seq<char>
    decreases n,
{
    if n <= 0 {
        Seq::empty()
    } else {
        spec_pos_dec(n / 10).push(spec_digit(n % 10))
    }
}

/// Decimal rendering of an integer: a plain digit run, `0` for zero, and a
/// leading minus sign for negative values.
pub open spec fn spec_i64_dec(n: int) -> Seq<char> {
    if n == 0 {
        seq!['0']
    } else if n < 0 {
        seq!['-'] + spec_pos_dec(-n)
    } else {
        spec_pos_dec(n)
    }
}

/// The digit character for an executable digit value.
fn digit_char(d: u64) -> (c: char)
    requires
        d < 10,
    ensures
        c == spec_digit(d as int),
{
    if d == 0 {
        '0'
    } else if d == 1 {
        '1'
    } else if d == 2 {
        '2'
    } else if d == 3 {
        '3'
    } else if d == 4 {
        '4'
    } else if d == 5 {
        '5'
    } else if d == 6 {
        '6'
    } else if d == 7 {
        '7'
    } else if d == 8 {
        '8'
    } else {
        '9'
    }
}

/// Append the decimal digits of a positive value.
fn push_pos_dec(out: &mut String, n: u64)
    ensures
        final(out)@ == old(out)@ + spec_pos_dec(n as int),
    decreases n,
{
    if n == 0 {
        proof {
            assert(old(out)@ + spec_pos_dec(0) =~= old(out)@);
        }
        return ;
    }
    push_pos_dec(out, n / 10);
    let c = digit_char(n % 10);
    push_char(out, c);
    proof {
        assert((old(out)@ + spec_pos_dec(n as int / 10)).push(spec_digit(n as int % 10)) =~= old(
            out,
        )@ + spec_pos_dec(n as int));
    }
}

/// Render an integer in decimal, exactly as `spec_i64_dec` states it.
pub fn fmt_i64(n: i64) -> (r: String)
    ensures
        r@ == spec_i64_dec(n as int),
{
    let mut out = String::new();
    if n == 0 {
        push_char(&mut out, '0');
        proof {
            assert(Seq::<char>::empty().push('0') =~= seq!['0']);
        }
        return out;
    }
    if n < 0 {
        push_char(&mut out, '-');
        let mag: u64 = if n == i64::MIN {
            9223372036854775808u64
        } else {
            (-n) as u64
        };
        push_pos_dec(&mut out, mag);
        proof {
            assert(Seq::<char>::empty().push('-') =~= seq!['-']);
        }
        return out;
    }
    push_pos_dec(&mut out, n as u64);
    proof {
        assert(Seq::<char>::empty() + spec_pos_dec(n as int) =~= spec_pos_dec(n as int));
    }
    out
}

/// The first `n` characters of a text, or all of it when it is shorter.
pub open spec fn spec_take_chars(s: Seq<char>, n: int) -> Seq<char> {
    if s.len() <= n {
        s
    } else {
        s.take(n)
    }
}

/// Copy out at most the first `n` characters.
pub fn take_chars(s: &str, n: usize) -> (r: String)
    ensures
        r@ == spec_take_chars(s@, n as int),
{
    let len = s.unicode_len();
    if len <= n {
        s.to_owned()
    } else {
        let cut = s.substring_char(0, n);
        proof {
            assert(s@.subrange(0, n as int) =~= s@.take(n as int));
        }
        cut.to_owned()
    }
}

} // verus!
