//! Numeric literals: what the text of an integer or floating-point literal
//! stands for once its width or type suffix is set aside.
//!
//! A literal is read as far as its numeral goes. Whatever follows the numeral,
//! such as `u8` or `f64`, is ignored. An integer that does not fit in 64 bits
//! wraps around: of its value only the low 64 bits are kept, read as a signed
//! number in two's complement.

use vstd::arithmetic::div_mod::{
    lemma_add_mod_noop, lemma_mod_sub_multiples_vanish, lemma_mul_mod_noop_left, lemma_small_mod,
};
use vstd::prelude::*;

verus! {

/// The value of `c` as a digit in `radix`, if it is one.
pub open spec fn digit_of(c: char, radix: int) -> Option<int> {
    let v = if '0' <= c <= '9' {
        c as int - '0' as int
    } else if 'a' <= c <= 'f' {
        c as int - 'a' as int + 10
    } else if 'A' <= c <= 'F' {
        c as int - 'A' as int + 10
    } else {
        -1
    };
    if 0 <= v < radix {
        Some(v)
    } else {
        None
    }
}

/// The radix that the prefix of an integer literal announces: `0x`, `0o` and
/// `0b` stand for 16, 8 and 2; without a prefix the radix is 10.
pub open spec fn radix_of(text: Seq<char>) -> int {
    if text.len() >= 2 && text[0] == '0' && text[1] == 'x' {
        16
    } else if text.len() >= 2 && text[0] == '0' && text[1] == 'o' {
        8
    } else if text.len() >= 2 && text[0] == '0' && text[1] == 'b' {
        2
    } else {
        10
    }
}

/// Where the numeral of an integer literal starts: behind the radix prefix.
pub open spec fn numeral_start(text: Seq<char>) -> int {
    if radix_of(text) == 10 {
        0
    } else {
        2
    }
}

/// Whether `c` may stand in the numeral of an integer literal in `radix`: a
/// digit of the radix, or an underscore between digits.
pub open spec fn is_numeral_char(c: char, radix: int) -> bool {
    c == '_' || digit_of(c, radix) is Some
}

/// Whether `c` may stand in the numeral of a floating-point literal.
pub open spec fn is_float_char(c: char) -> bool {
    ('0' <= c <= '9') || c == '.' || c == 'e' || c == 'E' || c == '+' || c == '-' || c == '_'
}

/// Whether `text[from..to]` is the longest run of characters that satisfy
/// `accepts` and that starts at `from`.
pub open spec fn is_longest_run(
    text: Seq<char>,
    from: int,
    to: int,
    accepts: spec_fn(char) -> bool,
) -> bool {
    &&& 0 <= from <= to <= text.len()
    &&& forall|i: int| from <= i < to ==> accepts(#[trigger] text[i])
    &&& to < text.len() ==> !accepts(text[to])
}

/// The end of the longest run of characters that satisfy `accepts` and that
/// starts at `from`.
pub open spec fn run_end(text: Seq<char>, from: int, accepts: spec_fn(char) -> bool) -> int
    decreases text.len() - from,
{
    if 0 <= from < text.len() && accepts(text[from]) {
        run_end(text, from + 1, accepts)
    } else {
        from
    }
}

/// `run_end` is the one position that ends the longest run.
pub proof fn lemma_run_end(text: Seq<char>, from: int, to: int, accepts: spec_fn(char) -> bool)
    requires
        is_longest_run(text, from, to, accepts),
    ensures
        run_end(text, from, accepts) == to,
    decreases to - from,
{
    if from < to {
        lemma_run_end(text, from + 1, to, accepts);
    }
}

/// The number that the digits of `numeral` spell in `radix`, the first digit
/// counting most. Characters that are no digits of the radix count for nothing.
pub open spec fn numeral_value(numeral: Seq<char>, radix: int) -> nat
    decreases numeral.len(),
{
    if numeral.len() == 0 {
        0
    } else {
        let front = numeral_value(numeral.drop_last(), radix);
        match digit_of(numeral.last(), radix) {
            Some(d) => (front * radix + d) as nat,
            None => front,
        }
    }
}

/// The numeral of an integer literal: what stands between the radix prefix and
/// the suffix.
pub open spec fn integer_numeral(text: Seq<char>) -> Seq<char> {
    let radix = radix_of(text);
    let start = numeral_start(text);
    text.subrange(start, run_end(text, start, |c: char| is_numeral_char(c, radix)))
}

/// The signed 64-bit number with the same low 64 bits as `n`.
pub open spec fn wrap_to_i64(n: int) -> int {
    let low = n % 0x1_0000_0000_0000_0000;
    if low >= 0x8000_0000_0000_0000 {
        low - 0x1_0000_0000_0000_0000
    } else {
        low
    }
}

/// The value of an integer literal: the number its numeral spells, wrapped to
/// 64 bits.
pub open spec fn integer_value(text: Seq<char>) -> int {
    wrap_to_i64(numeral_value(integer_numeral(text), radix_of(text)) as int)
}

/// The numeral of a floating-point literal: the literal without its suffix.
pub open spec fn float_numeral(text: Seq<char>) -> Seq<char> {
    text.subrange(0, run_end(text, 0, |c: char| is_float_char(c)))
}

/// The value of `c` as a digit in `radix`, if it is one.
fn digit(c: char, radix: u64) -> (r: Option<u64>)
    requires
        2 <= radix <= 16,
    ensures
        r matches Some(d) ==> digit_of(c, radix as int) == Some(d as int),
        r is None ==> digit_of(c, radix as int) is None,
{
    let v: u64 = if '0' <= c && c <= '9' {
        (c as u64) - ('0' as u64)
    } else if 'a' <= c && c <= 'f' {
        (c as u64) - ('a' as u64) + 10
    } else if 'A' <= c && c <= 'F' {
        (c as u64) - ('A' as u64) + 10
    } else {
        16
    };
    if v < radix {
        Some(v)
    } else {
        None
    }
}

/// The radix that the prefix of `text` announces, `len` being the length of
/// `text` in characters.
fn radix(text: &str, len: usize) -> (r: u64)
    requires
        len == text@.len(),
    ensures
        r == radix_of(text@),
        2 <= r <= 16,
{
    if len >= 2 && text.get_char(0) == '0' {
        let mark = text.get_char(1);
        if mark == 'x' {
            16
        } else if mark == 'o' {
            8
        } else if mark == 'b' {
            2
        } else {
            10
        }
    } else {
        10
    }
}

/// One step of reading a numeral with 64-bit wrapping arithmetic keeps the low
/// 64 bits of the exact value.
proof fn lemma_wrapping_step(exact: nat, acc: u64, radix: u64, d: u64)
    requires
        acc == exact % 0x1_0000_0000_0000_0000,
        d < radix <= 16,
    ensures
        vstd::wrapping::u64_specs::wrapping_add(
            vstd::wrapping::u64_specs::wrapping_mul(acc, radix),
            d,
        ) == (exact * radix + d) % 0x1_0000_0000_0000_0000,
{
    let m: int = 0x1_0000_0000_0000_0000;
    let shifted = vstd::wrapping::u64_specs::wrapping_mul(acc, radix);
    assert(shifted == (acc as int * radix as int) % m);
    lemma_mul_mod_noop_left(exact as int, radix as int, m);
    assert(shifted == (exact * radix) % m);
    lemma_add_mod_noop((exact * radix) as int, d as int, m);
    lemma_small_mod(d as nat, m as nat);
    let sum = shifted + d;
    if sum >= m {
        assert(sum - m == sum % m) by {
            lemma_mod_sub_multiples_vanish(sum, m);
            lemma_small_mod((sum - m) as nat, m as nat);
        }
    } else {
        lemma_small_mod(sum as nat, m as nat);
    }
}

/// Reads an integer literal: the number that its numeral spells in the radix
/// of its prefix, kept to 64 bits. A suffix is ignored.
pub fn integer_literal_value(text: &str) -> (v: i64)
    ensures
        v == integer_value(text@),
{
    let len = text.unicode_len();
    let radix = radix(text, len);
    let start: usize = if radix == 10 {
        0
    } else {
        2
    };
    let ghost accepts = |c: char| is_numeral_char(c, radix as int);
    let ghost mut exact: nat = 0;
    let mut acc: u64 = 0;
    let mut i: usize = start;
    while i < len
        invariant
            len == text@.len(),
            2 <= radix <= 16,
            start <= i <= len,
            accepts == (|c: char| is_numeral_char(c, radix as int)),
            forall|j: int| start <= j < i ==> accepts(#[trigger] text@[j]),
            exact == numeral_value(text@.subrange(start as int, i as int), radix as int),
            acc == exact % 0x1_0000_0000_0000_0000,
        ensures
            i < len ==> !accepts(text@[i as int]),
        decreases len - i,
    {
        let c = text.get_char(i);
        let ghost before = text@.subrange(start as int, i as int);
        let ghost after = text@.subrange(start as int, i + 1);
        assert(after.drop_last() =~= before);
        assert(after.last() == c);
        if c == '_' {
            assert(accepts(c));
        } else {
            match digit(c, radix) {
                Some(d) => {
                    assert(accepts(c));
                    proof {
                        lemma_wrapping_step(exact, acc, radix, d);
                        exact = exact * (radix as nat) + (d as nat);
                    }
                    acc = acc.wrapping_mul(radix).wrapping_add(d);
                },
                None => {
                    assert(!accepts(c));
                    break ;
                },
            }
        }
        i += 1;
    }
    proof {
        lemma_run_end(text@, start as int, i as int, accepts);
    }
    if acc >= 0x8000_0000_0000_0000 {
        ((acc - 0x8000_0000_0000_0000) as i64) + i64::MIN
    } else {
        acc as i64
    }
}

/// Reads a floating-point literal as far as its numeral goes: the result is
/// the literal without its suffix.
pub fn float_literal_numeral(text: &str) -> (r: String)
    ensures
        r@ == float_numeral(text@),
{
    let len = text.unicode_len();
    let ghost accepts = |c: char| is_float_char(c);
    let mut i: usize = 0;
    while i < len
        invariant
            len == text@.len(),
            i <= len,
            accepts == (|c: char| is_float_char(c)),
            forall|j: int| 0 <= j < i ==> accepts(#[trigger] text@[j]),
        ensures
            i < len ==> !accepts(text@[i as int]),
        decreases len - i,
    {
        let c = text.get_char(i);
        let numeral = ('0' <= c && c <= '9') || c == '.' || c == 'e' || c == 'E' || c == '+'
            || c == '-' || c == '_';
        if !numeral {
            assert(!accepts(c));
            break ;
        }
        assert(accepts(c));
        i += 1;
    }
    proof {
        lemma_run_end(text@, 0, i as int, accepts);
    }
    String::from_str(text.substring_char(0, i))
}

} // verus!
