//! Numbers as text, for diagnostics.

use vstd::prelude::*;
use vstd::string::{StrSliceExecFns, StringExecFns};

verus! {

/// The sixteen digits, in the order of their values.
pub open spec fn digits() -> Seq<char> {
    seq!['0', '1', '2', '3', '4', '5', '6', '7', '8', '9', 'A', 'B', 'C', 'D', 'E', 'F']
}

/// The four bits of `word` that its hexadecimal digit number `i` stands
/// for, the digits counted from the left and from zero.
pub open spec fn nibble(word: u32, i: int) -> u32 {
    (word >> ((28 - 4 * i) as u32)) & 0xF
}

/// A word in eight hexadecimal digits, upper case, zeros in front.
pub open spec fn hex(word: u32) -> Seq<char> {
    Seq::new(8, |i: int| digits()[nibble(word, i) as int])
}

/// A natural number in decimal digits, without zeros in front.
pub open spec fn decimal(n: nat) -> Seq<char>
    decreases n,
{
    if n < 10 {
        seq![digits()[n as int]]
    } else {
        decimal(n / 10).push(digits()[(n % 10) as int])
    }
}

/// An integer in decimal digits, with a minus sign where it is negative.
pub open spec fn signed(n: int) -> Seq<char> {
    if n < 0 {
        seq!['-'] + decimal((-n) as nat)
    } else {
        decimal(n as nat)
    }
}

/// The digit of the value `d`, as text.
fn digit(d: usize) -> (s: &'static str)
    requires
        d < 16,
    ensures
        s@ == seq![digits()[d as int]],
{
    let all = "0123456789ABCDEF";
    proof {
        reveal_strlit("0123456789ABCDEF");
    }
    let s = all.substring_ascii(d, d + 1);
    proof {
        assert(s@ =~= seq![digits()[d as int]]);
    }
    s
}

/// Appends `word` in eight hexadecimal digits.
pub(crate) fn push_hex(s: &mut String, word: u32)
    ensures
        final(s)@ == old(s)@ + hex(word),
{
    let mut i: u32 = 0;
    while i < 8
        invariant
            i <= 8,
            s@ == old(s)@ + hex(word).take(i as int),
        decreases 8 - i,
    {
        let shift: u32 = 28 - 4 * i;
        let d: u32 = (word >> shift) & 0xF;
        proof {
            assert((word >> shift) & 0xF < 16) by (bit_vector);
            assert(hex(word).take(i + 1) =~= hex(word).take(i as int).push(
                digits()[nibble(word, i as int) as int],
            ));
        }
        s.append(digit(d as usize));
        i += 1;
    }
    proof {
        assert(hex(word).take(8) =~= hex(word));
    }
}

/// Appends `n` in decimal digits.
fn push_decimal(s: &mut String, n: u64)
    ensures
        final(s)@ == old(s)@ + decimal(n as nat),
    decreases n,
{
    if n >= 10 {
        push_decimal(s, n / 10);
    }
    s.append(digit((n % 10) as usize));
    proof {
        assert(s@ =~= old(s)@ + decimal(n as nat));
    }
}

/// Appends `n` in decimal digits, after a minus sign where it is negative.
pub(crate) fn push_signed(s: &mut String, n: i32)
    ensures
        final(s)@ == old(s)@ + signed(n as int),
{
    if n < 0 {
        proof {
            reveal_strlit("-");
        }
        s.append("-");
        push_decimal(s, (-(n as i64)) as u64);
        proof {
            assert(s@ =~= old(s)@ + signed(n as int));
        }
    } else {
        push_decimal(s, n as u64);
    }
}

} // verus!
