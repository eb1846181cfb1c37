//! Fixed-width lower-case hexadecimal rendering of unsigned numbers,
//! with a proof that it is injective on numbers that fit the width.
//! Canonical layer file names are built from it.

use vstd::prelude::*;
use vstd::arithmetic::div_mod::lemma_fundamental_div_mod;

verus! {

/// The value of 16 raised to `w`.
pub open spec fn pow16(w: nat) -> int
    decreases w,
{
    if w == 0 {
        1
    } else {
        16 * pow16((w - 1) as nat)
    }
}

/// The lower-case hexadecimal digit standing for `d`.
pub open spec fn hex_digit(d: int) -> char {
    if d == 0 {
        '0'
    } else if d == 1 {
        '1'
    } else if d == 2 {
        '2'
    } else if d == 3 {
        '3'
    } else if d == 4 {
        '4'
    } else if d == 5 {
        '5'
    } else if d == 6 {
        '6'
    } else if d == 7 {
        '7'
    } else if d == 8 {
        '8'
    } else if d == 9 {
        '9'
    } else if d == 10 {
        'a'
    } else if d == 11 {
        'b'
    } else if d == 12 {
        'c'
    } else if d == 13 {
        'd'
    } else if d == 14 {
        'e'
    } else {
        'f'
    }
}

/// The `w` least significant hexadecimal digits of `n`, most significant
/// digit first.
pub open spec fn hex_seq(n: int, w: nat) -> Seq<char>
    decreases w,
{
    if w == 0 {
        Seq::empty()
    } else {
        hex_seq(n / 16, (w - 1) as nat).push(hex_digit(n % 16))
    }
}

/// A rendering of width `w` has exactly `w` characters.
pub proof fn lemma_hex_seq_len(n: int, w: nat)
    ensures
        hex_seq(n, w).len() == w,
    decreases w,
{
    if w > 0 {
        lemma_hex_seq_len(n / 16, (w - 1) as nat);
    }
}

/// Distinct hexadecimal digits stand for distinct values.
pub proof fn lemma_hex_digit_injective(x: int, y: int)
    requires
        0 <= x < 16,
        0 <= y < 16,
        hex_digit(x) == hex_digit(y),
    ensures
        x == y,
{
}

/// Two numbers that fit the width and render to the same digits are
/// equal: the rendering is collision-free.
pub proof fn lemma_hex_seq_injective(a: int, b: int, w: nat)
    requires
        0 <= a < pow16(w),
        0 <= b < pow16(w),
        hex_seq(a, w) == hex_seq(b, w),
    ensures
        a == b,
    decreases w,
{
    if w == 0 {
        assert(a == 0 && b == 0);
    } else {
        let wp = (w - 1) as nat;
        lemma_hex_seq_len(a / 16, wp);
        lemma_hex_seq_len(b / 16, wp);
        assert(hex_seq(a, w).last() == hex_digit(a % 16));
        assert(hex_seq(b, w).last() == hex_digit(b % 16));
        lemma_hex_digit_injective(a % 16, b % 16);
        assert(hex_seq(a, w).drop_last() =~= hex_seq(a / 16, wp));
        assert(hex_seq(b, w).drop_last() =~= hex_seq(b / 16, wp));
        assert(a / 16 < pow16(wp)) by {
            if a / 16 >= pow16(wp) {
                assert(16 * (a / 16) >= 16 * pow16(wp)) by (nonlinear_arith)
                    requires
                        a / 16 >= pow16(wp),
                ;
                lemma_fundamental_div_mod(a, 16);
                assert(false);
            }
        };
        assert(b / 16 < pow16(wp)) by {
            if b / 16 >= pow16(wp) {
                assert(16 * (b / 16) >= 16 * pow16(wp)) by (nonlinear_arith)
                    requires
                        b / 16 >= pow16(wp),
                ;
                lemma_fundamental_div_mod(b, 16);
                assert(false);
            }
        };
        lemma_hex_seq_injective(a / 16, b / 16, wp);
        lemma_fundamental_div_mod(a, 16);
        lemma_fundamental_div_mod(b, 16);
    }
}

/// Appends the single hexadecimal digit standing for `d` to `s`.
fn push_hex_digit(s: &mut String, d: u128)
    requires
        d < 16,
    ensures
        final(s)@ == old(s)@.push(hex_digit(d as int)),
{
    proof {
        reveal_strlit("0");
        reveal_strlit("1");
        reveal_strlit("2");
        reveal_strlit("3");
        reveal_strlit("4");
        reveal_strlit("5");
        reveal_strlit("6");
        reveal_strlit("7");
        reveal_strlit("8");
        reveal_strlit("9");
        reveal_strlit("a");
        reveal_strlit("b");
        reveal_strlit("c");
        reveal_strlit("d");
        reveal_strlit("e");
        reveal_strlit("f");
    }
    let ghost start: Seq<char> = s@;
    if d == 0 {
        s.append("0");
    } else if d == 1 {
        s.append("1");
    } else if d == 2 {
        s.append("2");
    } else if d == 3 {
        s.append("3");
    } else if d == 4 {
        s.append("4");
    } else if d == 5 {
        s.append("5");
    } else if d == 6 {
        s.append("6");
    } else if d == 7 {
        s.append("7");
    } else if d == 8 {
        s.append("8");
    } else if d == 9 {
        s.append("9");
    } else if d == 10 {
        s.append("a");
    } else if d == 11 {
        s.append("b");
    } else if d == 12 {
        s.append("c");
    } else if d == 13 {
        s.append("d");
    } else if d == 14 {
        s.append("e");
    } else {
        s.append("f");
    }
    proof {
        assert(s@ =~= start.push(hex_digit(d as int)));
    }
}

/// Appends the `w` least significant hexadecimal digits of `n` to `s`,
/// most significant digit first.
pub fn push_hex(s: &mut String, n: u128, w: u64)
    ensures
        final(s)@ == old(s)@ + hex_seq(n as int, w as nat),
    decreases w,
{
    if w == 0 {
        proof {
            assert(old(s)@ + hex_seq(n as int, 0) =~= old(s)@);
        }
    } else {
        push_hex(s, n / 16, w - 1);
        push_hex_digit(s, n % 16);
        proof {
            assert(s@ =~= old(s)@ + hex_seq(n as int, w as nat));
        }
    }
}

} // verus!
