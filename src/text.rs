use vstd::prelude::*;
use vstd::string::*;

verus! {

/// The lowercase digit for `d`, for `d` below sixteen.
pub open spec fn digit_char(d: nat) -> char {
    seq!['0', '1', '2', '3', '4', '5', '6', '7', '8', '9', 'a', 'b', 'c', 'd', 'e', 'f'][d as int]
}

/// `n` written in `base` (two to sixteen) with lowercase digits, most
/// significant first, without leading zeros; zero is the single digit `0`.
pub open spec fn radix_text(n: nat, base: nat) -> Seq<char>
    decreases n,
    via radix_text_decreases
{
    if base < 2 || n < base {
        seq![digit_char(n)]
    } else {
        radix_text(n / base, base).push(digit_char(n % base))
    }
}

#[via_fn]
proof fn radix_text_decreases(n: nat, base: nat) {
    if !(base < 2 || n < base) {
        assert(n / base < n) by (nonlinear_arith)
            requires
                base >= 2,
                n >= base,
        ;
    }
}

/// Appends the digit for `d`.
fn push_digit(s: &mut String, d: u8)
    requires
        d < 16,
    ensures
        final(s)@ == old(s)@.push(digit_char(d as nat)),
{
    let digits = "0123456789abcdef";
    proof {
        reveal_strlit("0123456789abcdef");
    }
    let one = digits.substring_char(d as usize, d as usize + 1);
    assert(one@ =~= seq![digit_char(d as nat)]);
    s.append(one);
}

/// Appends `n` written in `base`.
pub(crate) fn push_radix(s: &mut String, n: u8, base: u8)
    requires
        base == 10 || base == 16,
    ensures
        final(s)@ == old(s)@ + radix_text(n as nat, base as nat),
{
    if n < base {
        push_digit(s, n);
        assert(radix_text(n as nat, base as nat) == seq![digit_char(n as nat)]);
    } else {
        let high = n / base;
        let low = n % base;
        if high < base {
            push_digit(s, high);
            push_digit(s, low);
            assert(radix_text(high as nat, base as nat) == seq![digit_char(high as nat)]);
        } else {
            let top = high / base;
            let mid = high % base;
            push_digit(s, top);
            push_digit(s, mid);
            push_digit(s, low);
            assert(top < base);
            assert(radix_text(top as nat, base as nat) == seq![digit_char(top as nat)]);
            assert(radix_text(high as nat, base as nat) =~= seq![digit_char(top as nat), digit_char(mid as nat)]);
        }
        assert(radix_text(n as nat, base as nat) =~= radix_text(high as nat, base as nat).push(digit_char(low as nat)));
    }
    assert(final(s)@ =~= old(s)@ + radix_text(n as nat, base as nat));
}

} // verus!
