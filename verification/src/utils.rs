//! Numbers as text.

use vstd::prelude::*;
use vstd::string::*;
use vstd::arithmetic::div_mod::{lemma_div_decreases, lemma_small_mod};

verus! {

/// The character of the digit `d`, for `d` below ten.
pub open spec fn digit_char(d: nat) -> char {
    (48 + d) as char
}

/// The digits of `n` to the base `base`, the most significant first and
/// without leading zeros; the one digit `0` for zero.
pub open spec fn digits(n: nat, base: nat) -> Seq<char>
    decreases n,
    via digits_decreases
{
    if base < 2 || n < base {
        seq![digit_char(n)]
    } else {
        digits(n / base, base).push(digit_char(n % base))
    }
}

#[via_fn]
proof fn digits_decreases(n: nat, base: nat) {
    if base >= 2 && n >= base {
        lemma_div_decreases(n as int, base as int);
    }
}

/// `n` in decimal.
pub open spec fn decimal(n: nat) -> Seq<char> {
    digits(n, 10)
}

/// `n` in octal.
pub open spec fn octal(n: nat) -> Seq<char> {
    digits(n, 8)
}

/// The text of one digit.
fn digit_str(d: u64) -> (text: &'static str)
    requires
        d < 10,
    ensures
        text@ == seq![digit_char(d as nat)],
{
    proof {
        reveal_strlit("0");
        reveal_strlit("1");
        reveal_strlit("2");
        reveal_strlit("3");
        reveal_strlit("4");
        reveal_strlit("5");
        reveal_strlit("6");
        reveal_strlit("7");
        reveal_strlit("8");
        reveal_strlit("9");
    }
    let text = if d == 0 {
        "0"
    } else if d == 1 {
        "1"
    } else if d == 2 {
        "2"
    } else if d == 3 {
        "3"
    } else if d == 4 {
        "4"
    } else if d == 5 {
        "5"
    } else if d == 6 {
        "6"
    } else if d == 7 {
        "7"
    } else if d == 8 {
        "8"
    } else {
        "9"
    };
    assert(text@ =~= seq![digit_char(d as nat)]);
    text
}

/// Appends the digits of `n` to the base `base` to `text`.
fn push_digits(text: &mut String, n: u64, base: u64)
    requires
        2 <= base <= 10,
    ensures
        final(text)@ == old(text)@ + digits(n as nat, base as nat),
    decreases n,
{
    if n >= base {
        proof {
            lemma_div_decreases(n as int, base as int);
        }
        push_digits(text, n / base, base);
    }
    text.append(digit_str(n % base));
    proof {
        let tail = seq![digit_char((n % base) as nat)];
        if n >= base {
            let front = digits((n / base) as nat, base as nat);
            assert(digits(n as nat, base as nat) == front.push(digit_char((n % base) as nat)));
            assert(old(text)@ + front + tail =~= old(text)@ + digits(n as nat, base as nat));
        } else {
            lemma_small_mod(n as nat, base as nat);
            assert(digits(n as nat, base as nat) == tail);
        }
    }
}

/// `n` in decimal.
pub fn format_decimal(n: u64) -> (text: String)
    ensures
        text@ == decimal(n as nat),
{
    let mut text = String::new();
    push_digits(&mut text, n, 10);
    assert(text@ =~= decimal(n as nat));
    text
}

/// `n` in octal.
pub fn format_octal(n: u64) -> (text: String)
    ensures
        text@ == octal(n as nat),
{
    let mut text = String::new();
    push_digits(&mut text, n, 8);
    assert(text@ =~= octal(n as nat));
    text
}

/// The size of a file as text: the number of its bytes, in decimal.
pub fn format_size(size: u64) -> (text: String)
    ensures
        text@ == decimal(size as nat),
{
    format_decimal(size)
}

} // verus!
