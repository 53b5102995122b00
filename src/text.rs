//! Fixed-point numbers as right-aligned ASCII text.
use vstd::prelude::*;

verus! {

pub const ASCII_SPACE: u8 = 32;

pub const ASCII_MINUS: u8 = 45;

pub const ASCII_POINT: u8 = 46;

pub const ASCII_ZERO: u8 = 48;

/// The `count` lowest decimal digits of `n`, most significant first.
pub open spec fn digits(n: nat, count: nat) -> Seq<u8>
    decreases count,
{
    if count == 0 {
        Seq::empty()
    } else {
        digits(n / 10, (count - 1) as nat).push((ASCII_ZERO + n % 10) as u8)
    }
}

/// Number of decimal digits of `n`.
pub open spec fn digit_count(n: nat) -> nat
    decreases n,
{
    if n < 10 {
        1
    } else {
        1 + digit_count(n / 10)
    }
}

/// Digits of `n / 10^frac` with `frac` decimals after a point, and at least
/// one digit before it.
pub open spec fn fixed_digits(n: nat, frac: nat) -> Seq<u8> {
    let count = if digit_count(n) > frac + 1 {
        digit_count(n)
    } else {
        frac + 1
    };
    let d = digits(n, count);
    if frac == 0 {
        d
    } else {
        d.take(count - frac) + seq![ASCII_POINT] + d.skip(count - frac)
    }
}

/// `s` preceded by spaces up to `width` characters.
pub open spec fn pad_left(s: Seq<u8>, width: nat) -> Seq<u8> {
    if s.len() >= width {
        s
    } else {
        Seq::new((width - s.len()) as nat, |i: int| ASCII_SPACE) + s
    }
}

/// The number `(-1 if negative) * magnitude / 10^frac`, with `frac` decimals,
/// right-aligned in `width` characters.
pub open spec fn fixed_text(negative: bool, magnitude: nat, frac: nat, width: nat) -> Seq<u8> {
    let body = if negative {
        seq![ASCII_MINUS] + fixed_digits(magnitude, frac)
    } else {
        fixed_digits(magnitude, frac)
    };
    pad_left(body, width)
}

/// `10^k`.
pub open spec fn pow10(k: nat) -> nat
    decreases k,
{
    if k == 0 {
        1
    } else {
        10 * pow10((k - 1) as nat)
    }
}

proof fn lemma_digit_count_bound(n: nat, k: nat)
    requires
        k >= 1,
        n < pow10(k),
    ensures
        1 <= digit_count(n) <= k,
    decreases n,
{
    if n >= 10 {
        assert(k >= 2) by {
            if k == 1 {
                assert(pow10(1) == 10 * pow10(0));
            }
        }
        assert(n / 10 < pow10((k - 1) as nat)) by (nonlinear_arith)
            requires
                n < pow10(k),
                pow10(k) == 10 * pow10((k - 1) as nat),
        ;
        lemma_digit_count_bound(n / 10, (k - 1) as nat);
    }
}

proof fn lemma_u64_digits(n: u64)
    ensures
        1 <= digit_count(n as nat) <= 20,
{
    reveal_with_fuel(pow10, 21);
    assert(pow10(20) == 100000000000000000000);
    lemma_digit_count_bound(n as nat, 20);
}

/// Renders `(-1 if negative) * magnitude / 10^frac` with `frac` decimals,
/// right-aligned in `width` characters.
pub fn format_fixed(negative: bool, magnitude: u64, frac: usize, width: usize) -> (r: Vec<u8>)
    requires
        frac <= 16,
        width <= 64,
    ensures
        r@ == fixed_text(negative, magnitude as nat, frac as nat, width as nat),
        r@.len() <= 64,
{
    proof {
        lemma_u64_digits(magnitude);
    }
    let mut count: usize = 1;
    let mut m: u64 = magnitude;
    while m >= 10
        invariant
            1 <= count <= 20,
            digit_count(magnitude as nat) == count - 1 + digit_count(m as nat),
            count - 1 + digit_count(m as nat) <= 20,
        decreases m,
    {
        proof {
            lemma_u64_digits(m);
            lemma_u64_digits(m / 10);
        }
        m = m / 10;
        count = count + 1;
    }
    assert(digit_count(m as nat) == 1);
    assert(count == digit_count(magnitude as nat));
    if count < frac + 1 {
        count = frac + 1;
    }
    assert(count <= 20);
    let ghost d = digits(magnitude as nat, count as nat);
    let mut out: Vec<u8> = Vec::new();
    let mut m: u64 = magnitude;
    let mut k: usize = 0;
    while k < count
        invariant
            k <= count,
            d == digits(m as nat, (count - k) as nat) + out@,
            d == digits(magnitude as nat, count as nat),
            out@.len() == k,
        decreases count - k,
    {
        let digit: u8 = (m % 10) as u8 + ASCII_ZERO;
        proof {
            let rest = digits(m as nat / 10, (count - k - 1) as nat);
            assert(digits(m as nat, (count - k) as nat) == rest.push(digit));
            assert(rest.push(digit) + out@ =~= rest + out@.insert(0, digit));
        }
        out.insert(0, digit);
        m = m / 10;
        k = k + 1;
    }
    assert(digits(m as nat, 0) + out@ =~= out@);
    if frac > 0 {
        let at: usize = count - frac;
        assert(d.take(at as int) + seq![ASCII_POINT] + d.skip(at as int) =~= d.insert(
            at as int,
            ASCII_POINT,
        ));
        out.insert(at, ASCII_POINT);
    }
    if negative {
        assert(seq![ASCII_MINUS] + out@ =~= out@.insert(0, ASCII_MINUS));
        out.insert(0, ASCII_MINUS);
    }
    let ghost body = out@;
    assert(body.len() <= 22);
    let mut pad: usize = 0;
    while out.len() < width
        invariant
            out@ == Seq::new(pad as nat, |i: int| ASCII_SPACE) + body,
            width <= 64,
            pad == 0 || pad + body.len() <= width,
            body.len() <= 22,
        decreases width - out@.len(),
    {
        assert(Seq::new((pad + 1) as nat, |i: int| ASCII_SPACE) + body =~= (Seq::new(
            pad as nat,
            |i: int| ASCII_SPACE,
        ) + body).insert(0, ASCII_SPACE));
        out.insert(0, ASCII_SPACE);
        pad = pad + 1;
    }
    proof {
        if body.len() >= width {
            assert(Seq::new(0 as nat, |i: int| ASCII_SPACE) + body =~= body);
        } else {
            assert(pad == width - body.len());
        }
    }
    out
}

/// Renders a signed fixed-point value given in units of `10^-frac`.
pub fn format_signed(value: i32, frac: usize, width: usize) -> (r: Vec<u8>)
    requires
        frac <= 16,
        width <= 64,
    ensures
        r@ == fixed_text(value < 0, abs(value as int) as nat, frac as nat, width as nat),
        r@.len() <= 64,
{
    let magnitude: u64 = if value < 0 {
        (0 - (value as i64)) as u64
    } else {
        value as u64
    };
    format_fixed(value < 0, magnitude, frac, width)
}

/// `|v|`.
pub open spec fn abs(v: int) -> int {
    if v < 0 {
        -v
    } else {
        v
    }
}

} // verus!
