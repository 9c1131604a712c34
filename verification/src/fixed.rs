//! Fixed-point quantities and their decimal rendering.
//!
//! Measurements that carry a fractional part (percentages, milliseconds,
//! megabytes) are held as `Centi`: an unsigned count of hundredths of the
//! unit. `9550` stands for `95.50`. Values computed from them by division
//! (scores, shares) are kept exact as a `Ratio`.

use vstd::prelude::*;

verus! {

/// A non-negative quantity in hundredths of its unit.
pub type Centi = u64;

/// An exact quotient: the value `numerator / denominator`.
#[derive(Debug, Clone, Copy, PartialEq, Eq, Structural)]
pub struct Ratio {
    pub numerator: u128,
    pub denominator: u128,
}

/// The character of a decimal digit.
pub open spec fn digit_char(d: nat) -> char {
    if d == 0 { '0' }
    else if d == 1 { '1' }
    else if d == 2 { '2' }
    else if d == 3 { '3' }
    else if d == 4 { '4' }
    else if d == 5 { '5' }
    else if d == 6 { '6' }
    else if d == 7 { '7' }
    else if d == 8 { '8' }
    else { '9' }
}

/// The decimal digits of `n`, most significant first, without leading zeros.
pub open spec fn decimal(n: nat) -> Seq<char>
    decreases n,
{
    if n < 10 {
        seq![digit_char(n)]
    } else {
        decimal(n / 10).push(digit_char(n % 10))
    }
}

// ── Doubles ──────────────────────────────────────────────────────────────────
//
// A measurement of `v` hundredths stands for the double nearest to
// `v / 100`. Printing such a double with a fixed number of decimals rounds
// its exact binary value, ties to even; the functions below compute that
// in whole numbers.

/// 2 to the power `k`.
pub open spec fn two_to(k: nat) -> nat
    decreases k,
{
    if k == 0 { 1 } else { 2 * two_to((k - 1) as nat) }
}

/// 2^52, the least significand of a double.
pub open spec fn sig_low() -> nat {
    4503599627370496
}

/// 2^53, one past the greatest significand of a double.
pub open spec fn sig_high() -> nat {
    9007199254740992
}

/// `n` doubled until it is at least `d` times 2^52, and how often.
pub open spec fn lifted(n: nat, d: nat) -> (nat, nat)
    decreases (if n > 0 && n < d * sig_low() { d * sig_low() - n } else { 0 }),
{
    if n > 0 && n < d * sig_low() {
        let r = lifted(2 * n, d);
        (r.0, r.1 + 1)
    } else {
        (n, 0)
    }
}

/// `d` doubled until `n` is below it times 2^53, and how often.
pub open spec fn dropped(n: nat, d: nat) -> (nat, nat)
    decreases (if d > 0 && n >= d * sig_high() { n - d } else { 0 }),
{
    if d > 0 && n >= d * sig_high() {
        let r = dropped(n, 2 * d);
        (r.0, r.1 + 1)
    } else {
        (d, 0)
    }
}

/// `a / b` rounded to a whole number, ties to even.
pub open spec fn round_even(a: nat, b: nat) -> nat {
    let f = a / b;
    let r = a % b;
    if r > b - r || (r == b - r && f % 2 == 1) { f + 1 } else { f }
}

/// The double nearest to `n / d` (both above zero), ties to even, as its
/// significand `m` and binary exponent `e`: the value `m * 2^e`.
pub open spec fn nearest_double(n: nat, d: nat) -> (nat, int) {
    let l = lifted(n, d);
    let r = dropped(l.0, d);
    (round_even(l.0, r.0), r.1 - l.1)
}

/// `2^e` for a non-negative exponent, else 1.
pub open spec fn pos_pow(e: int) -> nat {
    if e >= 0 { two_to(e as nat) } else { 1 }
}

/// `2^-e` for a negative exponent, else 1.
pub open spec fn neg_pow(e: int) -> nat {
    if e >= 0 { 1 } else { two_to((-e) as nat) }
}

/// The double nearest to `v / 100`, times `scale`, rounded to a whole
/// number, ties to even: how `{:.1}` (scale 10) or `{:.2}` (scale 100)
/// reads that double.
pub open spec fn printed_centi(v: nat, scale: nat) -> nat {
    if v == 0 {
        0
    } else {
        let x = nearest_double(v, 100);
        round_even(x.0 * scale * pos_pow(x.1), neg_pow(x.1))
    }
}

/// `v` hundredths printed with two decimals: `9550` gives `95.50`.
pub open spec fn centi_two(v: nat) -> Seq<char> {
    let t = printed_centi(v, 100);
    decimal(t / 100) + seq!['.', digit_char((t % 100) / 10), digit_char(t % 10)]
}

/// `v` hundredths printed with one decimal: `9555` gives `95.5`, as the
/// double nearest to 95.55 lies below it, and `1225` gives `12.2`.
pub open spec fn centi_one(v: nat) -> Seq<char> {
    let t = printed_centi(v, 10);
    decimal(t / 10) + seq!['.', digit_char(t % 10)]
}

proof fn lemma_two_to_step(k: nat)
    ensures
        two_to(k + 1) == 2 * two_to(k),
{
}

/// Rounds `a / b` to a whole number, ties to even.
pub fn round_even_exec(a: u128, b: u128) -> (r: u128)
    requires
        b > 0,
        a < u128::MAX,
    ensures
        r == round_even(a as nat, b as nat),
{
    let f = a / b;
    let rem = a % b;
    if rem > b - rem || (rem == b - rem && f % 2 == 1) {
        assert(f < u128::MAX) by (nonlinear_arith)
            requires f == a / b, b > 0, a < u128::MAX;
        f + 1
    } else {
        f
    }
}

/// The double nearest to `n / d`: its significand, whether its exponent is
/// non-negative, and 2 to the power of the exponent's magnitude.
pub fn nearest_double_parts(n: u128, d: u128) -> (r: (u128, bool, u128))
    requires
        1 <= n <= u64::MAX,
        1 <= d <= u64::MAX,
    ensures
        ({
            let x = nearest_double(n as nat, d as nat);
            &&& r.0 == x.0
            &&& r.1 == (x.1 >= 0)
            &&& r.1 ==> r.2 == pos_pow(x.1)
            &&& !r.1 ==> r.2 == neg_pow(x.1)
            &&& sig_low() <= r.0 <= sig_high()
            &&& r.2 >= 1
            &&& r.1 ==> r.2 * d * sig_low() <= n || r.2 == 1
            &&& !r.1 ==> n * r.2 < d * sig_high()
        }),
{
    let ghost nn = n as nat;
    let ghost dd = d as nat;
    let mut a: u128 = n;
    let ghost mut up: nat = 0;
    assert(two_to(0) == 1);
    while a < d * 4503599627370496
        invariant
            1 <= n <= u64::MAX,
            1 <= d <= u64::MAX,
            nn == n,
            dd == d,
            a as nat == nn * two_to(up),
            lifted(nn, dd) == (lifted(a as nat, dd).0, lifted(a as nat, dd).1 + up),
            a >= n,
            a == n || a < dd * sig_high(),
            up > 0 <==> a != n,
        decreases d * 9007199254740992 - a,
    {
        proof {
            lemma_two_to_step(up);
            assert(nn * two_to(up + 1) == 2 * (nn * two_to(up))) by (nonlinear_arith)
                requires two_to(up + 1) == 2 * two_to(up);
            assert(two_to(up) >= 1) by {
                lemma_two_to_pos(up);
            }
        }
        a = a * 2;
        proof {
            up = up + 1;
        }
    }
    let mut b: u128 = d;
    let ghost mut down: nat = 0;
    assert(dropped(a as nat, dd) == (dropped(a as nat, b as nat).0, dropped(a as nat, b as nat).1 + 0));
    while a >= b * 9007199254740992
        invariant
            1 <= n <= u64::MAX,
            1 <= d <= u64::MAX,
            nn == n,
            dd == d,
            a as nat == nn * two_to(up),
            lifted(nn, dd) == (a as nat, up),
            up > 0 <==> a != n,
            a == n || a < dd * sig_high(),
            b as nat == dd * two_to(down),
            dropped(a as nat, dd) == (dropped(a as nat, b as nat).0, dropped(a as nat, b as nat).1 + down),
            b >= d,
            a >= b * sig_low(),
            up > 0 ==> down == 0,
        decreases a - b,
    {
        proof {
            lemma_two_to_step(down);
            assert(dd * two_to(down + 1) == 2 * (dd * two_to(down))) by (nonlinear_arith)
                requires two_to(down + 1) == 2 * two_to(down);
        }
        b = b * 2;
        proof {
            down = down + 1;
        }
    }
    assert(a as nat >= b as nat * sig_low());
    assert(a < b * sig_high());
    let f = a / b;
    assert(sig_low() <= f < sig_high()) by (nonlinear_arith)
        requires f == a / b, b > 0, a >= b * sig_low(), a < b * sig_high();
    let m = round_even_exec(a, b);
    proof {
        lemma_two_to_pos(up);
        lemma_two_to_pos(down);
    }
    if a == n {
        let p = b / d;
        proof {
            vstd::arithmetic::div_mod::lemma_div_by_multiple(two_to(down) as int, dd as int);
            assert(two_to(down) * dd == dd * two_to(down)) by (nonlinear_arith);
        }
        (m, true, p)
    } else {
        let p = a / n;
        proof {
            vstd::arithmetic::div_mod::lemma_div_by_multiple(two_to(up) as int, nn as int);
            assert(two_to(up) * nn == nn * two_to(up)) by (nonlinear_arith);
        }
        (m, false, p)
    }
}

proof fn lemma_two_to_pos(k: nat)
    ensures
        two_to(k) >= 1,
    decreases k,
{
    if k > 0 {
        lemma_two_to_pos((k - 1) as nat);
    }
}

/// How the double nearest to `v / 100` reads times `scale`, rounded to a
/// whole number, ties to even.
pub fn printed_centi_exec(v: u64, scale: u128) -> (t: u128)
    requires
        1 <= scale <= 100,
    ensures
        t == printed_centi(v as nat, scale as nat),
        t <= u64::MAX as nat * 100,
{
    if v == 0 {
        return 0;
    }
    let (m, nonneg, p) = nearest_double_parts(v as u128, 100);
    if nonneg {
        assert(p <= 4096) by (nonlinear_arith)
            requires p * 100 * sig_low() <= v || p == 1, v <= u64::MAX;
        assert(m * scale <= sig_high() * 100) by (nonlinear_arith)
            requires m <= sig_high(), scale <= 100;
        assert(m * scale * p <= sig_high() * 100 * 4096) by (nonlinear_arith)
            requires m * scale <= sig_high() * 100, p <= 4096;
        let t = m * scale * p;
        assert(t <= u64::MAX as nat * 100) by (nonlinear_arith)
            requires t == m * scale * p, m <= sig_high(), scale <= 100, p * 100 * sig_low() <= v || p == 1, v <= u64::MAX, p >= 1;
        assert(round_even(t as nat, 1) == t);
        t
    } else {
        assert(p < 100 * sig_high()) by (nonlinear_arith)
            requires v * p < 100 * sig_high(), v >= 1;
        assert(m * scale <= sig_high() * 100) by (nonlinear_arith)
            requires m <= sig_high(), scale <= 100;
        let t = round_even_exec(m * scale, p);
        assert(t <= m * scale) by (nonlinear_arith)
            requires t == round_even((m * scale) as nat, p as nat), p >= 1;
        t
    }
}

fn digit_str(d: u64) -> (s: &'static str)
    requires
        d < 10,
    ensures
        s@ == seq![digit_char(d as nat)],
{
    if d == 0 {
        proof { reveal_strlit("0"); }
        "0"
    } else if d == 1 {
        proof { reveal_strlit("1"); }
        "1"
    } else if d == 2 {
        proof { reveal_strlit("2"); }
        "2"
    } else if d == 3 {
        proof { reveal_strlit("3"); }
        "3"
    } else if d == 4 {
        proof { reveal_strlit("4"); }
        "4"
    } else if d == 5 {
        proof { reveal_strlit("5"); }
        "5"
    } else if d == 6 {
        proof { reveal_strlit("6"); }
        "6"
    } else if d == 7 {
        proof { reveal_strlit("7"); }
        "7"
    } else if d == 8 {
        proof { reveal_strlit("8"); }
        "8"
    } else {
        proof { reveal_strlit("9"); }
        "9"
    }
}

/// The decimal rendering of `n`.
pub fn decimal_string(n: u64) -> (s: String)
    ensures
        s@ == decimal(n as nat),
    decreases n,
{
    if n < 10 {
        String::from_str(digit_str(n))
    } else {
        let mut s = decimal_string(n / 10);
        s.append(digit_str(n % 10));
        s
    }
}

/// The decimal rendering of a wide number.
pub fn decimal_string_wide(n: u128) -> (s: String)
    ensures
        s@ == decimal(n as nat),
    decreases n,
{
    if n < 10 {
        String::from_str(digit_str(n as u64))
    } else {
        let mut s = decimal_string_wide(n / 10);
        s.append(digit_str((n % 10) as u64));
        s
    }
}

/// Appends the decimal rendering of `n` to `out`.
pub fn push_decimal(out: &mut String, n: u64)
    ensures
        final(out)@ == old(out)@ + decimal(n as nat),
{
    let d = decimal_string(n);
    out.append(d.as_str());
}

/// `used` hundredths as a percentage of `budget` (both above zero), as
/// `{:.0}` prints it: the double nearest to `used / 100` is divided by the
/// double nearest to `budget`, the quotient multiplied by 100, each result
/// rounded to the nearest double, and the product rounded to a whole
/// number, ties to even.
pub open spec fn printed_percent(used: nat, budget: nat) -> nat {
    let u = nearest_double(used, 100);
    let b = nearest_double(budget, 1);
    let q = nearest_double(u.0, b.0);
    let p = nearest_double(q.0 * 100, 1);
    round_even(
        p.0 * pos_pow(p.1) * pos_pow(q.1) * pos_pow(u.1) * neg_pow(b.1),
        neg_pow(p.1) * neg_pow(q.1) * neg_pow(u.1) * pos_pow(b.1),
    )
}

/// Computes `printed_percent`.
pub fn printed_percent_exec(used: u64, budget: u64) -> (t: u128)
    requires
        used >= 1,
        budget >= 1,
    ensures
        t == printed_percent(used as nat, budget as nat),
{
    let (mu, nu, pu) = nearest_double_parts(used as u128, 100);
    let (mb, nb, pb) = nearest_double_parts(budget as u128, 1);
    let (mq, nq, pq) = nearest_double_parts(mu, mb);
    assert(mq * 100 <= sig_high() * 100) by (nonlinear_arith)
        requires mq <= sig_high();
    let (mp, np, pp) = nearest_double_parts(mq * 100, 1);
    assert(np) by (nonlinear_arith)
        requires !np ==> (mq * 100) * pp < 1 * sig_high(), mq >= sig_low(), pp >= 1;
    assert(pp <= 256) by (nonlinear_arith)
        requires pp * 1 * sig_low() <= mq * 100 || pp == 1, mq <= sig_high();
    assert(nq ==> pq == 1) by (nonlinear_arith)
        requires nq ==> (pq * mb * sig_low() <= mu || pq == 1), mb >= sig_low(), mu <= sig_high(), pq >= 1;
    assert(!nq ==> pq < 2 * sig_high()) by (nonlinear_arith)
        requires !nq ==> mu * pq < mb * sig_high(), mb <= sig_high(), mu >= sig_low();
    assert(nu ==> pu <= 4096) by (nonlinear_arith)
        requires nu ==> (pu * 100 * sig_low() <= used || pu == 1), used <= u64::MAX;
    assert(!nu ==> pu < 100 * sig_high()) by (nonlinear_arith)
        requires !nu ==> used * pu < 100 * sig_high(), used >= 1;
    assert(nb ==> pb <= 4096) by (nonlinear_arith)
        requires nb ==> (pb * 1 * sig_low() <= budget || pb == 1), budget <= u64::MAX;
    assert(!nb ==> pb < sig_high()) by (nonlinear_arith)
        requires !nb ==> budget * pb < 1 * sig_high(), budget >= 1;
    let n1: u128 = pp;
    let n2: u128 = if nq { pq } else { 1 };
    let n3: u128 = if nu { pu } else { 1 };
    let n4: u128 = if nb { 1 } else { pb };
    let d2: u128 = if nq { 1 } else { pq };
    let d3: u128 = if nu { 1 } else { pu };
    let d4: u128 = if nb { pb } else { 1 };
    assert(mp * n1 <= sig_high() * 256) by (nonlinear_arith)
        requires mp <= sig_high(), n1 <= 256;
    assert(mp * n1 * n2 <= sig_high() * 256) by (nonlinear_arith)
        requires mp * n1 <= sig_high() * 256, n2 == 1;
    assert(mp * n1 * n2 * n3 <= sig_high() * 256 * 4096) by (nonlinear_arith)
        requires mp * n1 * n2 <= sig_high() * 256, n3 <= 4096;
    assert(mp * n1 * n2 * n3 * n4 <= sig_high() * 256 * 4096 * sig_high()) by (nonlinear_arith)
        requires mp * n1 * n2 * n3 <= sig_high() * 256 * 4096, n4 <= sig_high();
    let num: u128 = mp * n1 * n2 * n3 * n4;
    assert(d2 * d3 <= 2 * sig_high() * 100 * sig_high()) by (nonlinear_arith)
        requires d2 <= 2 * sig_high(), d3 <= 100 * sig_high();
    assert(d2 * d3 * d4 <= 2 * sig_high() * 100 * sig_high() * 4096) by (nonlinear_arith)
        requires d2 * d3 <= 2 * sig_high() * 100 * sig_high(), d4 <= 4096;
    let den: u128 = d2 * d3 * d4;
    assert(den >= 1) by (nonlinear_arith)
        requires den == d2 * d3 * d4, d2 >= 1, d3 >= 1, d4 >= 1;
    let t = round_even_exec(num, den);
    proof {
        let u = nearest_double(used as nat, 100);
        let b = nearest_double(budget as nat, 1);
        let q = nearest_double(u.0, b.0);
        let p = nearest_double(q.0 * 100, 1);
        assert(n1 == pos_pow(p.1) && neg_pow(p.1) == 1);
        assert(n2 == pos_pow(q.1) && d2 == neg_pow(q.1));
        assert(n3 == pos_pow(u.1) && d3 == neg_pow(u.1));
        assert(n4 == neg_pow(b.1) && d4 == pos_pow(b.1));
        assert(den == neg_pow(p.1) * neg_pow(q.1) * neg_pow(u.1) * pos_pow(b.1));
    }
    t
}

/// Appends `v` hundredths printed with two decimals.
pub fn push_centi_two(out: &mut String, v: Centi)
    ensures
        final(out)@ == old(out)@ + centi_two(v as nat),
{
    let t = printed_centi_exec(v, 100);
    let whole = decimal_string_wide(t / 100);
    out.append(whole.as_str());
    proof { reveal_strlit("."); }
    out.append(".");
    out.append(digit_str(((t % 100) / 10) as u64));
    out.append(digit_str((t % 10) as u64));
    assert(final(out)@ =~= old(out)@ + centi_two(v as nat));
}

/// Appends `v` hundredths printed with one decimal.
pub fn push_centi_one(out: &mut String, v: Centi)
    ensures
        final(out)@ == old(out)@ + centi_one(v as nat),
{
    let t = printed_centi_exec(v, 10);
    let whole = decimal_string_wide(t / 10);
    out.append(whole.as_str());
    proof { reveal_strlit("."); }
    out.append(".");
    out.append(digit_str((t % 10) as u64));
    assert(final(out)@ =~= old(out)@ + centi_one(v as nat));
}

} // verus!
