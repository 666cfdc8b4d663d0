use vstd::prelude::*;

use crate::stopwatch::sat_sub;
use crate::text::{decimal, lemma_decimal_len, push_decimal, push_repeat, repeat};

verus! {

/// How far a phase has come, as the fraction `num / den`.
#[derive(Debug, Clone, Copy, PartialEq, Eq, Structural)]
pub struct Ratio {
    pub num: u64,
    pub den: u64,
}

impl Ratio {
    /// The fraction lies in `[0, 1]`.
    pub open spec fn in_unit(self) -> bool {
        0 < self.den && self.num <= self.den
    }

    pub open spec fn is_one(self) -> bool {
        self.num == self.den
    }

    /// `self <= other` as fractions.
    pub open spec fn le(self, other: Ratio) -> bool {
        self.num * other.den <= other.num * self.den
    }
}

/// `elapsed / target` held at 1; a zero target counts as complete.
pub open spec fn ratio_of(elapsed: u64, target: u64) -> Ratio {
    if target == 0 {
        Ratio { num: 1, den: 1 }
    } else if elapsed >= target {
        Ratio { num: target, den: target }
    } else {
        Ratio { num: elapsed, den: target }
    }
}

pub fn progress_ratio(elapsed: u64, target: u64) -> (r: Ratio)
    ensures
        r == ratio_of(elapsed, target),
        r.in_unit(),
{
    if target == 0 {
        Ratio { num: 1, den: 1 }
    } else if elapsed >= target {
        Ratio { num: target, den: target }
    } else {
        Ratio { num: elapsed, den: target }
    }
}

/// For a positive target the ratio lies in `[0, 1]`, does not decrease as
/// the elapsed time grows, and is 1 once the target is reached.
pub proof fn lemma_ratio_bounds(e1: u64, e2: u64, t: u64)
    requires
        t > 0,
    ensures
        ratio_of(e1, t).in_unit(),
        e1 <= e2 ==> ratio_of(e1, t).le(ratio_of(e2, t)),
        e1 >= t ==> ratio_of(e1, t).is_one(),
{
    if e1 <= e2 {
        let a = ratio_of(e1, t);
        let b = ratio_of(e2, t);
        assert(a.den == t && b.den == t);
        assert(a.num <= b.num);
        assert(a.num * t <= b.num * t) by (nonlinear_arith)
            requires
                a.num <= b.num,
        ;
    }
}

/// A zero target gives the ratio 1 whatever the elapsed time.
pub proof fn lemma_ratio_zero_target(e: u64)
    ensures
        ratio_of(e, 0).is_one(),
        ratio_of(e, 0).in_unit(),
{
}

/// `width * r`, rounded to the nearest integer, halves up.
pub open spec fn share_of(r: Ratio, width: u64) -> int {
    (width * r.num) / (r.den as int) + if 2 * ((width * r.num) % (r.den as int)) >= r.den {
        1int
    } else {
        0int
    }
}

proof fn lemma_share_le_width(r: Ratio, width: u64)
    requires
        r.in_unit(),
    ensures
        0 <= share_of(r, width) <= width,
{
    let a = width * r.num;
    let d = r.den as int;
    assert(0 <= a <= width * d) by (nonlinear_arith)
        requires
            a == width * r.num,
            r.num <= d,
            0 <= r.num,
    ;
    let q = a / d;
    let m = a % d;
    assert(a == d * q + m && 0 <= m < d) by (nonlinear_arith)
        requires
            d > 0,
            q == a / d,
            m == a % d,
    ;
    assert(q <= width) by (nonlinear_arith)
        requires
            a == d * q + m,
            0 <= m,
            a <= width * d,
            d > 0,
    ;
    if q == width as int {
        assert(m == 0) by (nonlinear_arith)
            requires
                a == d * q + m,
                q == width,
                a <= width * d,
                0 <= m,
        ;
    }
    assert(q >= 0) by (nonlinear_arith)
        requires
            a >= 0,
            d > 0,
            q == a / d,
    ;
}

/// `width * r` rounded to the nearest integer, halves up.
pub fn share(r: Ratio, width: u64) -> (n: u64)
    requires
        r.in_unit(),
    ensures
        n == share_of(r, width),
        n <= width,
{
    proof {
        lemma_share_le_width(r, width);
        assert((width as int) * (r.num as int) <= u64::MAX * u64::MAX) by (nonlinear_arith)
            requires
                width <= u64::MAX,
                r.num <= u64::MAX,
                0 <= width,
                0 <= r.num,
        ;
    }
    let a: u128 = (width as u128) * (r.num as u128);
    let d: u128 = r.den as u128;
    let q: u128 = a / d;
    let m: u128 = a % d;
    let up: u128 = if 2 * m >= d {
        1
    } else {
        0
    };
    (q + up) as u64
}

/// The percentage of the phase done, rounded to the nearest integer.
pub fn percent(elapsed: u64, target: u64) -> (p: u64)
    ensures
        p == share_of(ratio_of(elapsed, target), 100),
        p <= 100,
{
    share(progress_ratio(elapsed, target), 100)
}

/// Time left until the target, zero once it is reached.
pub fn time_remaining(elapsed: u64, target: u64) -> (r: u64)
    ensures
        r == sat_sub(target, elapsed),
{
    target.saturating_sub(elapsed)
}

/// Time spent beyond the target, zero before it is reached.
pub fn overrun(elapsed: u64, target: u64) -> (r: u64)
    ensures
        r == sat_sub(elapsed, target),
{
    elapsed.saturating_sub(target)
}

/// A percentage right-aligned in three columns, then `%`.
pub open spec fn percent_text(p: nat) -> Seq<char> {
    repeat(' ', (3 - decimal(p).len()) as nat) + decimal(p) + seq!['%']
}

/// A bar of `width` cells, the share done drawn full, then the percentage:
/// `[███-------]  30%`.
pub open spec fn bar_text(elapsed: u64, target: u64, width: u64) -> Seq<char> {
    let r = ratio_of(elapsed, target);
    let filled = share_of(r, width);
    seq!['['] + repeat('█', filled as nat) + repeat('-', (width - filled) as nat) + seq![
        ']',
        ' ',
    ] + percent_text(share_of(r, 100) as nat)
}

pub fn progress_bar(elapsed: u64, target: u64, width: usize) -> (r: String)
    ensures
        r@ == bar_text(elapsed, target, width as u64),
{
    proof {
        reveal_strlit("[");
        reveal_strlit("█");
        reveal_strlit("-");
        reveal_strlit("] ");
        reveal_strlit(" ");
        reveal_strlit("%");
    }
    let ratio = progress_ratio(elapsed, target);
    let w = width as u64;
    let filled = share(ratio, w);
    let p = share(ratio, 100);
    proof {
        lemma_decimal_len(p as nat);
    }
    let mut out = String::from_str("[");
    push_repeat(&mut out, "█", filled as usize);
    push_repeat(&mut out, "-", (w - filled) as usize);
    out.append("] ");
    let ghost before_pad = out@;
    if p < 10 {
        push_repeat(&mut out, " ", 2);
    } else if p < 100 {
        push_repeat(&mut out, " ", 1);
    }
    assert(out@ =~= before_pad + repeat(' ', (3 - decimal(p as nat).len()) as nat));
    push_decimal(&mut out, p);
    out.append("%");
    assert(out@ =~= bar_text(elapsed, target, w));
    out
}

} // verus!
