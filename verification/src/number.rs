//! Cell numbers as fixed-point decimals.
//!
//! A [`Num`] holds a sign, a whole part and a fraction in billionths
//! (nine decimal places). Every value renders to an exact decimal
//! string, and comparisons are exact integer comparisons, so the
//! worksheet's number handling carries proofs instead of rounding
//! surprises.

use crate::render::{dec_u64, spec_dec_fixed};
use crate::spec_dec_u64;
use vstd::prelude::*;
use vstd::string::*;

verus! {

/// One billion: the scale of the fractional part.
pub const BILLION: u64 = 1_000_000_000;

/// A fixed-point decimal: `±(whole + frac / 1_000_000_000)`.
#[derive(Clone, Copy, Debug)]
pub struct Num {
    neg: bool,
    whole: u64,
    frac: u32,
}

impl View for Num {
    type V = int;

    /// The value scaled to billionths.
    closed spec fn view(&self) -> int {
        if self.neg {
            -(self.whole * 1_000_000_000 + self.frac)
        } else {
            self.whole * 1_000_000_000 + self.frac
        }
    }
}

impl Num {
    /// A well-formed number: the fraction is in range and zero is not
    /// negative, so equal values are equal structures.
    pub closed spec fn wf(self) -> bool {
        self.frac < 1_000_000_000 && (self.neg ==> self.whole + self.frac > 0)
    }

    /// Zero.
    pub fn zero() -> (r: Num)
        ensures
            r.wf(),
            r@ == 0,
    {
        Num { neg: false, whole: 0, frac: 0 }
    }

    /// The number with the given sign, whole part and billionths.
    /// A zero magnitude loses its sign.
    pub fn from_parts(neg: bool, whole: u64, billionths: u32) -> (r: Num)
        requires
            billionths < 1_000_000_000,
        ensures
            r.wf(),
            r@ == if neg {
                -(whole * 1_000_000_000 + billionths)
            } else {
                whole * 1_000_000_000 + billionths as int
            },
    {
        if whole == 0 && billionths == 0 {
            Num { neg: false, whole, frac: billionths }
        } else {
            Num { neg, whole, frac: billionths }
        }
    }

    /// The whole number `i`.
    pub fn from_int(i: i32) -> (r: Num)
        ensures
            r.wf(),
            r@ == i * 1_000_000_000,
    {
        if i < 0 {
            let mag: u64 = (-(i as i64)) as u64;
            proof {
                assert(mag == -(i as int));
            }
            Num { neg: true, whole: mag, frac: 0 }
        } else {
            Num { neg: false, whole: i as u64, frac: 0 }
        }
    }

    /// Whether the value is zero.
    pub fn is_zero(&self) -> (r: bool)
        requires
            self.wf(),
        ensures
            r == (self@ == 0),
    {
        !self.neg && self.whole == 0 && self.frac == 0
    }

    /// Whether two numbers have the same value.
    pub fn eq_num(&self, other: &Num) -> (r: bool)
        requires
            self.wf(),
            other.wf(),
        ensures
            r == (self@ == other@),
    {
        proof {
            lemma_value_parts(*self, *other);
        }
        self.neg == other.neg && self.whole == other.whole && self.frac == other.frac
    }

    /// Whether `self` is strictly below `other`.
    pub fn lt_num(&self, other: &Num) -> (r: bool)
        requires
            self.wf(),
            other.wf(),
        ensures
            r == (self@ < other@),
    {
        proof {
            lemma_value_parts(*self, *other);
        }
        if self.neg != other.neg {
            self.neg
        } else if self.neg {
            other.whole < self.whole || (other.whole == self.whole && other.frac < self.frac)
        } else {
            self.whole < other.whole || (self.whole == other.whole && self.frac < other.frac)
        }
    }

    /// Whether `self` is at or below `other`.
    pub fn le_num(&self, other: &Num) -> (r: bool)
        requires
            self.wf(),
            other.wf(),
        ensures
            r == (self@ <= other@),
    {
        !other.lt_num(self)
    }

    /// The rendered decimal text of the value.
    pub open spec fn spec_render(v: int) -> Seq<char> {
        if v < 0 {
            "-"@ + Self::spec_render_mag((-v) as nat)
        } else {
            Self::spec_render_mag(v as nat)
        }
    }

    /// The rendered text of a non-negative value in billionths: the
    /// whole part, then a point and the fraction digits with trailing
    /// zeros removed, when the fraction is not zero.
    pub open spec fn spec_render_mag(mag: nat) -> Seq<char> {
        let whole = mag / 1_000_000_000;
        let frac = mag % 1_000_000_000;
        if frac == 0 {
            spec_dec_u64(whole)
        } else {
            spec_dec_u64(whole) + "."@ + spec_trim_zeros(spec_dec_fixed(frac, 9))
        }
    }

    /// Render the value as its exact decimal string.
    pub fn render(&self) -> (r: String)
        requires
            self.wf(),
        ensures
            r@ == Self::spec_render(self@),
    {
        proof {
            lemma_parts_of_value(*self);
        }
        let mut s = if self.neg {
            String::from_str("-")
        } else {
            String::new()
        };
        let whole_str = dec_u64(self.whole);
        s.append(whole_str.as_str());
        if self.frac > 0 {
            s.append(".");
            let digits = crate::render::dec_fixed(self.frac as u64, 9);
            let trimmed = trim_trailing_zeros(&digits);
            s.append(trimmed.as_str());
        }
        proof {
            assert(s@ =~= Self::spec_render(self@));
        }
        s
    }
}

/// `s` with every trailing `'0'` removed.
pub open spec fn spec_trim_zeros(s: Seq<char>) -> Seq<char>
    decreases s.len(),
{
    if s.len() > 0 && s.last() == '0' {
        spec_trim_zeros(s.drop_last())
    } else {
        s
    }
}

pub fn trim_trailing_zeros(s: &String) -> (r: String)
    ensures
        r@ == spec_trim_zeros(s@),
{
    let n = s.as_str().unicode_len();
    let mut k: usize = n;
    proof {
        assert(s@.subrange(0, n as int) =~= s@);
    }
    while k > 0 && s.as_str().get_char(k - 1) == '0'
        invariant
            k <= n,
            n == s@.len(),
            spec_trim_zeros(s@) == spec_trim_zeros(s@.subrange(0, k as int)),
        decreases k,
    {
        proof {
            let cur = s@.subrange(0, k as int);
            assert(cur.drop_last() =~= s@.subrange(0, k - 1 as int));
        }
        k = k - 1;
    }
    let r = String::from_str(s.as_str().substring_char(0, k));
    proof {
        let cur = s@.subrange(0, k as int);
        if k > 0 {
            assert(cur.last() == s@[k - 1 as int]);
        }
        assert(spec_trim_zeros(cur) == cur);
        assert(r@ =~= cur);
    }
    r
}

/// Two well-formed numbers compare by value exactly as their parts
/// compare lexicographically.
proof fn lemma_value_parts(a: Num, b: Num)
    requires
        a.wf(),
        b.wf(),
    ensures
        (a@ == b@) == (a.neg == b.neg && a.whole == b.whole && a.frac == b.frac),
        a.neg && !b.neg ==> a@ < b@,
        !a.neg && b.neg ==> a@ > b@,
        (!a.neg && !b.neg) ==> ((a@ < b@) == (a.whole < b.whole || (a.whole == b.whole && a.frac
            < b.frac))),
        (a.neg && b.neg) ==> ((a@ < b@) == (b.whole < a.whole || (b.whole == a.whole && b.frac
            < a.frac))),
{
    assert((a.whole * 1_000_000_000 + a.frac == b.whole * 1_000_000_000 + b.frac) == (a.whole
        == b.whole && a.frac == b.frac)) by (nonlinear_arith)
        requires
            a.frac < 1_000_000_000,
            b.frac < 1_000_000_000,
    ;
    assert((a.whole * 1_000_000_000 + a.frac < b.whole * 1_000_000_000 + b.frac) == (a.whole
        < b.whole || (a.whole == b.whole && a.frac < b.frac))) by (nonlinear_arith)
        requires
            a.frac < 1_000_000_000,
            b.frac < 1_000_000_000,
    ;
    assert((b.whole * 1_000_000_000 + b.frac < a.whole * 1_000_000_000 + a.frac) == (b.whole
        < a.whole || (b.whole == a.whole && b.frac < a.frac))) by (nonlinear_arith)
        requires
            a.frac < 1_000_000_000,
            b.frac < 1_000_000_000,
    ;
}

/// The parts of a well-formed number are the division and remainder of
/// its magnitude by a billion.
proof fn lemma_parts_of_value(a: Num)
    requires
        a.wf(),
    ensures
        a.neg ==> a@ < 0 && (-a@) as nat / 1_000_000_000 == a.whole && (-a@) as nat % 1_000_000_000
            == a.frac,
        !a.neg ==> a@ >= 0 && a@ as nat / 1_000_000_000 == a.whole && a@ as nat % 1_000_000_000
            == a.frac,
{
    assert((a.whole * 1_000_000_000 + a.frac) / 1_000_000_000 == a.whole as int
        && (a.whole * 1_000_000_000 + a.frac) % 1_000_000_000 == a.frac as int)
        by (nonlinear_arith)
        requires
            a.frac < 1_000_000_000,
    ;
}

} // verus!
