use vstd::prelude::*;

verus! {

/// Greatest common divisor, by Euclid's recurrence.
pub open spec fn gcd(a: nat, b: nat) -> nat
    decreases b,
{
    if b == 0 {
        a
    } else {
        gcd(b, a % b)
    }
}

/// The gcd is positive unless both arguments are zero, and divides both.
pub proof fn lemma_gcd_divides(a: nat, b: nat)
    ensures
        (a > 0 || b > 0) ==> gcd(a, b) > 0,
        gcd(a, b) > 0 ==> a % gcd(a, b) == 0 && b % gcd(a, b) == 0,
    decreases b,
{
    if b > 0 {
        let r = a % b;
        lemma_gcd_divides(b, r);
        let d = gcd(b, r);
        assert(d > 0);
        assert(a == b * (a / b) + r) by {
            vstd::arithmetic::div_mod::lemma_fundamental_div_mod(a as int, b as int);
        }
        assert(b == d * (b / d)) by {
            vstd::arithmetic::div_mod::lemma_fundamental_div_mod(b as int, d as int);
        }
        assert(r == d * (r / d)) by {
            vstd::arithmetic::div_mod::lemma_fundamental_div_mod(r as int, d as int);
        }
        let k = (a / b) * (b / d) + r / d;
        assert(a == d * k) by (nonlinear_arith)
            requires
                a == b * (a / b) + r,
                b == d * (b / d),
                r == d * (r / d),
                k == (a / b) * (b / d) + r / d,
        ;
        vstd::arithmetic::div_mod::lemma_mod_multiples_basic(k as int, d as int);
        assert(a % d == 0) by (nonlinear_arith)
            requires
                a == d * k,
                (k * d) % d == 0,
        ;
    }
}

/// Relies on num::integer::gcd, which for unsigned integers returns the
/// greatest common divisor of its arguments (and 0 for 0 and 0).
#[verifier::external_body]
fn gcd_usize(a: usize, b: usize) -> (r: usize)
    ensures
        r == gcd(a as nat, b as nat),
{
    num::integer::gcd(a, b)
}

/// `n * num / den`, rounded down, and `usize::MAX` where that does not fit.
/// A zero denominator gives `usize::MAX` for a positive numerator, 0 otherwise.
pub open spec fn scaled(n: nat, num: nat, den: nat) -> nat {
    if den == 0 {
        if n * num == 0 {
            0
        } else {
            usize::MAX as nat
        }
    } else if (n * num) / den > usize::MAX {
        usize::MAX as nat
    } else {
        (n * num) / den
    }
}

fn scale(n: usize, num: usize, den: usize) -> (r: usize)
    ensures
        r == scaled(n as nat, num as nat, den as nat),
{
    assert((n as nat) * (num as nat) <= u128::MAX) by (nonlinear_arith)
        requires
            n <= u64::MAX,
            num <= u64::MAX,
    ;
    let product: u128 = (n as u128) * (num as u128);
    if den == 0 {
        if product == 0 {
            0
        } else {
            usize::MAX
        }
    } else {
        let q: u128 = product / (den as u128);
        if q > usize::MAX as u128 {
            usize::MAX
        } else {
            q as usize
        }
    }
}

/// A width-to-height ratio kept in lowest terms.
#[derive(Debug, Clone, Copy, PartialEq, Eq, Structural)]
pub struct AspectRatio {
    horizontal: usize,
    vertical: usize,
}

impl View for AspectRatio {
    type V = (nat, nat);

    /// The ratio as (horizontal, vertical).
    closed spec fn view(&self) -> (nat, nat) {
        (self.horizontal as nat, self.vertical as nat)
    }
}

impl AspectRatio {
    /// The ratio `width : height` reduced by the greatest common divisor of
    /// the two. Both zero has no ratio.
    pub fn new(width: usize, height: usize) -> (r: Self)
        requires
            width > 0 || height > 0,
        ensures
            r@.0 == width as nat / gcd(width as nat, height as nat),
            r@.1 == height as nat / gcd(width as nat, height as nat),
            r@.0 * height == r@.1 * width,
            r@.0 > 0 || r@.1 > 0,
    {
        let g = gcd_usize(width, height);
        proof {
            lemma_gcd_divides(width as nat, height as nat);
        }
        let horizontal = width / g;
        let vertical = height / g;
        proof {
            vstd::arithmetic::div_mod::lemma_fundamental_div_mod(width as int, g as int);
            vstd::arithmetic::div_mod::lemma_fundamental_div_mod(height as int, g as int);
            assert(horizontal * height == vertical * width) by (nonlinear_arith)
                requires
                    width == g * horizontal,
                    height == g * vertical,
            ;
            assert(horizontal > 0 || vertical > 0) by (nonlinear_arith)
                requires
                    width == g * horizontal,
                    height == g * vertical,
                    width > 0 || height > 0,
            ;
        }
        Self { horizontal, vertical }
    }

    /// The ratio as (horizontal, vertical).
    pub fn as_tuple(&self) -> (r: (usize, usize))
        ensures
            r.0 == self@.0,
            r.1 == self@.1,
    {
        (self.horizontal, self.vertical)
    }

    pub fn vertical(&self) -> (r: usize)
        ensures
            r == self@.1,
    {
        self.vertical
    }

    pub fn horizontal(&self) -> (r: usize)
        ensures
            r == self@.0,
    {
        self.horizontal
    }

    /// The height that goes with `width` at this ratio, rounded down.
    pub fn height_from_width(&self, width: usize) -> (r: usize)
        ensures
            r == scaled(width as nat, self@.1, self@.0),
    {
        scale(width, self.vertical, self.horizontal)
    }

    /// The width that goes with `height` at this ratio, rounded down.
    pub fn width_from_height(&self, height: usize) -> (r: usize)
        ensures
            r == scaled(height as nat, self@.0, self@.1),
    {
        scale(height, self.horizontal, self.vertical)
    }
}

impl Default for AspectRatio {
    /// The widescreen ratio 16:9.
    fn default() -> (r: Self)
        ensures
            r@ == (16nat, 9nat),
    {
        Self { horizontal: 16, vertical: 9 }
    }
}

/// The ratio of a `(width, height)` pair, as `AspectRatio::new` gives it; the
/// pair `(0, 0)`, which has no ratio, gives `0:0`.
pub open spec fn ratio_of_pair(width: nat, height: nat) -> (nat, nat) {
    if width == 0 && height == 0 {
        (0, 0)
    } else {
        (width / gcd(width, height), height / gcd(width, height))
    }
}

impl From<(usize, usize)> for AspectRatio {
    fn from(val: (usize, usize)) -> (r: Self)
        ensures
            r@ == ratio_of_pair(val.0 as nat, val.1 as nat),
    {
        let (h, v) = val;
        if h == 0 && v == 0 {
            AspectRatio { horizontal: 0, vertical: 0 }
        } else {
            Self::new(h, v)
        }
    }
}

impl vstd::std_specs::convert::FromSpecImpl<(usize, usize)> for AspectRatio {
    open spec fn obeys_from_spec() -> bool {
        true
    }

    closed spec fn from_spec(v: (usize, usize)) -> Self {
        let (h, v) = ratio_of_pair(v.0 as nat, v.1 as nat);
        AspectRatio { horizontal: h as usize, vertical: v as usize }
    }
}

/// Anything laid out as a grid of `width` by `height` cells.
pub trait Rectangle {
    fn width(&self) -> usize;

    fn height(&self) -> usize;
}

} // verus!
