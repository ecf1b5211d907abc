//! Exact width:height ratios of unsigned integers, always held in lowest terms.
use vstd::prelude::*;

verus! {

/// Greatest common divisor, by Euclid's algorithm; `gcd(n, 0) == n`.
pub open spec fn gcd(a: nat, b: nat) -> nat
    decreases b,
{
    if b == 0 {
        a
    } else {
        gcd(b, a % b)
    }
}

/// Relies on `num::rational::Ratio::new`: it divides numerator and
/// denominator by their greatest common divisor (and panics on a zero
/// denominator, which `requires` leaves out).
#[verifier::external_body]
fn reduce(numer: u32, denom: u32) -> (r: (u32, u32))
    requires
        denom != 0,
    ensures
        r.0 == numer as nat / gcd(numer as nat, denom as nat),
        r.1 == denom as nat / gcd(numer as nat, denom as nat),
{
    let q = num::rational::Ratio::new(numer, denom);
    (*q.numer(), *q.denom())
}

/// The common divisor that `gcd` computes divides both of its arguments.
pub proof fn lemma_gcd_divides(a: nat, b: nat)
    requires
        a > 0 || b > 0,
    ensures
        gcd(a, b) > 0,
        a % gcd(a, b) == 0,
        b % gcd(a, b) == 0,
    decreases b,
{
    if b > 0 {
        lemma_gcd_divides(b, a % b);
        let g = gcd(b, a % b);
        let q = a / b;
        vstd::arithmetic::div_mod::lemma_fundamental_div_mod(a as int, b as int);
        // a == b * q + a % b, and g divides both b and a % b
        let (kb, km) = (b / g, (a % b) / g);
        vstd::arithmetic::div_mod::lemma_fundamental_div_mod(b as int, g as int);
        vstd::arithmetic::div_mod::lemma_fundamental_div_mod((a % b) as int, g as int);
        assert(a == g * (kb * q + km)) by (nonlinear_arith)
            requires
                a == b * q + a % b,
                b == g * kb,
                a % b == g * km,
        ;
        let k: int = (kb * q + km) as int;
        vstd::arithmetic::div_mod::lemma_mod_multiples_basic(k, g as int);
        assert(a as int == k * g) by (nonlinear_arith)
            requires
                a == g * (kb * q + km),
                k == kb * q + km,
        ;
    }
}

/// `Ratio::spec_new(numer, denom)` is well formed, has the value
/// `numer / denom`, and is zero only where `numer` is.
pub proof fn lemma_spec_new(numer: u32, denom: u32)
    requires
        denom != 0,
    ensures
        Ratio::spec_new(numer, denom).wf(),
        Ratio::spec_new(numer, denom).numer_spec() * denom == numer * Ratio::spec_new(
            numer,
            denom,
        ).denom_spec(),
        numer > 0 ==> Ratio::spec_new(numer, denom).numer_spec() > 0,
{
    let g = gcd(numer as nat, denom as nat);
    lemma_gcd_divides(numer as nat, denom as nat);
    let n = numer as nat / g;
    let d = denom as nat / g;
    vstd::arithmetic::div_mod::lemma_fundamental_div_mod(numer as int, g as int);
    vstd::arithmetic::div_mod::lemma_fundamental_div_mod(denom as int, g as int);
    vstd::arithmetic::div_mod::lemma_div_is_ordered_by_denominator(numer as int, 1, g as int);
    vstd::arithmetic::div_mod::lemma_div_is_ordered_by_denominator(denom as int, 1, g as int);
    assert(n * denom == numer * d) by (nonlinear_arith)
        requires
            numer == g * n,
            denom == g * d,
    ;
    assert(d > 0) by (nonlinear_arith)
        requires
            denom == g * d,
            denom > 0,
    ;
    assert(numer > 0 ==> n > 0) by (nonlinear_arith)
        requires
            numer == g * n,
    ;
}

/// A width:height ratio in lowest terms, with a positive denominator.
#[derive(Clone, Copy, Debug, PartialEq, Eq, Structural)]
pub struct Ratio {
    numer: u32,
    denom: u32,
}

impl Ratio {
    pub open spec fn wf(self) -> bool {
        self.denom_spec() > 0
    }

    pub closed spec fn numer_spec(self) -> u32 {
        self.numer
    }

    pub closed spec fn denom_spec(self) -> u32 {
        self.denom
    }

    /// The reciprocal, `denom / numer`.
    pub closed spec fn spec_recip(self) -> Ratio {
        Ratio { numer: self.denom, denom: self.numer }
    }

    /// The ratio that `new(numer, denom)` returns.
    pub closed spec fn spec_new(numer: u32, denom: u32) -> Ratio {
        Ratio {
            numer: (numer as nat / gcd(numer as nat, denom as nat)) as u32,
            denom: (denom as nat / gcd(numer as nat, denom as nat)) as u32,
        }
    }

    /// The ratio `numer / denom`, reduced to lowest terms.
    pub fn new(numer: u32, denom: u32) -> (r: Ratio)
        requires
            denom != 0,
        ensures
            r.wf(),
            r.numer_spec() == numer as nat / gcd(numer as nat, denom as nat),
            r.denom_spec() == denom as nat / gcd(numer as nat, denom as nat),
            r.numer_spec() * denom == numer * r.denom_spec(),
            numer > 0 ==> r.numer_spec() > 0,
            r == Ratio::spec_new(numer, denom),
    {
        let (n, d) = reduce(numer, denom);
        proof {
            lemma_spec_new(numer, denom);
        }
        Ratio { numer: n, denom: d }
    }

    /// The whole number `n`, as `n / 1`.
    pub fn from_integer(n: u32) -> (r: Ratio)
        ensures
            r.wf(),
            r.numer_spec() == n,
            r.denom_spec() == 1,
    {
        Ratio { numer: n, denom: 1 }
    }

    pub fn numer(&self) -> (r: u32)
        ensures
            r == self.numer_spec(),
    {
        self.numer
    }

    pub fn denom(&self) -> (r: u32)
        ensures
            r == self.denom_spec(),
    {
        self.denom
    }

    /// The reciprocal `denom / numer`; a zero ratio has none.
    pub fn recip(&self) -> (r: Ratio)
        requires
            self.numer_spec() > 0,
        ensures
            r.wf(),
            r.numer_spec() == self.denom_spec(),
            r.denom_spec() == self.numer_spec(),
            r == self.spec_recip(),
    {
        Ratio { numer: self.denom, denom: self.numer }
    }
}

} // verus!
