//! Choosing, among candidate ratios, the one that best matches an image.
use vstd::prelude::*;
use crate::ratio::{lemma_spec_new, Ratio};

verus! {

/// Numerator of `proximity(a, b)`: `|a.numer * b.denom - a.denom * b.numer|`.
pub open spec fn prox_numer(a: Ratio, b: Ratio) -> int {
    let x = a.numer_spec() * b.denom_spec();
    let y = a.denom_spec() * b.numer_spec();
    if x > y {
        x - y
    } else {
        y - x
    }
}

/// Denominator of `proximity(a, b)`: `a.denom * b.numer`.
pub open spec fn prox_denom(a: Ratio, b: Ratio) -> int {
    a.denom_spec() * b.numer_spec()
}

/// `p / q < r / s` for positive `q` and `s`.
pub open spec fn frac_lt(p: int, q: int, r: int, s: int) -> bool {
    p * s < r * q
}

/// Candidate `c` matches `target` strictly better than candidate `d`.
pub open spec fn closer(c: Ratio, d: Ratio, target: Ratio) -> bool {
    frac_lt(prox_numer(c, target), prox_denom(c, target), prox_numer(d, target), prox_denom(d, target))
}

/// The ratio that `approximation` returns for candidates `cands` and the
/// image's own ratio `raw`: a left-to-right scan that replaces the best so far
/// only by a strictly closer candidate, and `raw` itself when there is none.
pub open spec fn best_match(cands: Seq<Ratio>, raw: Ratio) -> Ratio
    decreases cands.len(),
{
    if cands.len() == 0 {
        raw
    } else if cands.len() == 1 {
        cands[0]
    } else {
        let prev = best_match(cands.drop_last(), raw);
        if closer(cands.last(), prev, raw) {
            cands.last()
        } else {
            prev
        }
    }
}

proof fn lemma_product_fits(x: u64, y: u64)
    ensures
        0 <= x * y <= u128::MAX,
{
    assert(0 <= x * y <= u128::MAX) by (nonlinear_arith)
        requires
            x <= u64::MAX,
            y <= u64::MAX,
    ;
}

proof fn lemma_small_product_fits(x: u32, y: u32)
    ensures
        0 <= x * y <= u64::MAX,
{
    assert(0 <= x * y <= u64::MAX) by (nonlinear_arith)
        requires
            x <= u32::MAX,
            y <= u32::MAX,
    ;
}

proof fn lemma_frac_lt_le_trans(a: int, b: int, c: int, d: int, e: int, f: int)
    requires
        b > 0,
        d > 0,
        f > 0,
        frac_lt(a, b, c, d),
        !frac_lt(e, f, c, d),
    ensures
        frac_lt(a, b, e, f),
{
    assert(a * f < e * b) by (nonlinear_arith)
        requires
            b > 0,
            d > 0,
            f > 0,
            a * d < c * b,
            c * f <= e * d,
    ;
}

/// Returns the index of the candidate that `best_match` picks, which no
/// candidate beats and which beats every candidate before it.
proof fn lemma_first_closest_index(cands: Seq<Ratio>, raw: Ratio) -> (i: int)
    requires
        cands.len() > 0,
        raw.wf(),
        raw.numer_spec() > 0,
        forall|k: int| 0 <= k < cands.len() ==> (#[trigger] cands[k]).wf(),
    ensures
        0 <= i < cands.len(),
        cands[i] == best_match(cands, raw),
        forall|j: int| 0 <= j < cands.len() ==> !closer(#[trigger] cands[j], cands[i], raw),
        forall|j: int| 0 <= j < i ==> closer(cands[i], #[trigger] cands[j], raw),
    decreases cands.len(),
{
    if cands.len() == 1 {
        0
    } else {
        let init = cands.drop_last();
        let p = lemma_first_closest_index(init, raw);
        let n = cands.len() - 1;
        let c = cands[n];
        assert(forall|k: int| 0 <= k < n ==> init[k] == cands[k]);
        assert(forall|k: int| 0 <= k < cands.len() ==> prox_denom(#[trigger] cands[k], raw) > 0) by {
            assert forall|k: int| 0 <= k < cands.len() implies prox_denom(#[trigger] cands[k], raw)
                > 0 by {
                let x = cands[k].denom_spec();
                let y = raw.numer_spec();
                assert(x * y > 0) by (nonlinear_arith)
                    requires
                        x > 0,
                        y > 0,
                ;
            }
        }
        if closer(c, cands[p], raw) {
            assert forall|j: int| 0 <= j < n implies closer(c, #[trigger] cands[j], raw) by {
                assert(!closer(init[j], init[p], raw));
                lemma_frac_lt_le_trans(
                    prox_numer(c, raw),
                    prox_denom(c, raw),
                    prox_numer(cands[p], raw),
                    prox_denom(cands[p], raw),
                    prox_numer(cands[j], raw),
                    prox_denom(cands[j], raw),
                );
            }
            n
        } else {
            p
        }
    }
}

/// Over a non-empty list of candidates, `approximation` picks a candidate that
/// no other candidate is strictly closer to the image's ratio than, and that is
/// strictly closer than every candidate before it: of equally close
/// candidates, the first one wins.
pub proof fn lemma_approximation_is_first_closest(dims: (u32, u32), cands: Seq<Ratio>)
    requires
        dims.0 > 0,
        dims.1 > 0,
        cands.len() > 0,
        forall|k: int| 0 <= k < cands.len() ==> (#[trigger] cands[k]).wf(),
    ensures
        exists|i: int|
            0 <= i < cands.len() && #[trigger] cands[i] == best_match(
                cands,
                Ratio::spec_new(dims.0, dims.1),
            ) && (forall|j: int|
                0 <= j < cands.len() ==> !closer(
                    #[trigger] cands[j],
                    cands[i],
                    Ratio::spec_new(dims.0, dims.1),
                )) && (forall|j: int|
                0 <= j < i ==> closer(cands[i], #[trigger] cands[j], Ratio::spec_new(dims.0, dims.1))),
{
    lemma_spec_new(dims.0, dims.1);
    let i = lemma_first_closest_index(cands, Ratio::spec_new(dims.0, dims.1));
}

/// Two ratios of equal value have zero proximity to each other, both ways.
pub proof fn lemma_equal_ratios_zero_proximity(a: Ratio, b: Ratio)
    requires
        a.numer_spec() * b.denom_spec() == b.numer_spec() * a.denom_spec(),
    ensures
        prox_numer(a, b) == 0,
        prox_numer(b, a) == 0,
{
}

/// An exact non-negative fraction with a positive denominator; not reduced.
/// Two proximities are equal when their values are.
#[derive(Clone, Copy, Debug)]
pub struct Proximity {
    numer: u64,
    denom: u64,
}

impl Proximity {
    pub closed spec fn numer_spec(self) -> u64 {
        self.numer
    }

    pub closed spec fn denom_spec(self) -> u64 {
        self.denom
    }

    pub fn new(numer: u64, denom: u64) -> (r: Proximity)
        requires
            denom > 0,
        ensures
            r.numer_spec() == numer,
            r.denom_spec() == denom,
    {
        Proximity { numer, denom }
    }

    pub fn numer(&self) -> (r: u64)
        ensures
            r == self.numer_spec(),
    {
        self.numer
    }

    pub fn denom(&self) -> (r: u64)
        ensures
            r == self.denom_spec(),
    {
        self.denom
    }

    /// `self < other`, compared by value.
    pub fn lt(&self, other: &Proximity) -> (r: bool)
        ensures
            r == frac_lt(
                self.numer_spec() as int,
                self.denom_spec() as int,
                other.numer_spec() as int,
                other.denom_spec() as int,
            ),
    {
        proof {
            lemma_product_fits(self.numer, other.denom);
            lemma_product_fits(other.numer, self.denom);
        }
        (self.numer as u128) * (other.denom as u128) < (other.numer as u128) * (self.denom as u128)
    }
}

impl PartialEq for Proximity {
    fn eq(&self, other: &Proximity) -> (r: bool)
        ensures
            r == (self.numer_spec() * other.denom_spec() == other.numer_spec() * self.denom_spec()),
    {
        proof {
            lemma_product_fits(self.numer, other.denom);
            lemma_product_fits(other.numer, self.denom);
        }
        (self.numer as u128) * (other.denom as u128) == (other.numer as u128) * (self.denom as u128)
    }
}

impl vstd::std_specs::cmp::PartialEqSpecImpl for Proximity {
    open spec fn obeys_eq_spec() -> bool {
        true
    }

    open spec fn eq_spec(&self, other: &Proximity) -> bool {
        self.numer_spec() * other.denom_spec() == other.numer_spec() * self.denom_spec()
    }
}

/// How far `a` is from `b`: `|a / b - 1|`, exactly. Not symmetric.
pub fn proximity(a: &Ratio, b: &Ratio) -> (r: Proximity)
    requires
        a.wf(),
        b.wf(),
        b.numer_spec() > 0,
    ensures
        r.numer_spec() == prox_numer(*a, *b),
        r.denom_spec() == prox_denom(*a, *b),
        r.denom_spec() > 0,
{
    proof {
        lemma_small_product_fits(a.numer_spec(), b.denom_spec());
        lemma_small_product_fits(a.denom_spec(), b.numer_spec());
    }
    let x: u64 = (a.numer() as u64) * (b.denom() as u64);
    let y: u64 = (a.denom() as u64) * (b.numer() as u64);
    let d: u64 = (a.denom() as u64) * (b.numer() as u64);
    proof {
        assert(d > 0) by (nonlinear_arith)
            requires
                d == a.denom_spec() * b.numer_spec(),
                a.denom_spec() > 0,
                b.numer_spec() > 0,
        ;
    }
    if x > y {
        Proximity { numer: x - y, denom: d }
    } else {
        Proximity { numer: y - x, denom: d }
    }
}

/// The candidate that best matches the ratio of `dims` (width, height): the
/// first one of least proximity to it; with no candidate, the image's own
/// ratio in lowest terms.
pub fn approximation(dims: (u32, u32), options: &[Ratio]) -> (r: Ratio)
    requires
        dims.1 > 0,
        options@.len() > 0 ==> dims.0 > 0,
        forall|i: int| 0 <= i < options@.len() ==> (#[trigger] options@[i]).wf(),
    ensures
        r == best_match(options@, Ratio::spec_new(dims.0, dims.1)),
        r.wf(),
{
    let raw = Ratio::new(dims.0, dims.1);
    if options.len() == 0 {
        return raw;
    }
    let mut best: Ratio = options[0];
    let mut best_p = proximity(&best, &raw);
    let mut i: usize = 1;
    proof {
        assert(options@.take(1) =~= seq![options@[0]]);
    }
    while i < options.len()
        invariant
            1 <= i <= options@.len(),
            raw == Ratio::spec_new(dims.0, dims.1),
            raw.wf(),
            raw.numer_spec() > 0,
            forall|k: int| 0 <= k < options@.len() ==> (#[trigger] options@[k]).wf(),
            best == best_match(options@.take(i as int), raw),
            best.wf(),
            best_p.numer_spec() == prox_numer(best, raw),
            best_p.denom_spec() == prox_denom(best, raw),
        decreases options@.len() - i,
    {
        let p = proximity(&options[i], &raw);
        proof {
            assert(options@.take(i + 1).drop_last() =~= options@.take(i as int));
        }
        if p.lt(&best_p) {
            best = options[i];
            best_p = p;
        }
        i = i + 1;
    }
    proof {
        assert(options@.take(options@.len() as int) =~= options@);
    }
    best
}

/// The default candidates, in the order in which they are tried:
/// 1:1, 3:2, 2:3, 4:3, 3:4, 4:5, 5:4, 16:9, 9:16.
pub fn common_ratios() -> (r: Vec<Ratio>)
    ensures
        r@ == seq![
            Ratio::spec_new(1, 1),
            Ratio::spec_new(3, 2),
            Ratio::spec_new(2, 3),
            Ratio::spec_new(4, 3),
            Ratio::spec_new(3, 4),
            Ratio::spec_new(4, 5),
            Ratio::spec_new(5, 4),
            Ratio::spec_new(16, 9),
            Ratio::spec_new(9, 16),
        ],
        forall|i: int| 0 <= i < r@.len() ==> (#[trigger] r@[i]).wf(),
{
    let r = vec![
        Ratio::new(1, 1),
        Ratio::new(3, 2),
        Ratio::new(2, 3),
        Ratio::new(4, 3),
        Ratio::new(3, 4),
        Ratio::new(4, 5),
        Ratio::new(5, 4),
        Ratio::new(16, 9),
        Ratio::new(9, 16),
    ];
    proof {
        assert(r@ =~= seq![
            Ratio::spec_new(1, 1),
            Ratio::spec_new(3, 2),
            Ratio::spec_new(2, 3),
            Ratio::spec_new(4, 3),
            Ratio::spec_new(3, 4),
            Ratio::spec_new(4, 5),
            Ratio::spec_new(5, 4),
            Ratio::spec_new(16, 9),
            Ratio::spec_new(9, 16),
        ]);
    }
    r
}

} // verus!
