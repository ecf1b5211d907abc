//! Sizing the bordered canvas.
use vstd::prelude::*;
use crate::ratio::Ratio;

verus! {

/// The canvas for an image of `dims` (width, height) with `border` pixels of
/// border at the given ratio: the border is added to the larger dimension
/// (to the height when the two are equal) and the other one follows from the
/// ratio, truncated.
pub open spec fn adjusted(dims: (u32, u32), border: u32, ratio: Ratio) -> (int, int) {
    if dims.0 > dims.1 {
        let w = dims.0 + border;
        (w, w * ratio.denom_spec() / ratio.numer_spec() as int)
    } else {
        let h = dims.1 + border;
        (h * ratio.numer_spec() / ratio.denom_spec() as int, h)
    }
}

/// `adjust` is defined on these inputs: the ratio can be divided by, and both
/// dimensions of the canvas fit in a `u32`.
pub open spec fn adjust_defined(dims: (u32, u32), border: u32, ratio: Ratio) -> bool {
    &&& ratio.wf()
    &&& dims.0 > dims.1 ==> ratio.numer_spec() > 0
    &&& 0 <= adjusted(dims, border, ratio).0 <= u32::MAX
    &&& 0 <= adjusted(dims, border, ratio).1 <= u32::MAX
}

/// `adjusted(dims, border, ratio)`, computed wide enough that nothing
/// overflows.
pub fn adjusted_wide(dims: (u32, u32), border: u32, ratio: Ratio) -> (r: (u128, u128))
    requires
        ratio.wf(),
        dims.0 > dims.1 ==> ratio.numer_spec() > 0,
    ensures
        r.0 == adjusted(dims, border, ratio).0,
        r.1 == adjusted(dims, border, ratio).1,
{
    let (width, height) = dims;
    let n = ratio.numer() as u128;
    let d = ratio.denom() as u128;
    if width > height {
        let new_w = width as u128 + border as u128;
        proof {
            assert(new_w * d <= u128::MAX) by (nonlinear_arith)
                requires
                    new_w <= 2 * u32::MAX,
                    d <= u32::MAX,
            ;
        }
        (new_w, new_w * d / n)
    } else {
        let new_h = height as u128 + border as u128;
        proof {
            assert(new_h * n <= u128::MAX) by (nonlinear_arith)
                requires
                    new_h <= 2 * u32::MAX,
                    n <= u32::MAX,
            ;
        }
        (new_h * n / d, new_h)
    }
}

/// Adjust a pair of dimensions to hold a border while meeting a ratio: the
/// border size is always kept on the larger dimension, and the smaller one
/// gets what the ratio asks for.
pub fn adjust(dims: (u32, u32), border: u32, ratio: Ratio) -> (r: (u32, u32))
    requires
        adjust_defined(dims, border, ratio),
    ensures
        r.0 == adjusted(dims, border, ratio).0,
        r.1 == adjusted(dims, border, ratio).1,
{
    let (w, h) = adjusted_wide(dims, border, ratio);
    (w as u32, h as u32)
}

} // verus!
