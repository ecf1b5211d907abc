//! Bordering one decoded image: choosing the ratio, sizing the canvas and
//! compositing.
use vstd::prelude::*;
use crate::canvas::{adjust, adjust_defined, adjusted, adjusted_wide};
use crate::image::{add_border, bordered_pixel, Image};
use crate::matching::{approximation, best_match};
use crate::ratio::Ratio;

verus! {

/// The ratio can be chosen for an image of `dims`: a forced ratio with forced
/// orientation is taken as it is; a forced ratio alone needs a reciprocal and
/// an image of positive size; the common ratios need a positive height, and a
/// positive width where there are any.
pub open spec fn ratio_defined(
    dims: (u32, u32),
    common: Seq<Ratio>,
    force_ratio: Option<Ratio>,
    force_orientation: bool,
) -> bool {
    match force_ratio {
        Some(r) => force_orientation || (r.numer_spec() > 0 && dims.0 > 0 && dims.1 > 0),
        None => dims.1 > 0 && (common.len() > 0 ==> dims.0 > 0),
    }
}

/// The ratio of the bordered canvas: a forced ratio with forced orientation;
/// otherwise the best match among a forced ratio and its reciprocal, in that
/// order; otherwise the best match among the common ratios.
pub open spec fn final_ratio(
    dims: (u32, u32),
    common: Seq<Ratio>,
    force_ratio: Option<Ratio>,
    force_orientation: bool,
) -> Ratio {
    match force_ratio {
        Some(r) => if force_orientation {
            r
        } else {
            best_match(seq![r, r.spec_recip()], Ratio::spec_new(dims.0, dims.1))
        },
        None => best_match(common, Ratio::spec_new(dims.0, dims.1)),
    }
}

/// The image can be bordered: the ratio can be chosen, the canvas it gives
/// fits in `u32` dimensions, and it holds the image.
pub open spec fn border_possible(
    dims: (u32, u32),
    border: u32,
    common: Seq<Ratio>,
    force_ratio: Option<Ratio>,
    force_orientation: bool,
) -> bool {
    let ratio = final_ratio(dims, common, force_ratio, force_orientation);
    &&& ratio_defined(dims, common, force_ratio, force_orientation)
    &&& adjust_defined(dims, border, ratio)
    &&& adjusted(dims, border, ratio).0 >= dims.0
    &&& adjusted(dims, border, ratio).1 >= dims.1
}

/// Border `image` with `border` pixels of white on its larger dimension, on a
/// canvas whose ratio is forced by `force_ratio` or matched among `common`,
/// with the image centered on it. `None` where that cannot be done.
pub fn border_image(
    image: &Image,
    border: u32,
    common: &[Ratio],
    force_ratio: Option<Ratio>,
    force_orientation: bool,
) -> (r: Option<Image>)
    requires
        image.wf(),
        forall|i: int| 0 <= i < common@.len() ==> (#[trigger] common@[i]).wf(),
        force_ratio matches Some(f) ==> f.wf(),
    ensures
        r.is_some() <==> border_possible(
            (image.width_spec(), image.height_spec()),
            border,
            common@,
            force_ratio,
            force_orientation,
        ),
        r matches Some(out) ==> {
            let dims = (image.width_spec(), image.height_spec());
            let canvas = adjusted(
                dims,
                border,
                final_ratio(dims, common@, force_ratio, force_orientation),
            );
            &&& out.wf()
            &&& out.width_spec() == canvas.0
            &&& out.height_spec() == canvas.1
            &&& forall|y: int, x: int|
                0 <= y < canvas.1 && 0 <= x < canvas.0 ==> #[trigger] out@[y][x] == bordered_pixel(
                    *image,
                    canvas.0 as u32,
                    canvas.1 as u32,
                    x,
                    y,
                )
        },
{
    let dims = (image.width(), image.height());
    let ratio = match force_ratio {
        Some(f) => {
            if force_orientation {
                f
            } else {
                if f.numer() == 0 || dims.0 == 0 || dims.1 == 0 {
                    return None;
                }
                let options = vec![f, f.recip()];
                proof {
                    assert(options@ =~= seq![f, f.spec_recip()]);
                }
                approximation(dims, options.as_slice())
            }
        },
        None => {
            if dims.1 == 0 || (common.len() > 0 && dims.0 == 0) {
                return None;
            }
            approximation(dims, common)
        },
    };
    if dims.0 > dims.1 && ratio.numer() == 0 {
        return None;
    }
    let (w, h) = adjusted_wide(dims, border, ratio);
    if w > u32::MAX as u128 || h > u32::MAX as u128 || w < dims.0 as u128 || h < dims.1 as u128 {
        return None;
    }
    let canvas = adjust(dims, border, ratio);
    Some(add_border(image, canvas))
}

} // verus!
