//! Images as rows of RGBA pixels, and compositing an image onto a
//! border-colored canvas.
use vstd::prelude::*;

verus! {

/// One pixel: red, green, blue and alpha channels.
#[derive(Clone, Copy, Debug, PartialEq, Eq, Structural)]
pub struct Rgba {
    pub r: u8,
    pub g: u8,
    pub b: u8,
    pub a: u8,
}

/// What alpha-blending `fg` over `bg` gives where `fg` is neither fully
/// transparent nor fully opaque.
pub uninterp spec fn blend_of(bg: Rgba, fg: Rgba) -> Rgba;

/// Source-over compositing of `fg` onto `bg`: a fully transparent `fg` leaves
/// `bg`, a fully opaque one replaces it.
pub open spec fn over(bg: Rgba, fg: Rgba) -> Rgba {
    if fg.a == 0 {
        bg
    } else if fg.a == 255 {
        fg
    } else {
        blend_of(bg, fg)
    }
}

/// Relies on `image::Pixel::blend` for `image::Rgba<u8>`: it keeps the
/// background for a foreground of alpha 0, takes the foreground for alpha 255,
/// and otherwise blends them, by the channel values alone.
#[verifier::external_body]
fn blend(bg: Rgba, fg: Rgba) -> (r: Rgba)
    ensures
        fg.a == 0 ==> r == bg,
        fg.a == 255 ==> r == fg,
        0 < fg.a < 255 ==> r == blend_of(bg, fg),
{
    let mut p = ::image::Rgba([bg.r, bg.g, bg.b, bg.a]);
    ::image::Pixel::blend(&mut p, &::image::Rgba([fg.r, fg.g, fg.b, fg.a]));
    Rgba { r: p.0[0], g: p.0[1], b: p.0[2], a: p.0[3] }
}

/// The border color: opaque white.
pub open spec fn border_color() -> Rgba {
    Rgba { r: 255, g: 255, b: 255, a: 255 }
}

/// Opaque white, the color of every border.
pub fn white() -> (r: Rgba)
    ensures
        r == border_color(),
{
    Rgba { r: 255, g: 255, b: 255, a: 255 }
}

/// A rectangular image, held as `height` rows of `width` pixels each.
#[derive(Clone, Debug, PartialEq, Eq)]
pub struct Image {
    width: u32,
    height: u32,
    rows: Vec<Vec<Rgba>>,
}

impl Image {
    pub closed spec fn width_spec(self) -> u32 {
        self.width
    }

    pub closed spec fn height_spec(self) -> u32 {
        self.height
    }

    /// The pixels, row by row, top to bottom; each row from left to right.
    pub closed spec fn view(self) -> Seq<Seq<Rgba>> {
        self.rows@.map_values(|row: Vec<Rgba>| row@)
    }

    /// Every row holds `width` pixels, and there are `height` rows.
    pub open spec fn wf(self) -> bool {
        &&& self@.len() == self.height_spec()
        &&& forall|y: int| 0 <= y < self@.len() ==> (#[trigger] self@[y]).len() == self.width_spec()
    }

    /// An image of `width` by `height` pixels, all of them `color`.
    pub fn from_pixel(width: u32, height: u32, color: Rgba) -> (r: Image)
        ensures
            r.wf(),
            r.width_spec() == width,
            r.height_spec() == height,
            forall|y: int, x: int|
                0 <= y < height && 0 <= x < width ==> #[trigger] r@[y][x] == color,
    {
        let mut rows: Vec<Vec<Rgba>> = Vec::new();
        let mut y: u32 = 0;
        while y < height
            invariant
                y <= height,
                rows@.len() == y,
                forall|j: int|
                    0 <= j < y ==> (#[trigger] rows@[j])@.len() == width && forall|i: int|
                        0 <= i < width ==> #[trigger] rows@[j]@[i] == color,
            decreases height - y,
        {
            let mut row: Vec<Rgba> = Vec::new();
            let mut x: u32 = 0;
            while x < width
                invariant
                    x <= width,
                    row@.len() == x,
                    forall|i: int| 0 <= i < x ==> #[trigger] row@[i] == color,
                decreases width - x,
            {
                row.push(color);
                x = x + 1;
            }
            rows.push(row);
            y = y + 1;
        }
        Image { width, height, rows }
    }

    /// The image whose rows are `rows`, if they all have the same length and
    /// both dimensions fit in a `u32`; an image without rows has width zero.
    pub fn from_rows(rows: Vec<Vec<Rgba>>) -> (r: Option<Image>)
        ensures
            r.is_some() <==> (rows@.len() <= u32::MAX && (rows@.len() > 0 ==> rows@[0].len()
                <= u32::MAX && forall|y: int|
                0 <= y < rows@.len() ==> (#[trigger] rows@[y])@.len() == rows@[0]@.len())),
            r.is_some() ==> r.unwrap().wf() && r.unwrap()@ == rows@.map_values(
                |row: Vec<Rgba>| row@,
            ),
    {
        if rows.len() > u32::MAX as usize {
            return None;
        }
        if rows.len() == 0 {
            return Some(Image { width: 0, height: 0, rows });
        }
        let width = rows[0].len();
        if width > u32::MAX as usize {
            return None;
        }
        let mut y: usize = 0;
        while y < rows.len()
            invariant
                0 < rows@.len() <= u32::MAX,
                width == rows@[0]@.len(),
                y <= rows@.len(),
                forall|j: int| 0 <= j < y ==> (#[trigger] rows@[j])@.len() == width,
            decreases rows@.len() - y,
        {
            if rows[y].len() != width {
                return None;
            }
            y = y + 1;
        }
        Some(Image { width: width as u32, height: rows.len() as u32, rows })
    }

    pub fn width(&self) -> (r: u32)
        ensures
            r == self.width_spec(),
    {
        self.width
    }

    pub fn height(&self) -> (r: u32)
        ensures
            r == self.height_spec(),
    {
        self.height
    }

    /// The pixel in column `x` of row `y`.
    pub fn get_pixel(&self, x: u32, y: u32) -> (r: Rgba)
        requires
            self.wf(),
            x < self.width_spec(),
            y < self.height_spec(),
        ensures
            r == self@[y as int][x as int],
    {
        assert(self@[y as int] == self.rows@[y as int]@);
        self.rows[y as usize][x as usize]
    }

    /// The rows of pixels, top to bottom.
    pub fn rows(&self) -> (r: &Vec<Vec<Rgba>>)
        ensures
            r@.map_values(|row: Vec<Rgba>| row@) == self@,
    {
        &self.rows
    }
}

/// Pixel `(x, y)` of `image` bordered to `width` by `height`: the image sits
/// at offset `((width - image width) / 2, (height - image height) / 2)`,
/// blended over the border color; everything else is border. Where a
/// difference is odd, the extra column or row of border is on the right or at
/// the bottom.
pub open spec fn bordered_pixel(image: Image, width: u32, height: u32, x: int, y: int) -> Rgba {
    let ox = (width - image.width_spec()) / 2;
    let oy = (height - image.height_spec()) / 2;
    if ox <= x < ox + image.width_spec() && oy <= y < oy + image.height_spec() {
        over(border_color(), image@[y - oy][x - ox])
    } else {
        border_color()
    }
}

/// Add a white border to an image, up to the final dimensions
/// `final_dims` (width, height), which must hold the image.
pub fn add_border(image: &Image, final_dims: (u32, u32)) -> (r: Image)
    requires
        image.wf(),
        image.width_spec() <= final_dims.0,
        image.height_spec() <= final_dims.1,
    ensures
        r.wf(),
        r.width_spec() == final_dims.0,
        r.height_spec() == final_dims.1,
        forall|y: int, x: int|
            0 <= y < final_dims.1 && 0 <= x < final_dims.0 ==> #[trigger] r@[y][x]
                == bordered_pixel(*image, final_dims.0, final_dims.1, x, y),
{
    let (width, height) = final_dims;
    let iw = image.width();
    let ih = image.height();
    let x_offset = (width - iw) / 2;
    let y_offset = (height - ih) / 2;
    let background = white();
    let mut rows: Vec<Vec<Rgba>> = Vec::new();
    let mut y: u32 = 0;
    while y < height
        invariant
            image.wf(),
            iw == image.width_spec(),
            ih == image.height_spec(),
            iw <= width,
            ih <= height,
            x_offset == (width - iw) / 2,
            y_offset == (height - ih) / 2,
            background == border_color(),
            y <= height,
            rows@.len() == y,
            forall|j: int|
                0 <= j < y ==> (#[trigger] rows@[j])@.len() == width && forall|i: int|
                    0 <= i < width ==> #[trigger] rows@[j]@[i] == bordered_pixel(
                        *image,
                        width,
                        height,
                        i,
                        j,
                    ),
        decreases height - y,
    {
        let mut row: Vec<Rgba> = Vec::new();
        let mut x: u32 = 0;
        while x < width
            invariant
                image.wf(),
                iw == image.width_spec(),
                ih == image.height_spec(),
                iw <= width,
                ih <= height,
                x_offset == (width - iw) / 2,
                y_offset == (height - ih) / 2,
                background == border_color(),
                y < height,
                x <= width,
                row@.len() == x,
                forall|i: int|
                    0 <= i < x ==> #[trigger] row@[i] == bordered_pixel(
                        *image,
                        width,
                        height,
                        i,
                        y as int,
                    ),
            decreases width - x,
        {
            let px = if x_offset <= x && x - x_offset < iw && y_offset <= y && y - y_offset < ih {
                blend(background, image.get_pixel(x - x_offset, y - y_offset))
            } else {
                background
            };
            row.push(px);
            x = x + 1;
        }
        rows.push(row);
        y = y + 1;
    }
    let r = Image { width, height, rows };
    assert forall|j: int| 0 <= j < r@.len() implies (#[trigger] r@[j]).len() == r.width_spec() by {
        assert(r@[j] == rows@[j]@);
    }
    assert forall|j: int, i: int| 0 <= j < height && 0 <= i < width implies #[trigger] r@[j][i]
        == bordered_pixel(*image, width, height, i, j) by {
        assert(r@[j] == rows@[j]@);
    }
    r
}

} // verus!
