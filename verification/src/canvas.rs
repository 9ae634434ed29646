//! The image under construction: an RGB grid of the `image` crate, painted
//! tile by tile.

use crate::messages::FragmentTask;
use crate::tiles::{spec_tile_range, LINE_0, LINE_1, LINE_2, LINE_3, TILE_COUNT};
use crate::types::Range;
use image::{ImageBuffer, Rgb};
use vstd::prelude::*;

verus! {

/// An RGB image with eight bits per channel: an `ImageBuffer` of the image
/// crate, held as it is. What it holds goes by the names `image_pixels` and
/// `image_size`; only the five functions that follow touch the buffer.
#[verifier::external_body]
pub struct Canvas {
    buffer: ImageBuffer<Rgb<u8>, Vec<u8>>,
}

/// The colour of each pixel of an image, by column and row.
pub uninterp spec fn image_pixels(img: Canvas) -> Map<(int, int), Seq<u8>>;

/// Width and height of an image.
pub uninterp spec fn image_size(img: Canvas) -> (int, int);

/// `ImageBuffer::dimensions` of image: width and height.
#[verifier::external_body]
pub(crate) fn image_dimensions(img: &Canvas) -> (size: (u32, u32))
    ensures
        (size.0 as int, size.1 as int) == image_size(*img),
{
    img.buffer.dimensions()
}

/// Whether `(x, y)` is a pixel of an image of the given size.
pub open spec fn spec_in_image(size: (int, int), x: int, y: int) -> bool {
    0 <= x < size.0 && 0 <= y < size.1
}

/// Whether an image of this size can be held: neither the bytes of one
/// row nor those of all rows exceed what a vector can hold.
pub open spec fn spec_can_hold(width: u32, height: u32) -> bool {
    3 * width <= isize::MAX && 3 * width * height <= isize::MAX
}

/// `ImageBuffer::new` of image: an image of the given size, every channel
/// of every pixel zero. The outside function panics where the buffer's
/// length overflows or exceeds what a vector can hold; such sizes are left
/// out.
#[verifier::external_body]
pub(crate) fn new_image(width: u32, height: u32) -> (img: Canvas)
    requires
        spec_can_hold(width, height),
    ensures
        image_size(img) == (width as int, height as int),
        forall|x: int, y: int|
            image_pixels(img).contains_key((x, y)) <==> spec_in_image(image_size(img), x, y),
        forall|x: int, y: int|
            spec_in_image(image_size(img), x, y) ==> #[trigger] image_pixels(img)[(x, y)]
                == seq![0u8, 0u8, 0u8],
{
    Canvas { buffer: ImageBuffer::new(width, height) }
}

/// `ImageBuffer::put_pixel` of image: the pixel at `(x, y)` takes the
/// colour, every other pixel and the size stay. The outside function
/// panics outside the image; such positions are left out.
#[verifier::external_body]
pub(crate) fn put_pixel(img: &mut Canvas, x: u32, y: u32, color: [u8; 3])
    requires
        spec_in_image(image_size(*old(img)), x as int, y as int),
    ensures
        image_size(*final(img)) == image_size(*old(img)),
        image_pixels(*final(img)) == image_pixels(*old(img)).insert((x as int, y as int), color@),
{
    img.buffer.put_pixel(x, y, Rgb(color))
}

/// `ImageBuffer::get_pixel` of image: the colour of the pixel at `(x, y)`.
/// The outside function panics outside the image; such positions are left
/// out.
#[verifier::external_body]
pub(crate) fn get_pixel(img: &Canvas, x: u32, y: u32) -> (color: [u8; 3])
    requires
        spec_in_image(image_size(*img), x as int, y as int),
    ensures
        color@ == image_pixels(*img)[(x as int, y as int)],
{
    img.buffer.get_pixel(x, y).0
}

/// `ImageBuffer::as_raw` of image: the channels of all pixels, row after
/// row, three for each pixel.
#[verifier::external_body]
pub(crate) fn raw_bytes(img: &Canvas) -> (raw: Vec<u8>)
    ensures
        raw@.len() == 3 * image_size(*img).0 * image_size(*img).1,
        forall|x: int, y: int, c: int|
            spec_in_image(image_size(*img), x, y) && 0 <= c < 3 ==> raw@[(y * image_size(*img).0
                + x) * 3 + c] == #[trigger] image_pixels(*img)[(x, y)][c],
{
    img.buffer.as_raw().clone()
}

/// Pixels of a tile along each axis, in the image.
pub const TILE_SIDE: u32 = 300;

/// Pixels of a tile.
pub const TILE_AREA: usize = 90_000;

/// Pixels of the whole image along each axis.
pub const IMAGE_SIDE: u32 = 1200;

impl Canvas {
    /// Width and height.
    pub open spec fn spec_size(&self) -> (int, int) {
        image_size(*self)
    }

    /// The colour of each pixel, by column and row.
    pub open spec fn spec_pixels(&self) -> Map<(int, int), Seq<u8>> {
        image_pixels(*self)
    }

    /// A black image of the given size; `None` exactly where its three
    /// bytes per pixel are more than a vector can hold.
    pub fn new(width: u32, height: u32) -> (img: Option<Canvas>)
        ensures
            img is Some == spec_can_hold(width, height),
            img is Some ==> {
                &&& img->Some_0.spec_size() == (width as int, height as int)
                &&& forall|x: int, y: int|
                    img->Some_0.spec_pixels().contains_key((x, y)) <==> spec_in_image(
                        (width as int, height as int),
                        x,
                        y,
                    )
                &&& forall|x: int, y: int|
                    spec_in_image((width as int, height as int), x, y)
                        ==> #[trigger] img->Some_0.spec_pixels()[(x, y)] == seq![0u8, 0u8, 0u8]
            },
    {
        assert(width * height <= 0xffff_ffff * 0xffff_ffff) by (nonlinear_arith)
            requires
                width <= 0xffff_ffff,
                height <= 0xffff_ffff,
        ;
        let bytes: u128 = 3 * ((width as u128) * (height as u128));
        assert(bytes == 3 * width * height) by (nonlinear_arith)
            requires
                bytes == 3 * (width * height),
        ;
        if 3 * (width as u128) <= isize::MAX as u128 && bytes <= isize::MAX as u128 {
            Some(new_image(width, height))
        } else {
            None
        }
    }

    /// Width and height.
    pub fn dimensions(&self) -> (size: (u32, u32))
        ensures
            (size.0 as int, size.1 as int) == self.spec_size(),
    {
        image_dimensions(self)
    }

    /// The colour at `(x, y)`; `None` exactly outside the image.
    pub fn pixel(&self, x: u32, y: u32) -> (color: Option<[u8; 3]>)
        ensures
            color is Some == spec_in_image(self.spec_size(), x as int, y as int),
            color is Some ==> color->Some_0@ == self.spec_pixels()[(x as int, y as int)],
    {
        let (width, height) = image_dimensions(self);
        if x < width && y < height {
            Some(get_pixel(self, x, y))
        } else {
            None
        }
    }

    /// The channels of all pixels, row after row, three for each pixel.
    pub fn to_raw(&self) -> (raw: Vec<u8>)
        ensures
            raw@.len() == 3 * self.spec_size().0 * self.spec_size().1,
            forall|x: int, y: int, c: int|
                spec_in_image(self.spec_size(), x, y) && 0 <= c < 3 ==> raw@[(y
                    * self.spec_size().0 + x) * 3 + c] == #[trigger] self.spec_pixels()[(
                    x,
                    y,
                )][c],
    {
        raw_bytes(self)
    }
}

/// The grid line that a bit pattern names, for the four lines at which a
/// tile can begin.
pub open spec fn spec_line_index(bits: u64) -> Option<int> {
    if bits == LINE_0 {
        Some(0)
    } else if bits == LINE_1 {
        Some(1)
    } else if bits == LINE_2 {
        Some(2)
    } else if bits == LINE_3 {
        Some(3)
    } else {
        None
    }
}

/// Where in the image a tile begins: three hundred pixels for each grid
/// line that lies before it. `None` for a rectangle that does not begin on
/// the grid.
pub open spec fn spec_tile_origin(range: Range) -> Option<(int, int)> {
    match (spec_line_index(range.min.x), spec_line_index(range.min.y)) {
        (Some(col), Some(row)) => Some((TILE_SIDE * col, TILE_SIDE * row)),
        _ => None,
    }
}

/// How many of `count` colours a tile takes.
pub open spec fn spec_painted_count(count: int) -> int {
    if count < TILE_AREA {
        count
    } else {
        TILE_AREA as int
    }
}

/// Which colour the pixel at `(x, y)` takes from a tile that begins at
/// `origin`: colours fill the tile row after row.
pub open spec fn spec_painted_index(origin: (int, int), x: int, y: int) -> int {
    (y - origin.1) * TILE_SIDE + (x - origin.0)
}

/// Whether the pixel at `(x, y)` is painted when the first `n` colours are
/// laid out from `origin`.
pub open spec fn spec_is_painted(origin: (int, int), n: int, x: int, y: int) -> bool {
    &&& origin.0 <= x < origin.0 + TILE_SIDE
    &&& origin.1 <= y
    &&& spec_painted_index(origin, x, y) < n
}

/// The pixels after the first `n` colours are laid out from `origin`.
pub open spec fn spec_blit(
    pixels: Map<(int, int), Seq<u8>>,
    origin: (int, int),
    colors: Seq<[u8; 3]>,
    n: int,
) -> Map<(int, int), Seq<u8>> {
    Map::new(
        |p: (int, int)| pixels.contains_key(p) || spec_is_painted(origin, n, p.0, p.1),
        |p: (int, int)|
            if spec_is_painted(origin, n, p.0, p.1) {
                colors[spec_painted_index(origin, p.0, p.1)]@
            } else {
                pixels[p]
            },
    )
}

/// Whether a tile that begins at `origin` lies inside an image of `size`.
pub open spec fn spec_tile_fits(size: (int, int), origin: (int, int)) -> bool {
    origin.0 + TILE_SIDE <= size.0 && origin.1 + TILE_SIDE <= size.1
}

/// The grid line that a bit pattern names.
fn line_index(bits: u64) -> (index: Option<u32>)
    ensures
        match spec_line_index(bits) {
            Some(i) => index == Some(i as u32),
            None => index is None,
        },
{
    if bits == LINE_0 {
        Some(0)
    } else if bits == LINE_1 {
        Some(1)
    } else if bits == LINE_2 {
        Some(2)
    } else if bits == LINE_3 {
        Some(3)
    } else {
        None
    }
}

/// Where in the image a tile begins.
pub fn tile_origin(range: &Range) -> (origin: Option<(u32, u32)>)
    ensures
        match spec_tile_origin(*range) {
            Some((x, y)) => origin == Some((x as u32, y as u32)),
            None => origin is None,
        },
{
    match (line_index(range.min.x), line_index(range.min.y)) {
        (Some(col), Some(row)) => Some((TILE_SIDE * col, TILE_SIDE * row)),
        _ => None,
    }
}

/// Paints the colours of a tile into the image, row after row from where
/// the tile begins, and says whether it did. Colours beyond those of one
/// tile are not used. Nothing is painted, and the image is left as it was,
/// for a tile that does not begin on the grid or does not lie inside the
/// image.
pub fn put_color_in_image(task: &FragmentTask, colors: &Vec<[u8; 3]>, image_buffer: &mut Canvas) -> (painted:
    bool)
    ensures
        final(image_buffer).spec_size() == old(image_buffer).spec_size(),
        painted == (spec_tile_origin(task.range) is Some && spec_tile_fits(
            old(image_buffer).spec_size(),
            spec_tile_origin(task.range)->Some_0,
        )),
        painted ==> final(image_buffer).spec_pixels() == spec_blit(
            old(image_buffer).spec_pixels(),
            spec_tile_origin(task.range)->Some_0,
            colors@,
            spec_painted_count(colors@.len() as int),
        ),
        !painted ==> final(image_buffer).spec_pixels() == old(image_buffer).spec_pixels(),
{
    let (x0, y0) = match tile_origin(&task.range) {
        Some(origin) => origin,
        None => { return false; },
    };
    let (width, height) = image_dimensions(image_buffer);
    if width < TILE_SIDE || height < TILE_SIDE || x0 > width - TILE_SIDE || y0 > height
        - TILE_SIDE {
        return false;
    }
    let n: usize = if colors.len() < TILE_AREA {
        colors.len()
    } else {
        TILE_AREA
    };
    let ghost origin = (x0 as int, y0 as int);
    let ghost before = image_buffer.spec_pixels();
    let mut k: usize = 0;
    assert(image_buffer.spec_pixels() =~= spec_blit(before, origin, colors@, 0));
    while k < n
        invariant
            k <= n <= TILE_AREA,
            n <= colors.len(),
            origin == (x0 as int, y0 as int),
            x0 + TILE_SIDE <= width,
            y0 + TILE_SIDE <= height,
            image_buffer.spec_size() == (width as int, height as int),
            image_buffer.spec_pixels() == spec_blit(before, origin, colors@, k as int),
        decreases n - k,
    {
        let x: u32 = x0 + (k % 300) as u32;
        let y: u32 = y0 + (k / 300) as u32;
        put_pixel(image_buffer, x, y, colors[k]);
        assert(image_buffer.spec_pixels() =~= spec_blit(before, origin, colors@, k + 1)) by {
            assert forall|p: (int, int)|
                spec_is_painted(origin, k + 1, p.0, p.1) <==> (spec_is_painted(
                    origin,
                    k as int,
                    p.0,
                    p.1,
                ) || p == (x as int, y as int)) by {
                let i = spec_painted_index(origin, p.0, p.1);
                if origin.0 <= p.0 < origin.0 + 300 && origin.1 <= p.1 {
                    assert(i == k <==> (p.0 - origin.0 == k % 300 && p.1 - origin.1 == k / 300));
                }
            }
        }
        k += 1;
    }
    true
}

/// Tile `k` begins three hundred pixels further for each column and row
/// before it, and lies inside the image.
pub proof fn lemma_tile_origin(k: int)
    requires
        0 <= k < TILE_COUNT,
    ensures
        spec_tile_origin(spec_tile_range(k)) == Some((TILE_SIDE * (k % 4), TILE_SIDE * (k / 4))),
        spec_tile_fits(
            (IMAGE_SIDE as int, IMAGE_SIDE as int),
            spec_tile_origin(spec_tile_range(k))->Some_0,
        ),
{
}

/// No pixel is painted by two tiles: what tile `j` paints and what another
/// tile `k` paints are apart, however many colours each is given.
pub proof fn lemma_tiles_paint_apart(j: int, k: int, n: int, m: int, x: int, y: int)
    requires
        0 <= j < TILE_COUNT,
        0 <= k < TILE_COUNT,
        j != k,
        n <= TILE_AREA,
        m <= TILE_AREA,
    ensures
        !(spec_is_painted(spec_tile_origin(spec_tile_range(j))->Some_0, n, x, y)
            && spec_is_painted(spec_tile_origin(spec_tile_range(k))->Some_0, m, x, y)),
{
    lemma_tile_origin(j);
    lemma_tile_origin(k);
}

/// Every pixel of the image is painted by the tile in whose square it
/// lies, once that tile is given all its colours.
pub proof fn lemma_tiles_paint_all(x: int, y: int) -> (k: int)
    requires
        spec_in_image((IMAGE_SIDE as int, IMAGE_SIDE as int), x, y),
    ensures
        0 <= k < TILE_COUNT,
        spec_is_painted(spec_tile_origin(spec_tile_range(k))->Some_0, TILE_AREA as int, x, y),
{
    let k = 4 * (y / 300) + x / 300;
    lemma_tile_origin(k);
    k
}

} // verus!
