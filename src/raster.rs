//! The escape-time fractal raster: walking the frame's pixels in row-major
//! order, asking a point function for each pixel's escape index, and turning
//! escape indices into packed 24-bit RGB colours.
use vstd::arithmetic::div_mod::lemma_fundamental_div_mod_converse;
use vstd::prelude::*;

verus! {

/// The iteration limit of the escape-time test.
pub const ITERATION_LIMIT: u32 = 255;

/// Three 8-bit channels packed as `0x00RRGGBB`.
pub open spec fn pack_rgb(red: int, green: int, blue: int) -> int {
    red * 65536 + green * 256 + blue
}

/// The colour of a pixel with the given escape index: black when the point
/// did not escape; otherwise the index, taken modulo 256, as red, its
/// complement to 255 as green, and no blue.
pub open spec fn escape_color_spec(count: Option<u32>) -> u32 {
    match count {
        None => 0,
        Some(n) => {
            let red = n % 256;
            pack_rgb(red as int, 255 - red, 0) as u32
        },
    }
}

/// The colour of a pixel with the given escape index.
pub fn escape_color(count: Option<u32>) -> (r: u32)
    ensures
        r == escape_color_spec(count),
{
    match count {
        None => 0,
        Some(n) => {
            let red = (n % 256) as u8;
            let green: u8 = 255 - red;
            let blue: u8 = 0;
            let r = (blue as u32) | ((green as u32) << 8u32) | ((red as u32) << 16u32);
            assert(r == (red as u32) * 65536 + (green as u32) * 256 + (blue as u32)) by (bit_vector)
                requires
                    r == (blue as u32) | ((green as u32) << 8u32) | ((red as u32) << 16u32),
            ;
            r
        },
    }
}

/// The pixel `(x, y)` at linear position `i` of a row-major raster `width`
/// pixels wide.
pub open spec fn pixel_at(width: u32, i: int) -> (u32, u32) {
    ((i % (width as int)) as u32, (i / (width as int)) as u32)
}

/// `counts` holds, in row-major order, one escape index that `escape` gave for
/// each pixel of a `width` by `height` frame.
pub open spec fn sampled<F: Fn(u32, u32) -> Option<u32>>(
    escape: F,
    width: u32,
    height: u32,
    counts: Seq<Option<u32>>,
) -> bool {
    &&& counts.len() == width as int * height as int
    &&& forall|i: int| 0 <= i < counts.len() ==> escape.ensures(pixel_at(width, i), #[trigger] counts[i])
}

/// The colours of a sequence of escape indices.
pub open spec fn colors_of(counts: Seq<Option<u32>>) -> Seq<u32> {
    counts.map_values(|c: Option<u32>| escape_color_spec(c))
}

/// `frame` is a `width` by `height` rendering of `escape`: the colours of the
/// escape indices that it gave for each pixel, row by row.
pub open spec fn is_frame_of<F: Fn(u32, u32) -> Option<u32>>(
    escape: F,
    width: u32,
    height: u32,
    frame: Seq<u32>,
) -> bool {
    exists|counts: Seq<Option<u32>>| sampled(escape, width, height, counts) && frame == colors_of(counts)
}

/// `escape` gives one result for each pixel.
pub open spec fn is_deterministic<F: Fn(u32, u32) -> Option<u32>>(escape: F) -> bool {
    forall|p: (u32, u32), a: Option<u32>, b: Option<u32>|
        #![trigger escape.ensures(p, a), escape.ensures(p, b)]
        escape.ensures(p, a) && escape.ensures(p, b) ==> a == b
}

proof fn lemma_row_major(width: u32, x: u32, y: u32)
    requires
        x < width,
    ensures
        pixel_at(width, y as int * width as int + x as int) == (x, y),
{
    lemma_fundamental_div_mod_converse(
        y as int * width as int + x as int,
        width as int,
        y as int,
        x as int,
    );
}

/// Asks `escape` for the escape index of every pixel of a `width` by `height`
/// frame, row by row, and returns them in that order.
pub fn sample_escapes<F: Fn(u32, u32) -> Option<u32>>(width: u32, height: u32, escape: &F) -> (r: Vec<
    Option<u32>,
>)
    requires
        width as int * height as int <= usize::MAX,
        forall|x: u32, y: u32| x < width && y < height ==> #[trigger] escape.requires((x, y)),
    ensures
        sampled(*escape, width, height, r@),
{
    let mut counts: Vec<Option<u32>> = Vec::new();
    let mut y: u32 = 0;
    while y < height
        invariant
            y <= height,
            width as int * height as int <= usize::MAX,
            forall|x: u32, y: u32| x < width && y < height ==> #[trigger] escape.requires((x, y)),
            counts@.len() == y as int * width as int,
            forall|i: int|
                0 <= i < counts@.len() ==> escape.ensures(pixel_at(width, i), #[trigger] counts@[i]),
        decreases height - y,
    {
        let mut x: u32 = 0;
        while x < width
            invariant
                x <= width,
                y < height,
                width as int * height as int <= usize::MAX,
                forall|x: u32, y: u32| x < width && y < height ==> #[trigger] escape.requires((x, y)),
                counts@.len() == y as int * width as int + x as int,
                forall|i: int|
                    0 <= i < counts@.len() ==> escape.ensures(pixel_at(width, i), #[trigger] counts@[i]),
            decreases width - x,
        {
            assert((y as int) * (width as int) + (x as int) < (width as int) * (height as int)) by (nonlinear_arith)
                requires
                    x < width,
                    y < height,
            ;
            let e = escape(x, y);
            proof {
                lemma_row_major(width, x, y);
            }
            counts.push(e);
            x = x + 1;
        }
        assert((y + 1) as int * width as int == y as int * width as int + width as int)
            by (nonlinear_arith);
        y = y + 1;
    }
    assert((height as int) * (width as int) == (width as int) * (height as int)) by (nonlinear_arith);
    counts
}

/// The colours of the given escape indices, in the same order.
pub fn colorize(counts: &Vec<Option<u32>>) -> (r: Vec<u32>)
    ensures
        r@ == colors_of(counts@),
{
    let mut colors: Vec<u32> = Vec::new();
    let mut i: usize = 0;
    while i < counts.len()
        invariant
            i <= counts@.len(),
            colors@ == colors_of(counts@.subrange(0, i as int)),
        decreases counts@.len() - i,
    {
        let c = escape_color(counts[i]);
        colors.push(c);
        i = i + 1;
        assert(counts@.subrange(0, i as int) == counts@.subrange(0, i - 1 as int).push(counts@[i - 1]));
    }
    assert(counts@.subrange(0, i as int) == counts@);
    colors
}

/// Renders a `width` by `height` frame: for each pixel `(x, y)`, row by row,
/// the colour of the escape index that `escape` gives for it, at position
/// `y * width + x`.
pub fn render_frame<F: Fn(u32, u32) -> Option<u32>>(width: u32, height: u32, escape: F) -> (r: Vec<u32>)
    requires
        width as int * height as int <= usize::MAX,
        forall|x: u32, y: u32| x < width && y < height ==> #[trigger] escape.requires((x, y)),
    ensures
        is_frame_of(escape, width, height, r@),
        r@.len() == width as int * height as int,
{
    let counts = sample_escapes(width, height, &escape);
    let frame = colorize(&counts);
    assert(sampled(escape, width, height, counts@) && frame@ == colors_of(counts@));
    frame
}

/// Rendering is deterministic: for a point function that gives one result per
/// pixel, any two renderings of the same frame are identical.
pub proof fn lemma_render_deterministic<F: Fn(u32, u32) -> Option<u32>>(
    escape: F,
    width: u32,
    height: u32,
    a: Seq<u32>,
    b: Seq<u32>,
)
    requires
        is_deterministic(escape),
        is_frame_of(escape, width, height, a),
        is_frame_of(escape, width, height, b),
    ensures
        a == b,
{
    let ca = choose|c: Seq<Option<u32>>| sampled(escape, width, height, c) && a == colors_of(c);
    let cb = choose|c: Seq<Option<u32>>| sampled(escape, width, height, c) && b == colors_of(c);
    assert forall|i: int| 0 <= i < ca.len() implies ca[i] == cb[i] by {
        assert(escape.ensures(pixel_at(width, i), ca[i]));
        assert(escape.ensures(pixel_at(width, i), cb[i]));
    }
    assert(ca == cb);
}

/// A pixel that never escapes is black.
pub proof fn lemma_unescaped_is_black()
    ensures
        escape_color_spec(None) == 0,
{
}

/// A pixel that escapes at index zero has no red, full green and no blue.
pub proof fn lemma_immediate_escape_is_green()
    ensures
        escape_color_spec(Some(0)) == pack_rgb(0, 255, 0),
{
}

} // verus!
