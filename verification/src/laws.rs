use vstd::prelude::*;

use crate::render::{
    blank, lemma_pixel_in_buffer, lemma_pixels_apart, painted, Colour,
};

verus! {

/// Reading a pixel right after it was painted gives back the colour that was
/// painted, fully opaque.
pub proof fn law_read_after_paint(
    pixels: Seq<u8>,
    width: int,
    height: int,
    x: int,
    y: int,
    c: Colour,
)
    requires
        pixels.len() == width * height * 4,
        0 <= x < width && 0 <= y < height,
    ensures
        painted(pixels, width, height, x, y, c).len() == pixels.len(),
        painted(pixels, width, height, x, y, c)[(x + y * width) * 4] == c.r,
        painted(pixels, width, height, x, y, c)[(x + y * width) * 4 + 1] == c.g,
        painted(pixels, width, height, x, y, c)[(x + y * width) * 4 + 2] == c.b,
        painted(pixels, width, height, x, y, c)[(x + y * width) * 4 + 3] == 255u8,
        forall|j: int|
            0 <= j < pixels.len() && (j < (x + y * width) * 4 || (x + y * width) * 4 + 4 <= j)
                ==> #[trigger] painted(pixels, width, height, x, y, c)[j] == pixels[j],
{
    lemma_pixel_in_buffer(width, height, x, y);
}

/// Painting one pixel leaves every other pixel of the display as it was.
pub proof fn law_paint_leaves_others(
    pixels: Seq<u8>,
    width: int,
    height: int,
    x: int,
    y: int,
    c: Colour,
    x2: int,
    y2: int,
)
    requires
        pixels.len() == width * height * 4,
        0 <= x2 < width && 0 <= y2 < height,
        x != x2 || y != y2,
    ensures
        forall|k: int|
            0 <= k < 4 ==> #[trigger] painted(pixels, width, height, x, y, c)[(x2 + y2 * width) * 4
                + k] == pixels[(x2 + y2 * width) * 4 + k],
{
    lemma_pixel_in_buffer(width, height, x2, y2);
    if 0 <= x < width && 0 <= y < height {
        lemma_pixel_in_buffer(width, height, x, y);
        lemma_pixels_apart(width, height, x, y, x2, y2);
    }
}

/// Painting a point off the display changes nothing.
pub proof fn law_paint_off_display(
    pixels: Seq<u8>,
    width: int,
    height: int,
    x: int,
    y: int,
    c: Colour,
)
    requires
        !(0 <= x < width && 0 <= y < height),
    ensures
        painted(pixels, width, height, x, y, c) == pixels,
{
}

/// Painting keeps the size of the buffer.
pub proof fn law_paint_keeps_length(
    pixels: Seq<u8>,
    width: int,
    height: int,
    x: int,
    y: int,
    c: Colour,
)
    requires
        pixels.len() == width * height * 4,
    ensures
        painted(pixels, width, height, x, y, c).len() == width * height * 4,
{
    if 0 <= x < width && 0 <= y < height {
        lemma_pixel_in_buffer(width, height, x, y);
    }
}

/// Every pixel of a fresh or cleared display reads as all zero bytes.
pub proof fn law_blank_reads_zero(width: int, height: int, x: int, y: int)
    requires
        0 <= x < width && 0 <= y < height,
    ensures
        blank(width, height)[(x + y * width) * 4] == 0u8,
        blank(width, height)[(x + y * width) * 4 + 1] == 0u8,
        blank(width, height)[(x + y * width) * 4 + 2] == 0u8,
        blank(width, height)[(x + y * width) * 4 + 3] == 0u8,
{
    lemma_pixel_in_buffer(width, height, x, y);
}

/// A blank buffer holds four zero bytes for each of the `width * height`
/// pixels, and nothing else.
pub proof fn law_blank_size_and_zero(width: int, height: int)
    requires
        0 <= width,
        0 <= height,
    ensures
        blank(width, height).len() == width * height * 4,
        forall|i: int| 0 <= i < width * height * 4 ==> #[trigger] blank(width, height)[i] == 0u8,
{
    assert(0 <= width * height) by (nonlinear_arith)
        requires
            0 <= width,
            0 <= height,
    ;
}

/// Painting the same pixel twice is the same as painting it once with the
/// second colour: the last write wins.
pub proof fn law_last_paint_wins(
    pixels: Seq<u8>,
    width: int,
    height: int,
    x: int,
    y: int,
    c1: Colour,
    c2: Colour,
)
    requires
        pixels.len() == width * height * 4,
    ensures
        painted(painted(pixels, width, height, x, y, c1), width, height, x, y, c2) == painted(
            pixels,
            width,
            height,
            x,
            y,
            c2,
        ),
{
    if 0 <= x < width && 0 <= y < height {
        lemma_pixel_in_buffer(width, height, x, y);
        assert(painted(painted(pixels, width, height, x, y, c1), width, height, x, y, c2)
            =~= painted(pixels, width, height, x, y, c2));
    }
}

/// Painting two different pixels gives the same buffer in either order.
pub proof fn law_paints_commute(
    pixels: Seq<u8>,
    width: int,
    height: int,
    x1: int,
    y1: int,
    c1: Colour,
    x2: int,
    y2: int,
    c2: Colour,
)
    requires
        pixels.len() == width * height * 4,
        x1 != x2 || y1 != y2,
    ensures
        painted(painted(pixels, width, height, x1, y1, c1), width, height, x2, y2, c2)
            == painted(painted(pixels, width, height, x2, y2, c2), width, height, x1, y1, c1),
{
    if 0 <= x1 < width && 0 <= y1 < height && 0 <= x2 < width && 0 <= y2 < height {
        lemma_pixel_in_buffer(width, height, x1, y1);
        lemma_pixel_in_buffer(width, height, x2, y2);
        lemma_pixels_apart(width, height, x1, y1, x2, y2);
        assert(painted(painted(pixels, width, height, x1, y1, c1), width, height, x2, y2, c2)
            =~= painted(painted(pixels, width, height, x2, y2, c2), width, height, x1, y1, c1));
    }
}

} // verus!
