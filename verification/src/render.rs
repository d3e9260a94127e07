use vstd::prelude::*;

verus! {

/// A colour given by its red, green and blue channels.
#[derive(Clone, Copy, Debug, PartialEq, Eq)]
pub struct Colour {
    pub r: u8,
    pub g: u8,
    pub b: u8,
}

/// A frame buffer of `width` by `height` pixels, four bytes (red, green,
/// blue, alpha) per pixel, stored row by row.
pub struct Display {
    pub pixels: Vec<u8>,
    pub width: usize,
    pub height: usize,
}

/// Number of bytes of a buffer of `width` by `height` pixels.
pub open spec fn buffer_len(width: int, height: int) -> int {
    width * height * 4
}

/// Offset of the first byte of pixel `(x, y)` in a buffer `width` pixels wide.
pub open spec fn pixel_index(width: int, x: int, y: int) -> int {
    (x + y * width) * 4
}

/// Whether `(x, y)` lies on a `width` by `height` display.
pub open spec fn in_bounds(width: int, height: int, x: int, y: int) -> bool {
    0 <= x < width && 0 <= y < height
}

/// The buffer of a `width` by `height` display where every byte is zero.
pub open spec fn blank(width: int, height: int) -> Seq<u8> {
    Seq::new(buffer_len(width, height) as nat, |i: int| 0u8)
}

/// The four bytes (red, green, blue, alpha) of pixel `(x, y)` in `pixels`.
pub open spec fn pixel_at(pixels: Seq<u8>, width: int, x: int, y: int) -> (u8, u8, u8, u8) {
    let i = pixel_index(width, x, y);
    (pixels[i], pixels[i + 1], pixels[i + 2], pixels[i + 3])
}

/// `pixels` after pixel `(x, y)` is painted opaque in colour `c`; a point off
/// the display changes nothing.
pub open spec fn painted(
    pixels: Seq<u8>,
    width: int,
    height: int,
    x: int,
    y: int,
    c: Colour,
) -> Seq<u8> {
    if in_bounds(width, height, x, y) {
        let i = pixel_index(width, x, y);
        pixels.update(i, c.r).update(i + 1, c.g).update(i + 2, c.b).update(i + 3, 255u8)
    } else {
        pixels
    }
}

impl Display {
    /// The buffer holds exactly four bytes for each pixel.
    pub open spec fn wf(&self) -> bool {
        self.pixels@.len() == self.width * self.height * 4
    }

    /// Creates a display of the given size with every byte zero.
    pub fn new(width: usize, height: usize) -> (d: Display)
        requires
            width * height * 4 <= usize::MAX,
        ensures
            d.width == width,
            d.height == height,
            d.pixels@.len() == width * height * 4,
            forall|i: int| 0 <= i < d.pixels@.len() ==> d.pixels@[i] == 0u8,
            d.pixels@ == blank(width as int, height as int),
            d.wf(),
    {
        Display { pixels: zeroed(width, height), width, height }
    }

    /// Sets every byte of the buffer back to zero, at the display's size.
    pub fn clear(&mut self)
        requires
            old(self).width * old(self).height * 4 <= usize::MAX,
        ensures
            final(self).width == old(self).width,
            final(self).height == old(self).height,
            final(self).pixels@.len() == old(self).width * old(self).height * 4,
            forall|i: int| 0 <= i < final(self).pixels@.len() ==> final(self).pixels@[i] == 0u8,
            final(self).pixels@ == blank(old(self).width as int, old(self).height as int),
            final(self).wf(),
    {
        self.pixels = zeroed(self.width, self.height);
    }

    /// Paints pixel `(x, y)` opaque in colour `c`; a point off the display is
    /// ignored.
    pub fn set_pixel(&mut self, x: usize, y: usize, c: Colour)
        requires
            x < old(self).width && y < old(self).height ==> (x + y * old(self).width) * 4 + 3
                < old(self).pixels@.len(),
        ensures
            final(self).width == old(self).width,
            final(self).height == old(self).height,
            x < old(self).width && y < old(self).height ==> {
                let i = (x + y * old(self).width) * 4;
                &&& final(self).pixels@[i] == c.r
                &&& final(self).pixels@[i + 1] == c.g
                &&& final(self).pixels@[i + 2] == c.b
                &&& final(self).pixels@[i + 3] == 255u8
                &&& forall|j: int|
                    0 <= j < old(self).pixels@.len() && (j < i || i + 4 <= j)
                        ==> final(self).pixels@[j] == old(self).pixels@[j]
            },
            !(x < old(self).width && y < old(self).height)
                ==> final(self).pixels@ == old(self).pixels@,
            final(self).pixels@ == painted(
                old(self).pixels@,
                old(self).width as int,
                old(self).height as int,
                x as int,
                y as int,
                c,
            ),
            final(self).pixels@.len() == old(self).pixels@.len(),
            old(self).wf() ==> final(self).wf(),
    {
        if x < self.width && y < self.height {
            assert(self.pixels@.len() == self.pixels.len());
            let index = (x + y * self.width) * 4;
            self.pixels.set(index, c.r);
            self.pixels.set(index + 1, c.g);
            self.pixels.set(index + 2, c.b);
            self.pixels.set(index + 3, 255);
        }
    }
}

/// The four bytes of an on-display pixel lie inside a buffer of the display's size.
pub proof fn lemma_pixel_in_buffer(width: int, height: int, x: int, y: int)
    requires
        in_bounds(width, height, x, y),
    ensures
        0 <= pixel_index(width, x, y),
        pixel_index(width, x, y) + 3 < buffer_len(width, height),
{
    assert(0 <= y * width) by (nonlinear_arith)
        requires
            0 <= y,
            0 <= x < width,
    ;
    assert(x + y * width < height * width) by (nonlinear_arith)
        requires
            0 <= x < width,
            0 <= y < height,
    ;
    assert(height * width == width * height) by (nonlinear_arith);
}

/// Two different points of a display start at different pixel offsets, at
/// least four bytes apart.
pub proof fn lemma_pixels_apart(width: int, height: int, x1: int, y1: int, x2: int, y2: int)
    requires
        in_bounds(width, height, x1, y1),
        in_bounds(width, height, x2, y2),
        x1 != x2 || y1 != y2,
    ensures
        pixel_index(width, x1, y1) + 4 <= pixel_index(width, x2, y2)
            || pixel_index(width, x2, y2) + 4 <= pixel_index(width, x1, y1),
{
    if y1 < y2 {
        assert(x1 + y1 * width < x2 + y2 * width) by (nonlinear_arith)
            requires
                0 <= x1 < width,
                0 <= x2,
                y1 < y2,
        ;
    } else if y2 < y1 {
        assert(x2 + y2 * width < x1 + y1 * width) by (nonlinear_arith)
            requires
                0 <= x2 < width,
                0 <= x1,
                y2 < y1,
        ;
    }
}

/// A buffer of `width * height * 4` zero bytes.
fn zeroed(width: usize, height: usize) -> (v: Vec<u8>)
    requires
        width * height * 4 <= usize::MAX,
    ensures
        v@ == blank(width as int, height as int),
        v@.len() == width * height * 4,
        forall|i: int| 0 <= i < v@.len() ==> v@[i] == 0u8,
{
    let n: usize = width * height * 4;
    let v: Vec<u8> = vec![0u8; n];
    assert(v@ =~= blank(width as int, height as int));
    v
}

} // verus!
