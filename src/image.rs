//! The [`Image`] is the pixel buffer that a render callback edits.
//!
//! Pixels are stored row after row, row 0 first. They can be reached by a
//! `(row, column)` pair, with row 0 at the top of the scan order, or by an
//! `(x, y)` pair, with `y` measured from the bottom row.

use vstd::prelude::*;
use crate::color::Color;

verus! {

/// An image for editing: `width * height` colors, row after row.
pub struct Image {
    width: usize,
    height: usize,
    pixels: Vec<Color>,
}

/// A row/column pair for indexing into an image.
/// Distinct from an x/y pair.
pub struct RC(pub usize, pub usize);

/// An x/y pair for indexing into an image: `y` counts rows from the bottom.
/// Distinct from a row/column pair.
pub struct XY(pub usize, pub usize);

/// Whether a `width * height` image can be held: its bytes, three per pixel,
/// must not pass the largest size of an allocation.
pub open spec fn fits_in_memory(width: nat, height: nat) -> bool {
    3 * (width * height) <= isize::MAX
}

/// Where the pixel at `(row, col)` sits in memory, for a given width.
pub open spec fn rc_offset(width: nat, row: nat, col: nat) -> int {
    (row * width + col) as int
}

/// Where the pixel at `(x, y)` sits in memory: `y` counts rows from the
/// bottom, so its row is `height - 1 - y`.
pub open spec fn xy_offset(width: nat, height: nat, x: nat, y: nat) -> int {
    (height - 1 - y) * width + x
}

/// `pixels` with every color replaced by `color`.
pub open spec fn filled(pixels: Seq<Color>, color: Color) -> Seq<Color> {
    Seq::new(pixels.len(), |i: int| color)
}

/// The bytes of a run of colors, three per color in red, green, blue order.
pub open spec fn rgb_bytes(pixels: Seq<Color>) -> Seq<u8> {
    Seq::new(
        3 * pixels.len(),
        |i: int|
            if i % 3 == 0 {
                pixels[i / 3].r
            } else if i % 3 == 1 {
                pixels[i / 3].g
            } else {
                pixels[i / 3].b
            },
    )
}

impl View for Image {
    type V = Seq<Color>;

    /// The pixels, row after row.
    closed spec fn view(&self) -> Seq<Color> {
        self.pixels@
    }
}

impl Image {
    #[verifier::type_invariant]
    spec fn inv(self) -> bool {
        &&& self.pixels@.len() == self.width * self.height
        &&& fits_in_memory(self.width as nat, self.height as nat)
    }

    /// The width in pixels.
    pub closed spec fn spec_width(&self) -> usize {
        self.width
    }

    /// The height in pixels.
    pub closed spec fn spec_height(&self) -> usize {
        self.height
    }

    /// The pixel at `(row, col)`.
    pub open spec fn at_rc(&self, row: nat, col: nat) -> Color {
        self@[rc_offset(self.spec_width() as nat, row, col)]
    }

    /// The pixel at `(x, y)`, `y` counted from the bottom row.
    pub open spec fn at_xy(&self, x: nat, y: nat) -> Color {
        self@[xy_offset(self.spec_width() as nat, self.spec_height() as nat, x, y)]
    }

    /// The width of the image in pixels.
    #[verifier::when_used_as_spec(spec_width)]
    pub fn width(&self) -> (w: usize)
        ensures
            w == self.spec_width(),
            self@.len() == self.spec_width() * self.spec_height(),
            fits_in_memory(self.spec_width() as nat, self.spec_height() as nat),
    {
        proof {
            use_type_invariant(self);
        }
        self.width
    }

    /// The height of the image in pixels.
    #[verifier::when_used_as_spec(spec_height)]
    pub fn height(&self) -> (h: usize)
        ensures
            h == self.spec_height(),
            self@.len() == self.spec_width() * self.spec_height(),
            fits_in_memory(self.spec_width() as nat, self.spec_height() as nat),
    {
        proof {
            use_type_invariant(self);
        }
        self.height
    }

    /// Whether a `width * height` image can be held.
    pub fn fits(width: usize, height: usize) -> (r: bool)
        ensures
            r == fits_in_memory(width as nat, height as nat),
    {
        proof {
            assert(width * height <= (usize::MAX as int) * (usize::MAX as int)) by (nonlinear_arith)
                requires
                    width <= usize::MAX,
                    height <= usize::MAX,
            ;
        }
        let count: u128 = width as u128 * height as u128;
        count <= (isize::MAX as u128) / 3
    }

    /// Create an all-black image with the given dimensions.
    pub fn new(width: usize, height: usize) -> (img: Image)
        requires
            fits_in_memory(width as nat, height as nat),
        ensures
            img.spec_width() == width,
            img.spec_height() == height,
            img@ == Seq::new((width * height) as nat, |i: int| Color { r: 0, g: 0, b: 0 }),
    {
        let n: usize = width * height;
        let mut pixels: Vec<Color> = Vec::with_capacity(n);
        let mut i: usize = 0;
        while i < n
            invariant
                i <= n,
                pixels@ == Seq::new(i as nat, |k: int| Color { r: 0, g: 0, b: 0 }),
            decreases n - i,
        {
            pixels.push(Color { r: 0, g: 0, b: 0 });
            i = i + 1;
        }
        assert(pixels@ =~= Seq::new(n as nat, |k: int| Color { r: 0, g: 0, b: 0 }));
        Image { width, height, pixels }
    }

    /// Fill the image with a single solid color.
    pub fn fill(&mut self, color: Color)
        ensures
            final(self).spec_width() == old(self).spec_width(),
            final(self).spec_height() == old(self).spec_height(),
            final(self)@ == filled(old(self)@, color),
        no_unwind
    {
        proof {
            use_type_invariant(&*self);
        }
        let n: usize = self.pixels.len();
        let mut i: usize = 0;
        while i < n
            invariant
                i <= n,
                n == old(self)@.len(),
                self.width == old(self).width,
                self.height == old(self).height,
                self.pixels@.len() == n,
                n == self.width * self.height,
                fits_in_memory(self.width as nat, self.height as nat),
                forall|k: int| 0 <= k < i ==> self.pixels@[k] == color,
            decreases n - i,
        {
            self.pixels[i] = color;
            i = i + 1;
        }
        assert(self.pixels@ =~= Seq::new(n as nat, |k: int| color));
    }

    /// Set the pixel at `(row, col)`.
    pub fn set_rc(&mut self, pos: RC, color: Color)
        requires
            pos.0 < old(self).spec_height(),
            pos.1 < old(self).spec_width(),
        ensures
            final(self).spec_width() == old(self).spec_width(),
            final(self).spec_height() == old(self).spec_height(),
            final(self)@ == old(self)@.update(
                rc_offset(old(self).spec_width() as nat, pos.0 as nat, pos.1 as nat),
                color,
            ),
        no_unwind
    {
        proof {
            use_type_invariant(&*self);
            lemma_offset_in_bounds(self.width as nat, self.height as nat, pos.0 as nat, pos.1 as nat);
        }
        let i: usize = pos.0 * self.width + pos.1;
        self.pixels[i] = color;
    }

    /// Set the pixel at `(x, y)`, `y` counted from the bottom row.
    pub fn set_xy(&mut self, pos: XY, color: Color)
        requires
            pos.0 < old(self).spec_width(),
            pos.1 < old(self).spec_height(),
        ensures
            final(self).spec_width() == old(self).spec_width(),
            final(self).spec_height() == old(self).spec_height(),
            final(self)@ == old(self)@.update(
                xy_offset(old(self).spec_width() as nat, old(self).spec_height() as nat, pos.0 as nat, pos.1 as nat),
                color,
            ),
        no_unwind
    {
        proof {
            use_type_invariant(&*self);
        }
        let row: usize = self.height - 1 - pos.1;
        self.set_rc(RC(row, pos.0), color);
    }

    /// The pixels packed as bytes for upload: three per pixel, red, green and
    /// blue, with no padding, in the order of the pixels.
    pub fn to_bytes(&self) -> (bytes: Vec<u8>)
        ensures
            bytes@ == rgb_bytes(self@),
    {
        proof {
            use_type_invariant(self);
        }
        let n: usize = self.pixels.len();
        let mut bytes: Vec<u8> = Vec::with_capacity(3 * n);
        let mut i: usize = 0;
        while i < n
            invariant
                i <= n,
                n == self@.len(),
                bytes@ == rgb_bytes(self@.subrange(0, i as int)),
            decreases n - i,
        {
            let c: Color = self.pixels[i];
            bytes.push(c.r);
            bytes.push(c.g);
            bytes.push(c.b);
            i = i + 1;
        }
        bytes
    }
}

impl std::ops::Index<RC> for Image {
    type Output = Color;

    /// The pixel at `(row, col)`.
    fn index(&self, pos: RC) -> (c: &Color)
        ensures
            *c == self.at_rc(pos.0 as nat, pos.1 as nat),
    {
        proof {
            use_type_invariant(self);
            lemma_offset_in_bounds(self.width as nat, self.height as nat, pos.0 as nat, pos.1 as nat);
        }
        &self.pixels[pos.0 * self.width + pos.1]
    }
}

impl vstd::std_specs::core::IndexSpecImpl<RC> for Image {
    open spec fn index_req(&self, pos: &RC) -> bool {
        pos.0 < self.spec_height() && pos.1 < self.spec_width()
    }
}

impl std::ops::Index<XY> for Image {
    type Output = Color;

    /// The pixel at `(x, y)`, `y` counted from the bottom row.
    fn index(&self, pos: XY) -> (c: &Color)
        ensures
            *c == self.at_xy(pos.0 as nat, pos.1 as nat),
    {
        proof {
            use_type_invariant(self);
        }
        let row: usize = self.height - 1 - pos.1;
        proof {
            lemma_offset_in_bounds(self.width as nat, self.height as nat, row as nat, pos.0 as nat);
        }
        &self.pixels[row * self.width + pos.0]
    }
}

impl vstd::std_specs::core::IndexSpecImpl<XY> for Image {
    open spec fn index_req(&self, pos: &XY) -> bool {
        pos.0 < self.spec_width() && pos.1 < self.spec_height()
    }
}

impl std::ops::Deref for Image {
    type Target = [Color];

    /// The pixels as a slice, row after row.
    fn deref(&self) -> (s: &[Color])
        ensures
            s@ == self@,
    {
        self.pixels.as_slice()
    }
}

/// A pixel inside the image has its offset inside the buffer.
proof fn lemma_offset_in_bounds(width: nat, height: nat, row: nat, col: nat)
    requires
        row < height,
        col < width,
    ensures
        0 <= rc_offset(width, row, col) < width * height,
{
    assert(row * width + col < width * height) by (nonlinear_arith)
        requires
            row < height,
            col < width,
    ;
}

/// After a fill every pixel holds the fill color, and of two fills in a row
/// the second wins at every pixel.
pub proof fn lemma_fill_last_wins(pixels: Seq<Color>, first: Color, second: Color)
    ensures
        forall|i: int| 0 <= i < pixels.len() ==> #[trigger] filled(pixels, first)[i] == first,
        filled(filled(pixels, first), second) == filled(pixels, second),
        filled(pixels, first).len() == pixels.len(),
{
    assert(filled(filled(pixels, first), second) =~= filled(pixels, second));
}

/// Reading a pixel by `(row, col)` and by `(x, y) = (col, height - 1 - row)`
/// gives the same color.
pub proof fn lemma_rc_xy_agree(img: &Image, row: nat, col: nat)
    requires
        row < img.spec_height(),
        col < img.spec_width(),
    ensures
        img.at_rc(row, col) == img.at_xy(col, (img.spec_height() - 1 - row) as nat),
{
}

} // verus!
