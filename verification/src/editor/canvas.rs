//! A software pixel canvas: rectangles, one-pixel borders, bitmap-font text
//! and scaled images drawn into `0x00RRGGBB` pixels, row by row.

use vstd::prelude::*;

verus! {

/// A rectangle in canvas pixel coordinates.
#[derive(Debug, Copy, Clone, PartialEq, Eq, Structural)]
pub struct Area {
    /// Left edge.
    pub x: u32,
    /// Top edge.
    pub y: u32,
    /// Width in pixels.
    pub width: u32,
    /// Height in pixels.
    pub height: u32,
}

impl Area {
    /// Creates a rectangle.
    pub fn new(x: u32, y: u32, width: u32, height: u32) -> (a: Self)
        ensures
            a == (Area { x, y, width, height }),
    {
        Area { x, y, width, height }
    }
}

/// One glyph of a bitmap font: its character and its rows, top to bottom;
/// bit `4 - c` of a row lights column `c` of the five-pixel-wide cell.
#[derive(Debug, PartialEq, Eq)]
pub struct PixelGlyph {
    /// The character drawn.
    pub character: char,
    /// Glyph rows, top to bottom.
    pub rows: Vec<u8>,
}

/// A bitmap font: glyphs looked up by character, first match wins.
#[derive(Debug, PartialEq, Eq)]
pub struct PixelFont {
    /// The glyphs.
    pub glyphs: Vec<PixelGlyph>,
}

/// Whether `g` is the ASCII uppercase form of `c` (`c` itself when `c` is
/// not a lowercase ASCII letter).
pub open spec fn is_upper_of(g: char, c: char) -> bool {
    if 'a' <= c && c <= 'z' {
        g as u32 == c as u32 - 32
    } else {
        g == c
    }
}

/// The rows of the first glyph for the ASCII uppercase form of `c`, or none
/// when the font has no glyph for it.
pub open spec fn glyph_rows(glyphs: Seq<PixelGlyph>, c: char) -> Seq<u8>
    decreases glyphs.len(),
{
    if glyphs.len() == 0 {
        Seq::empty()
    } else if is_upper_of(glyphs[0].character, c) {
        glyphs[0].rows@
    } else {
        glyph_rows(glyphs.drop_first(), c)
    }
}

/// The position of the first glyph for the ASCII uppercase form of `c`.
pub open spec fn glyph_index(glyphs: Seq<PixelGlyph>, c: char) -> Option<int>
    decreases glyphs.len(),
{
    if glyphs.len() == 0 {
        None
    } else if is_upper_of(glyphs[0].character, c) {
        Some(0)
    } else {
        match glyph_index(glyphs.drop_first(), c) {
            Some(k) => Some(k + 1),
            None => None,
        }
    }
}

/// Whether column `column` (0 to 4) of a glyph row is lit.
pub open spec fn glyph_bit(bits: u8, column: int) -> bool {
    0 <= column < 5 && bits & (1u8 << ((4 - column) as u8)) != 0
}

/// A canvas as pixels, width and height.
pub struct CanvasView {
    pub pixels: Seq<u32>,
    pub width: nat,
    pub height: nat,
}

/// `c` with every pixel inside the canvas whose coordinates `cover` holds
/// set to the colour `color` gives for them; pixel `i` sits at column
/// `i % width` of row `i / width`.
pub open spec fn repaint(
    c: CanvasView,
    cover: spec_fn(int, int) -> bool,
    color: spec_fn(int, int) -> u32,
) -> CanvasView {
    CanvasView {
        pixels: Seq::new(
            c.pixels.len(),
            |i: int|
                if c.width > 0 && i / (c.width as int) < c.height && cover(
                    i % (c.width as int),
                    i / (c.width as int),
                ) {
                    color(i % (c.width as int), i / (c.width as int))
                } else {
                    c.pixels[i]
                },
        ),
        ..c
    }
}

/// The rectangle with corner `(x, y)` and size `width` by `height`.
pub open spec fn rect_cover(x: int, y: int, width: int, height: int) -> spec_fn(int, int) -> bool {
    |px: int, py: int| x <= px < x + width && y <= py < y + height
}

/// One colour everywhere.
pub open spec fn solid(color: u32) -> spec_fn(int, int) -> u32 {
    |px: int, py: int| color
}

/// `c` with a rectangle filled.
pub open spec fn filled(c: CanvasView, x: int, y: int, width: int, height: int, color: u32) -> CanvasView {
    repaint(c, rect_cover(x, y, width, height), solid(color))
}

/// `c` with the one-pixel border of `a` drawn: the top row, the bottom row,
/// the left column, then the right column. An empty area draws nothing.
pub open spec fn stroked(c: CanvasView, a: Area, color: u32) -> CanvasView {
    if a.width == 0 || a.height == 0 {
        c
    } else {
        let top = filled(c, a.x as int, a.y as int, a.width as int, 1, color);
        let bottom = filled(top, a.x as int, a.y + a.height - 1, a.width as int, 1, color);
        let left = filled(bottom, a.x as int, a.y as int, 1, a.height as int, color);
        filled(left, a.x + a.width - 1, a.y as int, 1, a.height as int, color)
    }
}

/// The pixels text lights: character `k` sits in a six-pixel-wide cell at
/// `x + 6k`; a space draws nothing, any other character draws the glyph of
/// its ASCII uppercase form with its top row at `y`.
pub open spec fn text_cover(x: int, y: int, chars: Seq<char>, glyphs: Seq<PixelGlyph>) -> spec_fn(
    int,
    int,
) -> bool {
    |px: int, py: int|
        {
            let k = (px - x) / 6;
            let column = (px - x) % 6;
            let rows = glyph_rows(glyphs, chars[k]);
            &&& x <= px
            &&& k < chars.len()
            &&& chars[k] != ' '
            &&& y <= py < y + rows.len()
            &&& glyph_bit(rows[py - y], column)
        }
}

/// `c` with `chars` written in `color` from `(x, y)`.
pub open spec fn written(
    c: CanvasView,
    x: int,
    y: int,
    chars: Seq<char>,
    color: u32,
    glyphs: Seq<PixelGlyph>,
) -> CanvasView {
    repaint(c, text_cover(x, y, chars, glyphs), solid(color))
}

proof fn lemma_glyph_index(glyphs: Seq<PixelGlyph>, c: char)
    ensures
        match glyph_index(glyphs, c) {
            Some(k) => 0 <= k < glyphs.len() && glyph_rows(glyphs, c) == glyphs[k].rows@,
            None => glyph_rows(glyphs, c) == Seq::<u8>::empty(),
        },
    decreases glyphs.len(),
{
    if glyphs.len() > 0 && !is_upper_of(glyphs[0].character, c) {
        lemma_glyph_index(glyphs.drop_first(), c);
    }
}

/// Whether `g` is the ASCII uppercase form of `c`.
fn upper_matches(g: char, c: char) -> (r: bool)
    ensures
        r == is_upper_of(g, c),
{
    if 'a' <= c && c <= 'z' {
        g as u32 == c as u32 - 32
    } else {
        g == c
    }
}

impl PixelFont {
    /// The position of the glyph drawn for `c`, if the font has one.
    pub fn glyph_for(&self, c: char) -> (r: Option<usize>)
        ensures
            match r {
                Some(k) => glyph_index(self.glyphs@, c) == Some(k as int),
                None => glyph_index(self.glyphs@, c) is None,
            },
    {
        let mut i: usize = 0;
        assert(self.glyphs@.skip(0) =~= self.glyphs@);
        while i < self.glyphs.len()
            invariant
                i <= self.glyphs@.len(),
                forall|j: int| 0 <= j < i ==> !is_upper_of(#[trigger] self.glyphs@[j].character, c),
                glyph_index(self.glyphs@, c) == match glyph_index(self.glyphs@.skip(i as int), c) {
                    Some(k) => Some(k + i),
                    None => None::<int>,
                },
            decreases self.glyphs@.len() - i,
        {
            assert(self.glyphs@.skip(i as int).drop_first() =~= self.glyphs@.skip(i + 1));
            if upper_matches(self.glyphs[i].character, c) {
                return Some(i);
            }
            i = i + 1;
        }
        None
    }
}

/// The characters of `s`.
fn chars_of(s: &str) -> (r: Vec<char>)
    ensures
        r@ == s@,
{
    let n = s.unicode_len();
    let mut r: Vec<char> = Vec::new();
    let mut i: usize = 0;
    while i < n
        invariant
            n == s@.len(),
            i <= n,
            r@ == s@.take(i as int),
        decreases n - i,
    {
        r.push(s.get_char(i));
        assert(s@.take(i + 1) =~= s@.take(i as int).push(s@[i as int]));
        i = i + 1;
    }
    assert(s@.take(n as int) =~= s@);
    r
}

/// The glyph of each character, as `PixelFont::glyph_for` finds it.
pub open spec fn cells_match(cells: Seq<Option<usize>>, chars: Seq<char>, glyphs: Seq<PixelGlyph>) -> bool {
    &&& cells.len() == chars.len()
    &&& forall|k: int|
        0 <= k < cells.len() ==> match #[trigger] cells[k] {
            Some(g) => glyph_index(glyphs, chars[k]) == Some(g as int),
            None => glyph_index(glyphs, chars[k]) is None,
        }
}

/// Whether text lights the pixel at `(column, row)`.
fn text_lit(
    x: u64,
    y: u64,
    chars: &Vec<char>,
    cells: &Vec<Option<usize>>,
    font: &PixelFont,
    column: u64,
    row: u64,
) -> (r: bool)
    requires
        cells_match(cells@, chars@, font.glyphs@),
    ensures
        r == (text_cover(x as int, y as int, chars@, font.glyphs@))(column as int, row as int),
{
    if column < x || row < y {
        return false;
    }
    let d = column - x;
    let k = d / 6;
    let cell_column = d % 6;
    if k >= chars.len() as u64 {
        return false;
    }
    let c = chars[k as usize];
    if c == ' ' {
        return false;
    }
    proof {
        lemma_glyph_index(font.glyphs@, c);
    }
    match cells[k as usize] {
        None => false,
        Some(g) => {
            let rows = &font.glyphs[g].rows;
            let r = row - y;
            if r >= rows.len() as u64 {
                return false;
            }
            let bits = rows[r as usize];
            cell_column < 5 && bits & (1u8 << (4u8 - cell_column as u8)) != 0
        },
    }
}

/// An image as `0x00RRGGBB` pixels, row by row, and its size.
pub struct PixelImageView {
    pub width: nat,
    pub height: nat,
    pub pixels: Seq<u32>,
}

/// An image of `0x00RRGGBB` pixels, row by row; it holds exactly
/// `width * height` pixels.
#[derive(Debug, PartialEq, Eq)]
pub struct PixelImage {
    width: u32,
    height: u32,
    pixels: Vec<u32>,
}

impl View for PixelImage {
    type V = PixelImageView;

    closed spec fn view(&self) -> PixelImageView {
        PixelImageView { width: self.width as nat, height: self.height as nat, pixels: self.pixels@ }
    }
}

impl PixelImage {
    #[verifier::type_invariant]
    spec fn sized(self) -> bool {
        self.pixels@.len() == self.width * self.height
    }

    /// Creates an image; `None` unless there are exactly `width * height`
    /// pixels.
    pub fn new(width: u32, height: u32, pixels: Vec<u32>) -> (r: Option<Self>)
        ensures
            pixels@.len() == width * height ==> (r matches Some(i) && i@ == (PixelImageView {
                width: width as nat,
                height: height as nat,
                pixels: pixels@,
            })),
            pixels@.len() != width * height ==> r is None,
    {
        assert((width as u64) * (height as u64) <= 0xffff_fffe_0000_0001) by (nonlinear_arith)
            requires
                width <= u32::MAX,
                height <= u32::MAX,
        ;
        let area = (width as u64) * (height as u64);
        if pixels.len() as u128 == area as u128 {
            Some(PixelImage { width, height, pixels })
        } else {
            None
        }
    }

    /// Returns the width.
    pub fn width(&self) -> (w: u32)
        ensures
            w == self@.width,
    {
        self.width
    }

    /// Returns the height.
    pub fn height(&self) -> (h: u32)
        ensures
            h == self@.height,
    {
        self.height
    }

    /// Returns the pixels.
    pub fn pixels(&self) -> (p: &[u32])
        ensures
            p@ == self@.pixels,
            p@.len() == self@.width * self@.height,
    {
        proof {
            use_type_invariant(self);
        }
        self.pixels.as_slice()
    }
}

impl Clone for PixelImage {
    fn clone(&self) -> (r: Self)
        ensures
            r@ == self@,
    {
        proof {
            use_type_invariant(self);
        }
        let pixels = self.pixels.clone();
        assert(pixels@ =~= self.pixels@);
        PixelImage { width: self.width, height: self.height, pixels }
    }
}

/// The image pixel that lands on `(px, py)` when `img` is scaled into `a`:
/// the source row and column are the target's offsets scaled by the
/// image-to-area ratio, rounded down.
pub open spec fn image_color(img: PixelImageView, a: Area) -> spec_fn(int, int) -> u32 {
    |px: int, py: int|
        img.pixels[((py - a.y) * img.height / (a.height as int)) * img.width + (px - a.x)
            * img.width / (a.width as int)]
}

/// `c` with `img` scaled into `a`; an empty area or image draws nothing.
pub open spec fn blitted(c: CanvasView, img: PixelImageView, a: Area) -> CanvasView {
    if a.width == 0 || a.height == 0 || img.width == 0 || img.height == 0 {
        c
    } else {
        repaint(
            c,
            rect_cover(a.x as int, a.y as int, a.width as int, a.height as int),
            image_color(img, a),
        )
    }
}

proof fn lemma_scaled_index(t: int, a: int, n: int)
    requires
        0 <= t < a,
        n > 0,
    ensures
        0 <= t * n / a < n,
{
    assert(0 <= t * n) by (nonlinear_arith)
        requires
            0 <= t,
            n > 0,
    ;
    assert(t * n < a * n) by (nonlinear_arith)
        requires
            t < a,
            n > 0,
    ;
    vstd::arithmetic::div_mod::lemma_div_pos_is_pos(t * n, a);
    vstd::arithmetic::div_mod::lemma_multiply_divide_lt(t * n, a, n);
}

/// A drawing surface over `0x00RRGGBB` pixels, row by row.
#[derive(Debug, PartialEq, Eq)]
pub struct Canvas {
    pixels: Vec<u32>,
    width: u32,
    height: u32,
}

impl View for Canvas {
    type V = CanvasView;

    closed spec fn view(&self) -> CanvasView {
        CanvasView { pixels: self.pixels@, width: self.width as nat, height: self.height as nat }
    }
}

impl Canvas {
    /// Creates a canvas over `pixels`, `width` pixels per row.
    pub fn new(pixels: Vec<u32>, width: u32, height: u32) -> (c: Self)
        ensures
            c@ == (CanvasView { pixels: pixels@, width: width as nat, height: height as nat }),
    {
        Canvas { pixels, width, height }
    }

    /// Returns the pixels.
    pub fn into_pixels(self) -> (p: Vec<u32>)
        ensures
            p@ == self@.pixels,
    {
        self.pixels
    }

    /// Fills the rectangle at `(x, y)` of `width` by `height` pixels.
    pub fn fill_rect(&mut self, x: u64, y: u64, width: u64, height: u64, color: u32)
        ensures
            final(self)@ == filled(old(self)@, x as int, y as int, width as int, height as int, color),
    {
        let ghost start = self@;
        let n = self.pixels.len();
        let w = self.width as usize;
        let h = self.height as usize;
        if w == 0 {
            proof {
                assert(self@.pixels =~= filled(start, x as int, y as int, width as int, height as int, color).pixels);
            }
            return;
        }
        let mut i: usize = 0;
        while i < n
            invariant
                n == self.pixels@.len(),
                n == start.pixels.len(),
                w == start.width,
                h == start.height,
                w > 0,
                self.width == start.width,
                self.height == start.height,
                0 <= i <= n,
                forall|j: int|
                    0 <= j < n ==> #[trigger] self.pixels@[j] == if j < i {
                        filled(start, x as int, y as int, width as int, height as int, color).pixels[j]
                    } else {
                        start.pixels[j]
                    },
            decreases n - i,
        {
            let column = (i % w) as u64;
            let row = (i / w) as u64;
            if row < h as u64 && x <= column && column - x < width && y <= row && row - y < height {
                self.pixels.set(i, color);
            }
            i = i + 1;
        }
        proof {
            assert(self@.pixels =~= filled(start, x as int, y as int, width as int, height as int, color).pixels);
        }
    }

    /// Fills an area.
    pub fn fill(&mut self, area: Area, color: u32)
        ensures
            final(self)@ == filled(
                old(self)@,
                area.x as int,
                area.y as int,
                area.width as int,
                area.height as int,
                color,
            ),
    {
        self.fill_rect(area.x as u64, area.y as u64, area.width as u64, area.height as u64, color);
    }

    /// Writes `text` in `color` from `(x, y)` with `font`.
    pub fn text(&mut self, x: u64, y: u64, text: &str, color: u32, font: &PixelFont)
        ensures
            final(self)@ == written(old(self)@, x as int, y as int, text@, color, font.glyphs@),
    {
        let ghost start = self@;
        let chars = chars_of(text);
        let mut cells: Vec<Option<usize>> = Vec::new();
        let mut k: usize = 0;
        while k < chars.len()
            invariant
                k <= chars@.len(),
                cells_match(cells@, chars@.take(k as int), font.glyphs@),
            decreases chars@.len() - k,
        {
            let cell = font.glyph_for(chars[k]);
            cells.push(cell);
            k = k + 1;
        }
        assert(chars@.take(k as int) =~= chars@);
        let ghost target = written(start, x as int, y as int, text@, color, font.glyphs@);
        let n = self.pixels.len();
        let w = self.width as usize;
        let h = self.height as usize;
        if w == 0 {
            proof {
                assert(self@.pixels =~= target.pixels);
            }
            return;
        }
        let mut i: usize = 0;
        while i < n
            invariant
                n == self.pixels@.len(),
                n == start.pixels.len(),
                w == start.width,
                h == start.height,
                w > 0,
                self.width == start.width,
                self.height == start.height,
                cells_match(cells@, chars@, font.glyphs@),
                chars@ == text@,
                target == written(start, x as int, y as int, text@, color, font.glyphs@),
                0 <= i <= n,
                forall|j: int|
                    0 <= j < n ==> #[trigger] self.pixels@[j] == if j < i {
                        target.pixels[j]
                    } else {
                        start.pixels[j]
                    },
            decreases n - i,
        {
            let column = (i % w) as u64;
            let row = (i / w) as u64;
            if row < h as u64 && text_lit(x, y, &chars, &cells, font, column, row) {
                self.pixels.set(i, color);
            }
            i = i + 1;
        }
        proof {
            assert(self@.pixels =~= target.pixels);
        }
    }

    /// Draws `image` scaled into `area`.
    pub fn blit_image(&mut self, image: &PixelImage, area: Area)
        ensures
            final(self)@ == blitted(old(self)@, image@, area),
    {
        let ghost start = self@;
        let iw = image.width() as u64;
        let ih = image.height() as u64;
        let source = image.pixels();
        if area.width == 0 || area.height == 0 || iw == 0 || ih == 0 {
            return;
        }
        let ghost target = blitted(start, image@, area);
        let ax = area.x as u64;
        let ay = area.y as u64;
        let aw = area.width as u64;
        let ah = area.height as u64;
        let n = self.pixels.len();
        let w = self.width as usize;
        let h = self.height as usize;
        if w == 0 {
            proof {
                assert(self@.pixels =~= target.pixels);
            }
            return;
        }
        let mut i: usize = 0;
        while i < n
            invariant
                n == self.pixels@.len(),
                n == start.pixels.len(),
                w == start.width,
                h == start.height,
                w > 0,
                self.width == start.width,
                self.height == start.height,
                source@ == image@.pixels,
                source@.len() == iw * ih,
                iw == image@.width,
                ih == image@.height,
                iw > 0,
                ih > 0,
                ax == area.x,
                ay == area.y,
                aw == area.width,
                ah == area.height,
                aw > 0,
                ah > 0,
                target == blitted(start, image@, area),
                0 <= i <= n,
                forall|j: int|
                    0 <= j < n ==> #[trigger] self.pixels@[j] == if j < i {
                        target.pixels[j]
                    } else {
                        start.pixels[j]
                    },
            decreases n - i,
        {
            let column = (i % w) as u64;
            let row = (i / w) as u64;
            if row < h as u64 && ax <= column && column - ax < aw && ay <= row && row - ay < ah {
                let ty = row - ay;
                let tx = column - ax;
                proof {
                    lemma_scaled_index(ty as int, ah as int, ih as int);
                    lemma_scaled_index(tx as int, aw as int, iw as int);
                    assert(ty * ih < 0x1_0000_0000_0000_0000) by (nonlinear_arith)
                        requires
                            ty < ah,
                            ah <= u32::MAX,
                            ih <= u32::MAX,
                    ;
                    assert(tx * iw < 0x1_0000_0000_0000_0000) by (nonlinear_arith)
                        requires
                            tx < aw,
                            aw <= u32::MAX,
                            iw <= u32::MAX,
                    ;
                }
                let sy = ty * ih / ah;
                let sx = tx * iw / aw;
                proof {
                    assert(sy * iw + sx < iw * ih) by (nonlinear_arith)
                        requires
                            sy < ih,
                            sx < iw,
                    ;
                    assert(iw * ih <= 0xffff_fffe_0000_0001) by (nonlinear_arith)
                        requires
                            iw <= u32::MAX,
                            ih <= u32::MAX,
                    ;
                }
                let index = (sy * iw + sx) as usize;
                self.pixels.set(i, source[index]);
            }
            i = i + 1;
        }
        proof {
            assert(self@.pixels =~= target.pixels);
        }
    }

    /// Draws the one-pixel border of an area.
    pub fn stroke(&mut self, area: Area, color: u32)
        ensures
            final(self)@ == stroked(old(self)@, area, color),
    {
        if area.width == 0 || area.height == 0 {
            return;
        }
        let x = area.x as u64;
        let y = area.y as u64;
        let width = area.width as u64;
        let height = area.height as u64;
        self.fill_rect(x, y, width, 1, color);
        self.fill_rect(x, y + height - 1, width, 1, color);
        self.fill_rect(x, y, 1, height, color);
        self.fill_rect(x + width - 1, y, 1, height, color);
    }
}

} // verus!
