//! The panel's framebuffer of four-bit intensities, and the primitives that
//! draw into it: pixels, filled rectangles, glyphs and strings.
use vstd::prelude::*;
use crate::font::{glyph_on, glyph_pixel};

verus! {

pub const DISPLAY_WIDTH: usize = 256;

pub const DISPLAY_HEIGHT: usize = 64;

/// One intensity per pixel, row-major.
pub const DISPLAY_BUFFER_SIZE: usize = 16384;

pub const DISPLAY_BLACK: u8 = 0;

pub const DISPLAY_VLOW_SHADE: u8 = 1;

pub const DISPLAY_LOW_SHADE: u8 = 4;

pub const DISPLAY_MID_SHADE: u8 = 8;

pub const DISPLAY_WHITE: u8 = 15;

/// Scale of the regular font: each font cell is a 2 by 2 block.
pub const FONT_SCALE: usize = 2;

/// Scale of the large font.
pub const LARGE_FONT_SCALE: usize = 4;

/// Width of a character cell of the regular font.
pub const FONT_WIDTH: usize = 10;

/// Height of a character cell of the regular font.
pub const FONT_HEIGHT: usize = 16;

/// Something drawn onto the framebuffer.
pub enum Shape {
    /// A filled rectangle of one shade.
    Rect { x: int, y: int, w: int, h: int, shade: u8 },
    /// A character cell: lit font cells in `fg`, the others in `bg`, each font
    /// cell a `scale` by `scale` block.
    Glyph { x: int, y: int, c: u8, fg: u8, bg: u8, scale: int },
}

/// Whether the shape covers pixel (`px`, `py`).
pub open spec fn covers(s: Shape, px: int, py: int) -> bool {
    match s {
        Shape::Rect { x, y, w, h, .. } => x <= px < x + w && y <= py < y + h,
        Shape::Glyph { x, y, scale, .. } => x <= px < x + 5 * scale && y <= py < y + 8 * scale,
    }
}

/// The shade that the shape gives to a pixel it covers.
pub open spec fn color_at(s: Shape, px: int, py: int) -> u8 {
    match s {
        Shape::Rect { shade, .. } => shade,
        Shape::Glyph { x, y, c, fg, bg, scale } => if glyph_on(
            c,
            (px - x) / scale,
            (py - y) / scale,
        ) {
            fg
        } else {
            bg
        },
    }
}

/// Index of pixel (`x`, `y`) in the framebuffer.
pub open spec fn pixel_index(x: int, y: int) -> int {
    y * DISPLAY_WIDTH + x
}

/// The framebuffer `fb` with shape `s` drawn over it; what falls outside the panel is clipped.
pub open spec fn paint(fb: Seq<u8>, s: Shape) -> Seq<u8> {
    Seq::new(
        fb.len(),
        |i: int|
            if covers(s, i % DISPLAY_WIDTH as int, i / DISPLAY_WIDTH as int) {
                color_at(s, i % DISPLAY_WIDTH as int, i / DISPLAY_WIDTH as int)
            } else {
                fb[i]
            },
    )
}

/// The shapes drawn over `fb` in order, later ones over earlier ones.
#[verifier::opaque]
pub open spec fn paint_all(fb: Seq<u8>, shapes: Seq<Shape>) -> Seq<u8>
    decreases shapes.len(),
{
    if shapes.len() == 0 {
        fb
    } else {
        paint(paint_all(fb, shapes.drop_last()), shapes.last())
    }
}

/// `paint` restricted to the pixels in [`x0`, `x1`) by [`y0`, `y1`).
pub open spec fn paint_within(fb: Seq<u8>, s: Shape, x0: int, y0: int, x1: int, y1: int) -> Seq<
    u8,
> {
    Seq::new(
        fb.len(),
        |i: int|
            {
                let px = i % DISPLAY_WIDTH as int;
                let py = i / DISPLAY_WIDTH as int;
                if x0 <= px < x1 && y0 <= py < y1 && covers(s, px, py) {
                    color_at(s, px, py)
                } else {
                    fb[i]
                }
            },
    )
}

/// Painting no shapes leaves the framebuffer as it was.
pub broadcast proof fn lemma_paint_all_empty(fb: Seq<u8>, shapes: Seq<Shape>)
    ensures
        #[trigger] paint_all(fb, shapes) == fb || shapes.len() != 0,
{
    reveal(paint_all);
}

pub proof fn lemma_paint_all_push(fb: Seq<u8>, shapes: Seq<Shape>, s: Shape)
    ensures
        paint_all(fb, shapes.push(s)) == paint(paint_all(fb, shapes), s),
{
    reveal(paint_all);
    assert(shapes.push(s).drop_last() =~= shapes);
}

/// Painting `a` then `b` is painting `a + b`.
pub proof fn lemma_paint_all_concat(fb: Seq<u8>, a: Seq<Shape>, b: Seq<Shape>)
    ensures
        paint_all(fb, a + b) == paint_all(paint_all(fb, a), b),
    decreases b.len(),
{
    reveal(paint_all);
    if b.len() == 0 {
        assert(a + b =~= a);
    } else {
        lemma_paint_all_concat(fb, a, b.drop_last());
        assert((a + b).drop_last() =~= a + b.drop_last());
        assert((a + b).last() == b.last());
    }
}

proof fn lemma_within_empty(fb: Seq<u8>, s: Shape, x0: int, y0: int, x1: int, y1: int)
    requires
        x1 <= x0 || y1 <= y0,
    ensures
        paint_within(fb, s, x0, y0, x1, y1) == fb,
{
    assert(paint_within(fb, s, x0, y0, x1, y1) =~= fb);
}

proof fn lemma_within_row(fb: Seq<u8>, s: Shape, x0: int, y0: int, x1: int, y1: int)
    requires
        y0 <= y1,
    ensures
        paint_within(paint_within(fb, s, x0, y0, x1, y1), s, x0, y1, x1, y1 + 1) == paint_within(
            fb,
            s,
            x0,
            y0,
            x1,
            y1 + 1,
        ),
{
    assert(paint_within(paint_within(fb, s, x0, y0, x1, y1), s, x0, y1, x1, y1 + 1)
        =~= paint_within(fb, s, x0, y0, x1, y1 + 1));
}

proof fn lemma_index_coords(x: int, y: int)
    requires
        0 <= x < DISPLAY_WIDTH,
        0 <= y < DISPLAY_HEIGHT,
    ensures
        0 <= pixel_index(x, y) < DISPLAY_BUFFER_SIZE,
        pixel_index(x, y) % DISPLAY_WIDTH as int == x,
        pixel_index(x, y) / DISPLAY_WIDTH as int == y,
{
    assert(0 <= pixel_index(x, y) < DISPLAY_BUFFER_SIZE) by (nonlinear_arith)
        requires
            0 <= x < 256,
            0 <= y < 64,
    ;
}

proof fn lemma_within_step(fb: Seq<u8>, s: Shape, x0: int, px: int, py: int)
    requires
        fb.len() == DISPLAY_BUFFER_SIZE,
        0 <= x0 <= px < DISPLAY_WIDTH,
        0 <= py < DISPLAY_HEIGHT,
        covers(s, px, py),
    ensures
        paint_within(fb, s, x0, py, px, py + 1).update(pixel_index(px, py), color_at(s, px, py))
            == paint_within(fb, s, x0, py, px + 1, py + 1),
{
    lemma_index_coords(px, py);
    let a = paint_within(fb, s, x0, py, px, py + 1).update(pixel_index(px, py), color_at(s, px, py));
    let b = paint_within(fb, s, x0, py, px + 1, py + 1);
    assert forall|i: int| 0 <= i < a.len() implies a[i] == b[i] by {
        if i != pixel_index(px, py) {
            assert(!(i % 256 == px && i / 256 == py));
        }
    }
    assert(a =~= b);
}

/// Clipping to the panel, drawing the part of a shape's box that is on it is drawing the shape.
proof fn lemma_within_whole(fb: Seq<u8>, s: Shape, x0: int, y0: int, bx1: int, by1: int, x1: int, y1: int)
    requires
        fb.len() == DISPLAY_BUFFER_SIZE,
        forall|px: int, py: int| #[trigger] covers(s, px, py) ==> x0 <= px < bx1 && y0 <= py < by1,
        x1 == if bx1 < DISPLAY_WIDTH { bx1 } else { DISPLAY_WIDTH as int },
        y1 == if by1 < DISPLAY_HEIGHT { by1 } else { DISPLAY_HEIGHT as int },
    ensures
        paint_within(fb, s, x0, y0, x1, y1) == paint(fb, s),
{
    assert(paint_within(fb, s, x0, y0, x1, y1) =~= paint(fb, s));
}

/// A shape that starts right of or below the panel leaves the framebuffer as it was.
proof fn lemma_offscreen(fb: Seq<u8>, s: Shape, x0: int, y0: int)
    requires
        fb.len() == DISPLAY_BUFFER_SIZE,
        x0 >= DISPLAY_WIDTH || y0 >= DISPLAY_HEIGHT,
        forall|px: int, py: int| #[trigger] covers(s, px, py) ==> x0 <= px && y0 <= py,
    ensures
        paint(fb, s) == fb,
{
    assert(paint(fb, s) =~= fb);
}

/// Character cells for `text`, side by side from (`x`, `y`).
pub open spec fn text_shapes(x: int, y: int, fg: u8, bg: u8, text: Seq<u8>, scale: int) -> Seq<
    Shape,
> {
    Seq::new(
        text.len(),
        |i: int| Shape::Glyph { x: x + i * 5 * scale, y, c: text[i], fg, bg, scale },
    )
}

/// The four one-pixel edges of the `w` by `h` box at (`x`, `y`), in white.
pub open spec fn box_shapes(x: int, y: int, w: int, h: int) -> Seq<Shape> {
    seq![
        Shape::Rect { x, y, w, h: 1, shade: DISPLAY_WHITE },
        Shape::Rect { x, y: y + h - 1, w, h: 1, shade: DISPLAY_WHITE },
        Shape::Rect { x, y, w: 1, h, shade: DISPLAY_WHITE },
        Shape::Rect { x: x + w - 1, y, w: 1, h, shade: DISPLAY_WHITE },
    ]
}

/// The byte that carries two horizontally adjacent pixels: the even one in
/// the high nibble, the odd one in the low nibble.
pub open spec fn pack_pair(even: u8, odd: u8) -> u8 {
    (even * 16 + odd) as u8
}

/// High nibble of a transmitted byte.
pub open spec fn unpack_high(b: u8) -> u8 {
    b / 16
}

/// Low nibble of a transmitted byte.
pub open spec fn unpack_low(b: u8) -> u8 {
    b % 16
}

/// Pixels per transmitted chunk.
pub const CHUNK_PIXELS: usize = 256;

/// Chunks per frame.
pub const CHUNKS_PER_FRAME: usize = 64;

/// Chunk `k` of the packed frame `fb`: pixels `256 k` to `256 k + 255`, two per byte.
pub open spec fn packed_chunk_of(fb: Seq<u8>, k: int) -> Seq<u8> {
    Seq::new(
        128,
        |j: int| pack_pair(fb[CHUNK_PIXELS * k + 2 * j], fb[CHUNK_PIXELS * k + 2 * j + 1]),
    )
}

/// The whole packed frame: byte `j` carries pixels `2 j` and `2 j + 1`, in scan order.
pub open spec fn packed_frame(fb: Seq<u8>) -> Seq<u8> {
    Seq::new(fb.len() / 2, |j: int| pack_pair(fb[2 * j], fb[2 * j + 1]))
}

/// Unpacking a transmitted byte gives back the two intensities packed into it.
pub proof fn lemma_pack_round_trip(a: u8, b: u8)
    requires
        a <= 15,
        b <= 15,
    ensures
        unpack_high(pack_pair(a, b)) == a,
        unpack_low(pack_pair(a, b)) == b,
{
}

/// The chunks, sent in order, are the packed frame.
pub proof fn lemma_chunks_make_frame(fb: Seq<u8>, k: int, j: int)
    requires
        fb.len() == DISPLAY_BUFFER_SIZE,
        0 <= k < CHUNKS_PER_FRAME,
        0 <= j < 128,
    ensures
        packed_chunk_of(fb, k)[j] == packed_frame(fb)[128 * k + j],
{
}

/// Packs two intensities into one byte.
pub fn pack_pixels(even: u8, odd: u8) -> (r: u8)
    requires
        even <= 15,
        odd <= 15,
    ensures
        r == pack_pair(even, odd),
{
    let r = (even << 4) | odd;
    assert(r == ((even * 16 + odd) as u8)) by (bit_vector)
        requires
            even <= 15,
            odd <= 15,
            r == (even << 4) | odd,
    ;
    r
}

/// After a clear, every pixel reads black.
pub proof fn lemma_cleared_pixel_is_black(fb: Seq<u8>, x: int, y: int)
    requires
        fb == Seq::new(DISPLAY_BUFFER_SIZE as nat, |i: int| 0u8),
        0 <= x < DISPLAY_WIDTH,
        0 <= y < DISPLAY_HEIGHT,
    ensures
        fb[pixel_index(x, y)] == 0,
        fb.len() == DISPLAY_BUFFER_SIZE,
{
    lemma_index_coords(x, y);
}

/// A panel's worth of four-bit intensities, with the primitives that draw into it.
pub struct Ssd1322Display {
    framebuffer: Vec<u8>,
}

impl View for Ssd1322Display {
    type V = Seq<u8>;

    closed spec fn view(&self) -> Seq<u8> {
        self.framebuffer@
    }
}

impl Ssd1322Display {
    /// The framebuffer has one cell per pixel, each a four-bit intensity.
    pub open spec fn wf(&self) -> bool {
        &&& self@.len() == DISPLAY_BUFFER_SIZE
        &&& forall|i: int| 0 <= i < self@.len() ==> #[trigger] self@[i] <= 15
    }

    /// A display whose every pixel is black.
    pub fn new() -> (r: Self)
        ensures
            r.wf(),
            r@ == Seq::new(DISPLAY_BUFFER_SIZE as nat, |i: int| 0u8),
    {
        let mut framebuffer: Vec<u8> = Vec::with_capacity(DISPLAY_BUFFER_SIZE);
        let mut i: usize = 0;
        while i < DISPLAY_BUFFER_SIZE
            invariant
                i <= DISPLAY_BUFFER_SIZE,
                framebuffer@ == Seq::new(i as nat, |k: int| 0u8),
            decreases DISPLAY_BUFFER_SIZE - i,
        {
            framebuffer.push(0);
            assert(framebuffer@ =~= Seq::new((i + 1) as nat, |k: int| 0u8));
            i = i + 1;
        }
        Self { framebuffer }
    }

    /// Sets every pixel to black, without touching the bus.
    pub fn clear(&mut self)
        requires
            old(self).wf(),
        ensures
            final(self).wf(),
            final(self)@ == Seq::new(DISPLAY_BUFFER_SIZE as nat, |i: int| 0u8),
    {
        let mut i: usize = 0;
        while i < DISPLAY_BUFFER_SIZE
            invariant
                i <= DISPLAY_BUFFER_SIZE,
                self.framebuffer@.len() == DISPLAY_BUFFER_SIZE,
                forall|k: int| 0 <= k < i ==> #[trigger] self.framebuffer@[k] == 0,
            decreases DISPLAY_BUFFER_SIZE - i,
        {
            self.framebuffer[i] = 0;
            i = i + 1;
        }
        assert(self@ =~= Seq::new(DISPLAY_BUFFER_SIZE as nat, |i: int| 0u8));
    }

    /// Intensity of pixel (`x`, `y`).
    pub fn pixel(&self, x: usize, y: usize) -> (r: u8)
        requires
            self.wf(),
            x < DISPLAY_WIDTH,
            y < DISPLAY_HEIGHT,
        ensures
            r == self@[pixel_index(x as int, y as int)],
    {
        proof {
            lemma_index_coords(x as int, y as int);
        }
        self.framebuffer[y * DISPLAY_WIDTH + x]
    }

    /// Sets pixel (`x`, `y`) to `shade` if it lies on the panel; does nothing otherwise.
    pub fn draw_pixel(&mut self, x: usize, y: usize, shade: u8)
        requires
            old(self).wf(),
            shade <= 15,
        ensures
            final(self).wf(),
            x < DISPLAY_WIDTH && y < DISPLAY_HEIGHT ==> final(self)@ == old(self)@.update(
                pixel_index(x as int, y as int),
                shade,
            ),
            !(x < DISPLAY_WIDTH && y < DISPLAY_HEIGHT) ==> final(self)@ == old(self)@,
    {
        if x < DISPLAY_WIDTH && y < DISPLAY_HEIGHT {
            proof {
                lemma_index_coords(x as int, y as int);
            }
            self.framebuffer[y * DISPLAY_WIDTH + x] = shade;
        }
    }

    /// Fills the rectangle of width `w` and height `h` whose top-left corner is (`x`, `y`).
    pub fn fill_rect(&mut self, x: usize, y: usize, w: usize, h: usize, shade: u8)
        requires
            old(self).wf(),
            shade <= 15,
        ensures
            final(self).wf(),
            final(self)@ == paint(
                old(self)@,
                Shape::Rect { x: x as int, y: y as int, w: w as int, h: h as int, shade },
            ),
    {
        let ghost s = Shape::Rect { x: x as int, y: y as int, w: w as int, h: h as int, shade };
        let ghost start = self@;
        if x >= DISPLAY_WIDTH || y >= DISPLAY_HEIGHT {
            proof {
                lemma_offscreen(start, s, x as int, y as int);
            }
            return ;
        }
        let x_end: usize = if w < DISPLAY_WIDTH - x {
            x + w
        } else {
            DISPLAY_WIDTH
        };
        let y_end: usize = if h < DISPLAY_HEIGHT - y {
            y + h
        } else {
            DISPLAY_HEIGHT
        };
        proof {
            lemma_within_empty(start, s, x as int, y as int, x_end as int, y as int);
        }
        let mut py: usize = y;
        while py < y_end
            invariant
                self.wf(),
                start.len() == DISPLAY_BUFFER_SIZE,
                s == (Shape::Rect { x: x as int, y: y as int, w: w as int, h: h as int, shade }),
                    shade <= 15,
                x <= x_end <= DISPLAY_WIDTH,
                y <= py <= y_end <= DISPLAY_HEIGHT,
                x_end == x + w || x_end == DISPLAY_WIDTH,
                x_end <= x + w,
                y_end <= y + h,
                self@ == paint_within(start, s, x as int, y as int, x_end as int, py as int),
            decreases y_end - py,
        {
            let ghost row_start = self@;
            proof {
                lemma_within_empty(row_start, s, x as int, py as int, x as int, py + 1);
            }
            let mut px: usize = x;
            while px < x_end
                invariant
                    self.wf(),
                    row_start.len() == DISPLAY_BUFFER_SIZE,
                    s == (Shape::Rect { x: x as int, y: y as int, w: w as int, h: h as int, shade }),
                    shade <= 15,
                    x <= px <= x_end <= DISPLAY_WIDTH,
                    y <= py < y_end <= DISPLAY_HEIGHT,
                    x_end <= x + w,
                    y_end <= y + h,
                    self@ == paint_within(row_start, s, x as int, py as int, px as int, py + 1),
                decreases x_end - px,
            {
                self.draw_pixel(px, py, shade);
                proof {
                    lemma_within_step(row_start, s, x as int, px as int, py as int);
                }
                px = px + 1;
            }
            proof {
                lemma_within_row(start, s, x as int, y as int, x_end as int, py as int);
            }
            py = py + 1;
        }
        proof {
            lemma_within_whole(
                start,
                s,
                x as int,
                y as int,
                x + w,
                y + h,
                x_end as int,
                y_end as int,
            );
        }
    }

    /// Draws character `c` with its top-left corner at (`x`, `y`), each font
    /// cell a `scale` by `scale` block, lit cells in `fg` and the others in `bg`.
    pub fn draw_glyph(&mut self, x: usize, y: usize, fg: u8, bg: u8, c: u8, scale: usize)
        requires
            old(self).wf(),
            fg <= 15,
            bg <= 15,
            1 <= scale <= 16,
        ensures
            final(self).wf(),
            final(self)@ == paint(
                old(self)@,
                Shape::Glyph { x: x as int, y: y as int, c, fg, bg, scale: scale as int },
            ),
    {
        let ghost s = Shape::Glyph { x: x as int, y: y as int, c, fg, bg, scale: scale as int };
        let ghost start = self@;
        if x >= DISPLAY_WIDTH || y >= DISPLAY_HEIGHT {
            proof {
                lemma_offscreen(start, s, x as int, y as int);
            }
            return ;
        }
        let w: usize = 5 * scale;
        let h: usize = 8 * scale;
        let x_end: usize = if w < DISPLAY_WIDTH - x {
            x + w
        } else {
            DISPLAY_WIDTH
        };
        let y_end: usize = if h < DISPLAY_HEIGHT - y {
            y + h
        } else {
            DISPLAY_HEIGHT
        };
        proof {
            lemma_within_empty(start, s, x as int, y as int, x_end as int, y as int);
        }
        let mut py: usize = y;
        while py < y_end
            invariant
                self.wf(),
                start.len() == DISPLAY_BUFFER_SIZE,
                s == (Shape::Glyph { x: x as int, y: y as int, c, fg, bg, scale: scale as int }),
                fg <= 15,
                bg <= 15,
                1 <= scale <= 16,
                w == 5 * scale,
                h == 8 * scale,
                x <= x_end <= DISPLAY_WIDTH,
                y <= py <= y_end <= DISPLAY_HEIGHT,
                x_end <= x + w,
                y_end <= y + h,
                self@ == paint_within(start, s, x as int, y as int, x_end as int, py as int),
            decreases y_end - py,
        {
            let ghost row_start = self@;
            proof {
                lemma_within_empty(row_start, s, x as int, py as int, x as int, py + 1);
            }
            let row: usize = (py - y) / scale;
            assert(row < 8) by (nonlinear_arith)
                requires
                    row == (py - y) / (scale as int),
                    py - y < 8 * scale,
                    scale >= 1,
            ;
            let mut px: usize = x;
            while px < x_end
                invariant
                    self.wf(),
                    row_start.len() == DISPLAY_BUFFER_SIZE,
                    s == (Shape::Glyph { x: x as int, y: y as int, c, fg, bg, scale: scale as int }),
                    fg <= 15,
                    bg <= 15,
                    1 <= scale <= 16,
                    w == 5 * scale,
                    h == 8 * scale,
                    x <= px <= x_end <= DISPLAY_WIDTH,
                    y <= py < y_end <= DISPLAY_HEIGHT,
                    x_end <= x + w,
                    y_end <= y + h,
                    row == (py - y) / scale as int,
                    row < 8,
                    self@ == paint_within(row_start, s, x as int, py as int, px as int, py + 1),
                decreases x_end - px,
            {
                let col: usize = (px - x) / scale;
                assert(col < 5) by (nonlinear_arith)
                    requires
                        col == (px - x) / (scale as int),
                        px - x < 5 * scale,
                        scale >= 1,
                ;
                let shade = if glyph_pixel(c, col, row) {
                    fg
                } else {
                    bg
                };
                self.draw_pixel(px, py, shade);
                proof {
                    lemma_within_step(row_start, s, x as int, px as int, py as int);
                }
                px = px + 1;
            }
            proof {
                lemma_within_row(start, s, x as int, y as int, x_end as int, py as int);
            }
            py = py + 1;
        }
        proof {
            lemma_within_whole(
                start,
                s,
                x as int,
                y as int,
                x + w,
                y + h,
                x_end as int,
                y_end as int,
            );
        }
    }
    /// Draws `text` in character cells side by side from (`x`, `y`), each
    /// font cell a `scale` by `scale` block.
    pub fn draw_text(&mut self, x: usize, y: usize, fg: u8, bg: u8, text: &[u8], scale: usize)
        requires
            old(self).wf(),
            fg <= 15,
            bg <= 15,
            1 <= scale <= 16,
            x + text@.len() * 5 * scale <= usize::MAX,
        ensures
            final(self).wf(),
            final(self)@ == paint_all(
                old(self)@,
                text_shapes(x as int, y as int, fg, bg, text@, scale as int),
            ),
    {
        let ghost start = self@;
        proof {
            lemma_paint_all_empty(
                start,
                text_shapes(x as int, y as int, fg, bg, text@.take(0), scale as int),
            );
        }
        let mut i: usize = 0;
        let mut cx: usize = x;
        while i < text.len()
            invariant
                self.wf(),
                fg <= 15,
                bg <= 15,
                1 <= scale <= 16,
                x + text@.len() * 5 * scale <= usize::MAX,
                i <= text@.len(),
                cx == x + i * 5 * scale,
                self@ == paint_all(
                    start,
                    text_shapes(x as int, y as int, fg, bg, text@.take(i as int), scale as int),
                ),
            decreases text@.len() - i,
        {
            assert(cx + 5 * scale <= usize::MAX) by (nonlinear_arith)
                requires
                    cx == x + i * 5 * scale,
                    i < text@.len(),
                    x + text@.len() * 5 * scale <= usize::MAX,
            ;
            self.draw_glyph(cx, y, fg, bg, text[i], scale);
            proof {
                let prev = text_shapes(x as int, y as int, fg, bg, text@.take(i as int), scale as int);
                let next = text_shapes(
                    x as int,
                    y as int,
                    fg,
                    bg,
                    text@.take(i + 1),
                    scale as int,
                );
                let g = Shape::Glyph {
                    x: cx as int,
                    y: y as int,
                    c: text@[i as int],
                    fg,
                    bg,
                    scale: scale as int,
                };
                assert(next =~= prev.push(g));
                lemma_paint_all_push(start, prev, g);
            }
            assert(cx + 5 * scale == x + (i + 1) * 5 * scale) by (nonlinear_arith)
                requires
                    cx == x + i * 5 * scale,
            ;
            cx = cx + 5 * scale;
            i = i + 1;
        }
        assert(text@.take(text@.len() as int) =~= text@);
    }

    /// Draws `text` in the regular font.
    pub fn draw_string(&mut self, x: usize, y: usize, fg: u8, bg: u8, text: &[u8])
        requires
            old(self).wf(),
            fg <= 15,
            bg <= 15,
            x + text@.len() * 10 <= usize::MAX,
        ensures
            final(self).wf(),
            final(self)@ == paint_all(
                old(self)@,
                text_shapes(x as int, y as int, fg, bg, text@, FONT_SCALE as int),
            ),
    {
        self.draw_text(x, y, fg, bg, text, FONT_SCALE);
    }

    /// Draws `text` in the large font.
    pub fn draw_string_large(&mut self, x: usize, y: usize, fg: u8, bg: u8, text: &[u8])
        requires
            old(self).wf(),
            fg <= 15,
            bg <= 15,
            x + text@.len() * 20 <= usize::MAX,
        ensures
            final(self).wf(),
            final(self)@ == paint_all(
                old(self)@,
                text_shapes(x as int, y as int, fg, bg, text@, LARGE_FONT_SCALE as int),
            ),
    {
        self.draw_text(x, y, fg, bg, text, LARGE_FONT_SCALE);
    }

    /// Draws character `c` in the regular font.
    pub fn draw_char(&mut self, x: usize, y: usize, fg: u8, bg: u8, c: u8)
        requires
            old(self).wf(),
            fg <= 15,
            bg <= 15,
        ensures
            final(self).wf(),
            final(self)@ == paint(
                old(self)@,
                Shape::Glyph { x: x as int, y: y as int, c, fg, bg, scale: FONT_SCALE as int },
            ),
    {
        self.draw_glyph(x, y, fg, bg, c, FONT_SCALE);
    }

    /// Draws the one-pixel white border of the `width` by `height` box at (`x0`, `y0`).
    pub fn draw_box_outline(&mut self, x0: usize, y0: usize, width: usize, height: usize)
        requires
            old(self).wf(),
            width >= 1,
            height >= 1,
            x0 + width <= usize::MAX,
            y0 + height <= usize::MAX,
        ensures
            final(self).wf(),
            final(self)@ == paint_all(
                old(self)@,
                box_shapes(x0 as int, y0 as int, width as int, height as int),
            ),
    {
        let ghost start = self@;
        let ghost shapes = box_shapes(x0 as int, y0 as int, width as int, height as int);
        self.fill_rect(x0, y0, width, 1, DISPLAY_WHITE);
        self.fill_rect(x0, y0 + height - 1, width, 1, DISPLAY_WHITE);
        self.fill_rect(x0, y0, 1, height, DISPLAY_WHITE);
        self.fill_rect(x0 + width - 1, y0, 1, height, DISPLAY_WHITE);
        proof {
            lemma_paint_all_empty(start, shapes.take(0));
            lemma_paint_all_push(start, shapes.take(0), shapes[0]);
            lemma_paint_all_push(start, shapes.take(1), shapes[1]);
            lemma_paint_all_push(start, shapes.take(2), shapes[2]);
            lemma_paint_all_push(start, shapes.take(3), shapes[3]);
            assert(shapes.take(0).push(shapes[0]) =~= shapes.take(1));
            assert(shapes.take(1).push(shapes[1]) =~= shapes.take(2));
            assert(shapes.take(2).push(shapes[2]) =~= shapes.take(3));
            assert(shapes.take(3).push(shapes[3]) =~= shapes);
        }
    }

    /// Chunk `k` of the packed frame, as it goes over the bus.
    pub fn packed_chunk(&self, k: usize) -> (r: Vec<u8>)
        requires
            self.wf(),
            k < CHUNKS_PER_FRAME,
        ensures
            r@ == packed_chunk_of(self@, k as int),
    {
        let mut out: Vec<u8> = Vec::with_capacity(CHUNK_PIXELS / 2);
        let base: usize = k * CHUNK_PIXELS;
        let mut j: usize = 0;
        while j < CHUNK_PIXELS / 2
            invariant
                self.wf(),
                k < CHUNKS_PER_FRAME,
                base == k * CHUNK_PIXELS,
                j <= 128,
                out@ == packed_chunk_of(self@, k as int).take(j as int),
            decreases 128 - j,
        {
            let even = self.framebuffer[base + 2 * j];
            let odd = self.framebuffer[base + 2 * j + 1];
            out.push(pack_pixels(even, odd));
            assert(out@ =~= packed_chunk_of(self@, k as int).take(j + 1));
            j = j + 1;
        }
        assert(out@ =~= packed_chunk_of(self@, k as int));
        out
    }
    /// Draws a filled rectangle as the next of a list of shapes.
    pub(crate) fn add_rect(
        &mut self,
        Ghost(start): Ghost<Seq<u8>>,
        Ghost(done): Ghost<Seq<Shape>>,
        x: usize,
        y: usize,
        w: usize,
        h: usize,
        shade: u8,
    )
        requires
            old(self).wf(),
            old(self)@ == paint_all(start, done),
            shade <= 15,
        ensures
            final(self).wf(),
            final(self)@ == paint_all(
                start,
                done.push(Shape::Rect { x: x as int, y: y as int, w: w as int, h: h as int, shade }),
            ),
    {
        self.fill_rect(x, y, w, h, shade);
        proof {
            lemma_paint_all_push(
                start,
                done,
                Shape::Rect { x: x as int, y: y as int, w: w as int, h: h as int, shade },
            );
        }
    }

    /// Draws a regular-font character as the next of a list of shapes.
    pub(crate) fn add_char(
        &mut self,
        Ghost(start): Ghost<Seq<u8>>,
        Ghost(done): Ghost<Seq<Shape>>,
        x: usize,
        y: usize,
        fg: u8,
        bg: u8,
        c: u8,
    )
        requires
            old(self).wf(),
            old(self)@ == paint_all(start, done),
            fg <= 15,
            bg <= 15,
        ensures
            final(self).wf(),
            final(self)@ == paint_all(
                start,
                done.push(
                    Shape::Glyph { x: x as int, y: y as int, c, fg, bg, scale: FONT_SCALE as int },
                ),
            ),
    {
        self.draw_char(x, y, fg, bg, c);
        proof {
            lemma_paint_all_push(
                start,
                done,
                Shape::Glyph { x: x as int, y: y as int, c, fg, bg, scale: FONT_SCALE as int },
            );
        }
    }

    /// Draws text as the next shapes of a list.
    pub(crate) fn add_text(
        &mut self,
        Ghost(start): Ghost<Seq<u8>>,
        Ghost(done): Ghost<Seq<Shape>>,
        x: usize,
        y: usize,
        fg: u8,
        bg: u8,
        text: &[u8],
        scale: usize,
    )
        requires
            old(self).wf(),
            old(self)@ == paint_all(start, done),
            fg <= 15,
            bg <= 15,
            1 <= scale <= 16,
            x + text@.len() * 5 * scale <= usize::MAX,
        ensures
            final(self).wf(),
            final(self)@ == paint_all(
                start,
                done + text_shapes(x as int, y as int, fg, bg, text@, scale as int),
            ),
    {
        self.draw_text(x, y, fg, bg, text, scale);
        proof {
            lemma_paint_all_concat(
                start,
                done,
                text_shapes(x as int, y as int, fg, bg, text@, scale as int),
            );
        }
    }

    /// Draws a box outline as the next shapes of a list.
    pub(crate) fn add_box(
        &mut self,
        Ghost(start): Ghost<Seq<u8>>,
        Ghost(done): Ghost<Seq<Shape>>,
        x: usize,
        y: usize,
        w: usize,
        h: usize,
    )
        requires
            old(self).wf(),
            old(self)@ == paint_all(start, done),
            w >= 1,
            h >= 1,
            x + w <= usize::MAX,
            y + h <= usize::MAX,
        ensures
            final(self).wf(),
            final(self)@ == paint_all(
                start,
                done + box_shapes(x as int, y as int, w as int, h as int),
            ),
    {
        self.draw_box_outline(x, y, w, h);
        proof {
            lemma_paint_all_concat(start, done, box_shapes(x as int, y as int, w as int, h as int));
        }
    }
}

} // verus!
