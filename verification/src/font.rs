//! Script text state (begin/end, colour, effect, size and face), the PAL
//! bitmap font table, colour unpacking and the one-pixel text outline.
//!
//! Measuring and rasterizing glyphs scale outlines and cells with floating
//! point and are done by the application.

use vstd::prelude::*;
use crate::bytes::{le_i32, le_u32, read_u32};
use crate::text::{chars_of, encode_shift_jis, shift_jis_encoding, string_from_chars};

verus! {

/// The face scripts select for the PAL bitmap font.
pub const BITMAP_FONT_TYPE: u16 = 4;

/// The face used when no bitmap font is available.
pub const DEFAULT_FONT_TYPE: u16 = 1;

/// The text state scripts drive, with the PAL bitmap font once one is
/// loaded.
#[derive(Clone, Debug)]
pub struct PalFontSystem {
    pub bitmap: Option<PalBitmapFont>,
    pub begun: bool,
    pub font_size: u16,
    pub font_type: u16,
    pub effect: u16,
    pub color: u32,
    pub effect_color: u32,
    pub ex_font_loaded: bool,
}

/// Whether face `t` can be used: any face but the bitmap one, which needs a
/// loaded bitmap font or an external font.
pub open spec fn face_available(s: PalFontSystem, t: u16) -> bool {
    !(t == BITMAP_FONT_TYPE && s.bitmap is None && !s.ex_font_loaded)
}

impl PalFontSystem {
    /// Not begun, size 28, face 1, no effect, opaque black text with a
    /// white outline colour, no fonts loaded.
    pub fn new() -> (s: Self)
        ensures
            s == (PalFontSystem {
                bitmap: None,
                begun: false,
                font_size: 28,
                font_type: 1,
                effect: 0,
                color: 0xFF00_0000,
                effect_color: 0xFFFF_FFFF,
                ex_font_loaded: false,
            }),
    {
        PalFontSystem {
            bitmap: None,
            begun: false,
            font_size: 28,
            font_type: 1,
            effect: 0,
            color: 0xFF00_0000,
            effect_color: 0xFFFF_FFFF,
            ex_font_loaded: false,
        }
    }

    /// Starts a text block; a bitmap face that can no longer be used falls
    /// back to face 1.
    pub fn begin(&mut self) -> (b: bool)
        ensures
            b,
            *final(self) == (PalFontSystem {
                begun: true,
                font_type: if face_available(*old(self), old(self).font_type) {
                    old(self).font_type
                } else {
                    DEFAULT_FONT_TYPE
                },
                ..*old(self)
            }),
    {
        if self.font_type == BITMAP_FONT_TYPE && self.bitmap.is_none() && !self.ex_font_loaded {
            self.font_type = DEFAULT_FONT_TYPE;
        }
        self.begun = true;
        true
    }

    pub fn end(&mut self) -> (b: bool)
        ensures
            b,
            *final(self) == (PalFontSystem { begun: false, ..*old(self) }),
    {
        self.begun = false;
        true
    }

    pub fn is_begun(&self) -> (b: bool)
        ensures
            b == self.begun,
    {
        self.begun
    }

    pub fn set_color(&mut self, color: u32, effect_color: u32)
        ensures
            *final(self) == (PalFontSystem { color, effect_color, ..*old(self) }),
    {
        self.color = color;
        self.effect_color = effect_color;
    }

    /// The text colour and the outline colour.
    pub fn color(&self) -> (c: (u32, u32))
        ensures
            c == (self.color, self.effect_color),
    {
        (self.color, self.effect_color)
    }

    pub fn set_effect(&mut self, effect: u16)
        ensures
            *final(self) == (PalFontSystem { effect, ..*old(self) }),
    {
        self.effect = effect;
    }

    pub fn effect(&self) -> (e: u16)
        ensures
            e == self.effect,
    {
        self.effect
    }

    /// Sets the pixel size; 0 counts as 1.
    pub fn set_font_size(&mut self, font_size: u16)
        ensures
            *final(self) == (PalFontSystem {
                font_size: if font_size == 0 {
                    1
                } else {
                    font_size
                },
                ..*old(self)
            }),
    {
        self.font_size = if font_size == 0 {
            1
        } else {
            font_size
        };
    }

    pub fn font_size(&self) -> (n: u16)
        ensures
            n == self.font_size,
    {
        self.font_size
    }

    /// Selects a face; `false` (and no change) for the bitmap face while no
    /// bitmap or external font is loaded.
    pub fn set_type(&mut self, font_type: u16) -> (b: bool)
        ensures
            b == face_available(*old(self), font_type),
            *final(self) == (if b {
                PalFontSystem { font_type, ..*old(self) }
            } else {
                *old(self)
            }),
    {
        if font_type == BITMAP_FONT_TYPE && self.bitmap.is_none() && !self.ex_font_loaded {
            return false;
        }
        self.font_type = font_type;
        true
    }

    pub fn font_type(&self) -> (t: u16)
        ensures
            t == self.font_type,
    {
        self.font_type
    }

    /// Records whether an external font is loaded; losing it while the
    /// bitmap face is selected without a bitmap font falls back to face 1.
    pub fn set_ex_font_loaded(&mut self, loaded: bool)
        ensures
            *final(self) == (PalFontSystem {
                ex_font_loaded: loaded,
                font_type: if !loaded && old(self).bitmap is None && old(self).font_type
                    == BITMAP_FONT_TYPE {
                    DEFAULT_FONT_TYPE
                } else {
                    old(self).font_type
                },
                ..*old(self)
            }),
    {
        self.ex_font_loaded = loaded;
        if !loaded && self.bitmap.is_none() && self.font_type == BITMAP_FONT_TYPE {
            self.font_type = DEFAULT_FONT_TYPE;
        }
    }

    /// Loads the PAL bitmap font from a font resource; a refused resource
    /// leaves the state as it was.
    pub fn load_bitmap_font(&mut self, bytes: Vec<u8>) -> (r: Result<(), &'static str>)
        ensures
            r is Err <==> font_error(bytes@) is Some,
            r matches Err(e) ==> font_error(bytes@) == Some(e@) && *final(self) == *old(self),
            r is Ok ==> (final(self).bitmap matches Some(f) && parsed_font(f, bytes@)) && *final(self)
                == (PalFontSystem { bitmap: final(self).bitmap, ..*old(self) }),
    {
        match PalBitmapFont::parse(bytes) {
            Ok(font) => {
                self.bitmap = Some(font);
                Ok(())
            },
            Err(e) => Err(e),
        }
    }
}

/// A text is drawn with the bitmap font when the bitmap face is selected, a
/// bitmap font is loaded and it has a glyph for every character.
pub open spec fn draws_with_bitmap(s: PalFontSystem, codes: Seq<Option<Vec<u8>>>) -> bool {
    s.font_type == BITMAP_FONT_TYPE && (s.bitmap matches Some(f) && draws_all(f, codes))
}

/// The image with the first and third byte of every pixel swapped
/// (`[B, G, R, A]` to `[R, G, B, A]`).
pub open spec fn swap_red_blue(p: Seq<u8>) -> Seq<u8> {
    Seq::new(
        p.len(),
        |i: int|
            if i % 4 == 0 {
                p[i + 2]
            } else if i % 4 == 2 {
                p[i - 2]
            } else {
                p[i]
            },
    )
}

/// The outline colour as `[R, G, B, A]`.
pub open spec fn rgba_bytes(color: u32) -> Seq<u8> {
    seq![
        ((color >> 16u32) & 0xFF) as u8,
        ((color >> 8u32) & 0xFF) as u8,
        (color & 0xFF) as u8,
        ((color >> 24u32) & 0xFF) as u8,
    ]
}

/// The outline is drawn around a non-empty text when an effect is selected
/// and the outline colour is not fully transparent.
pub open spec fn outline_drawn(s: PalFontSystem, text_empty: bool) -> bool {
    s.effect != 0 && !text_empty && ((s.effect_color >> 24u32) & 0xFF) != 0
}

impl PalFontSystem {
    /// Whether a text whose characters have the codes `codes` (in the
    /// bitmap font's text encoding) is drawn with the bitmap font rather
    /// than the outline font.
    pub fn uses_bitmap(&self, codes: &Vec<Option<Vec<u8>>>) -> (b: bool)
        ensures
            b == draws_with_bitmap(*self, codes@),
    {
        if self.font_type != BITMAP_FONT_TYPE {
            return false;
        }
        match &self.bitmap {
            Some(f) => f.supports_encoded(codes),
            None => false,
        }
    }

    /// Finishes a rasterized line of `text`, `width` x `height` pixels in
    /// `[B, G, R, A]`: the pixels become `[R, G, B, A]`, and when an
    /// outline is drawn (see `outline_drawn`) it is added in the outline
    /// colour, which makes the image two pixels wider and taller.
    pub fn finish_line(&self, text: &str, width: u32, height: u32, pixels: Vec<u8>) -> (r: (
        u32,
        u32,
        Vec<u8>,
    ))
        requires
            pixels@.len() == 4 * (width as int) * (height as int),
            width + 2 <= u32::MAX,
            height + 2 <= u32::MAX,
            (width as int + 2) * (height as int + 2) * 4 <= usize::MAX,
        ensures
            !outline_drawn(*self, text@.len() == 0) ==> r.0 == width && r.1 == height && r.2@
                == swap_red_blue(pixels@),
            outline_drawn(*self, text@.len() == 0) ==> {
                &&& r.0 == width + 2
                &&& r.1 == height + 2
                &&& r.2@.len() == 4 * (r.0 as int) * (r.1 as int)
                &&& forall|i: int| 0 <= i < r.2@.len() ==> #[trigger] r.2@[i] == outlined_at(
                    swap_red_blue(pixels@),
                    width as int,
                    height as int,
                    rgba_bytes(self.effect_color),
                    r.0 as int,
                    i,
                )
            },
    {
        let ghost p0 = pixels@;
        let mut px = pixels;
        let n = px.len();
        proof {
            let k = (width as int) * (height as int);
            assert(4 * (width as int) * (height as int) == k * 4) by (nonlinear_arith)
                requires
                    k == (width as int) * (height as int),
            ;
            vstd::arithmetic::div_mod::lemma_mod_multiples_basic(k, 4);
        }
        let mut i: usize = 0;
        while i < n
            invariant
                n == p0.len(),
                px@.len() == n,
                n % 4 == 0,
                i % 4 == 0,
                i <= n,
                forall|k: int| 0 <= k < i ==> #[trigger] px@[k] == swap_red_blue(p0)[k],
                forall|k: int| i <= k < n ==> #[trigger] px@[k] == p0[k],
            decreases n - i,
        {
            let first = px[i];
            let third = px[i + 2];
            px.set(i, third);
            px.set(i + 2, first);
            assert forall|k: int| 0 <= k < i + 4 implies #[trigger] px@[k] == swap_red_blue(p0)[k] by {
                if k >= i {
                    assert(k - i < 4);
                }
            }
            i += 4;
        }
        assert(px@ =~= swap_red_blue(p0));
        if self.effect == 0 || text.is_empty() {
            return (width, height, px);
        }
        let edge = argb_to_rgba(self.effect_color);
        let ec = self.effect_color;
        assert((ec >> 24u32) & 0xFF <= 0xFF) by (bit_vector);
        if edge[3] == 0 {
            return (width, height, px);
        }
        apply_text_edge(px.as_slice(), width, height, edge)
    }
}

impl Default for PalFontSystem {
    fn default() -> (s: Self)
        ensures
            s == PalFontSystem::spec_new(),
    {
        PalFontSystem::new()
    }
}

impl PalFontSystem {
    pub open spec fn spec_new() -> PalFontSystem {
        PalFontSystem {
            bitmap: None,
            begun: false,
            font_size: 28,
            font_type: 1,
            effect: 0,
            color: 0xFF00_0000,
            effect_color: 0xFFFF_FFFF,
            ex_font_loaded: false,
        }
    }
}

/// After `set_type` succeeds, `begin` keeps the chosen face.
pub proof fn lemma_begin_keeps_available_face(s: PalFontSystem, t: u16)
    requires
        face_available(s, t),
    ensures
        face_available(PalFontSystem { font_type: t, ..s }, t),
{
}

// ---------------------------------------------------------------- colours

/// An `0xAARRGGBB` colour as bytes `[B, G, R, A]`.
pub fn argb_to_bgra(color: u32) -> (c: [u8; 4])
    ensures
        c@ == seq![
            (color & 0xFF) as u8,
            ((color >> 8u32) & 0xFF) as u8,
            ((color >> 16u32) & 0xFF) as u8,
            ((color >> 24u32) & 0xFF) as u8,
        ],
{
    let b = (color & 0xFF) as u8;
    let g = ((color >> 8u32) & 0xFF) as u8;
    let r = ((color >> 16u32) & 0xFF) as u8;
    let a = ((color >> 24u32) & 0xFF) as u8;
    let c = [b, g, r, a];
    assert(c@ =~= seq![b, g, r, a]);
    c
}

/// An `0xAARRGGBB` colour as bytes `[R, G, B, A]`.
pub fn argb_to_rgba(color: u32) -> (c: [u8; 4])
    ensures
        c@ == seq![
            ((color >> 16u32) & 0xFF) as u8,
            ((color >> 8u32) & 0xFF) as u8,
            (color & 0xFF) as u8,
            ((color >> 24u32) & 0xFF) as u8,
        ],
{
    let r = ((color >> 16u32) & 0xFF) as u8;
    let g = ((color >> 8u32) & 0xFF) as u8;
    let b = (color & 0xFF) as u8;
    let a = ((color >> 24u32) & 0xFF) as u8;
    let c = [r, g, b, a];
    assert(c@ =~= seq![r, g, b, a]);
    c
}


// ---------------------------------------------------------------- outline

/// The alpha byte of source pixel `(x, y)` of a `w`-wide RGBA image, 0 past
/// the end of the data.
pub open spec fn src_alpha(src: Seq<u8>, w: int, x: int, y: int) -> u8 {
    let i = (y * w + x) * 4 + 3;
    if 0 <= i < src.len() {
        src[i]
    } else {
        0
    }
}

/// The outline alpha a source pixel of alpha `a` lends: the outline
/// colour's alpha scaled by `a / 255`, rounded.
pub open spec fn lent_alpha(edge_alpha: u8, a: u8) -> int {
    (edge_alpha as int * a as int + 127) / 255
}

/// What the source pixel diagonal or next to output pixel `(ox, oy)` at
/// offset `(dx, dy)` lends to it: a source pixel inside the image with a
/// non-zero alpha lends its scaled alpha, anything else nothing.
pub open spec fn lent_from(src: Seq<u8>, w: int, h: int, edge_alpha: u8, ox: int, oy: int, dx: int, dy: int) -> int {
    let x = ox - 1 - dx;
    let y = oy - 1 - dy;
    if 0 <= x < w && 0 <= y < h && src_alpha(src, w, x, y) > 0 {
        lent_alpha(edge_alpha, src_alpha(src, w, x, y))
    } else {
        0
    }
}

pub open spec fn max_int(a: int, b: int) -> int {
    if a >= b {
        a
    } else {
        b
    }
}

/// The largest alpha the eight neighbours lend to output pixel `(ox, oy)`.
pub open spec fn outline_alpha(src: Seq<u8>, w: int, h: int, edge_alpha: u8, ox: int, oy: int) -> int {
    max_int(
        max_int(
            max_int(lent_from(src, w, h, edge_alpha, ox, oy, -1, -1), lent_from(src, w, h, edge_alpha, ox, oy, 0, -1)),
            max_int(lent_from(src, w, h, edge_alpha, ox, oy, 1, -1), lent_from(src, w, h, edge_alpha, ox, oy, -1, 0)),
        ),
        max_int(
            max_int(lent_from(src, w, h, edge_alpha, ox, oy, 1, 0), lent_from(src, w, h, edge_alpha, ox, oy, -1, 1)),
            max_int(lent_from(src, w, h, edge_alpha, ox, oy, 0, 1), lent_from(src, w, h, edge_alpha, ox, oy, 1, 1)),
        ),
    )
}

/// Byte `k` of output pixel `(ox, oy)` of the outlined image: an opaque
/// enough source pixel shows itself one pixel down and right; elsewhere the
/// outline colour with the largest alpha its neighbours lend, or nothing.
pub open spec fn outlined_byte(src: Seq<u8>, w: int, h: int, edge: Seq<u8>, ox: int, oy: int, k: int) -> u8 {
    if 1 <= ox <= w && 1 <= oy <= h && src_alpha(src, w, ox - 1, oy - 1) != 0 {
        src[((oy - 1) * w + (ox - 1)) * 4 + k]
    } else if outline_alpha(src, w, h, edge[3], ox, oy) > 0 {
        if k == 3 {
            outline_alpha(src, w, h, edge[3], ox, oy) as u8
        } else {
            edge[k]
        }
    } else {
        0
    }
}

/// Byte `i` of the outlined image, `out_w` pixels wide.
pub open spec fn outlined_at(src: Seq<u8>, w: int, h: int, edge: Seq<u8>, out_w: int, i: int) -> u8 {
    outlined_byte(src, w, h, edge, (i / 4) % out_w, (i / 4) / out_w, i % 4)
}

fn lent_from_exec(src: &[u8], w: u32, h: u32, edge_alpha: u8, ox: u32, oy: u32, dx: i32, dy: i32) -> (a: u8)
    requires
        ox <= w + 1,
        oy <= h + 1,
        -1 <= dx <= 1,
        -1 <= dy <= 1,
        (w as int + 2) * (h as int + 2) * 4 <= usize::MAX,
    ensures
        a as int == lent_from(src@, w as int, h as int, edge_alpha, ox as int, oy as int, dx as int, dy as int),
{
    let x: i64 = ox as i64 - 1 - dx as i64;
    let y: i64 = oy as i64 - 1 - dy as i64;
    if x < 0 || y < 0 || x >= w as i64 || y >= h as i64 {
        return 0;
    }
    proof {
        assert((y * w + x) * 4 + 3 < (w as int + 2) * (h as int + 2) * 4) by (nonlinear_arith)
            requires
                0 <= x < w,
                0 <= y < h,
        ;
    }
    let i = ((y as usize) * (w as usize) + (x as usize)) * 4 + 3;
    if i >= src.len() {
        return 0;
    }
    let alpha = src[i];
    if alpha == 0 {
        return 0;
    }
    let ea = edge_alpha as u32;
    let sa = alpha as u32;
    assert(ea * sa <= 255 * 255) by (nonlinear_arith)
        requires
            ea <= 255,
            sa <= 255,
    ;
    let lent = (ea * sa + 127) / 255;
    lent as u8
}

fn outline_alpha_exec(src: &[u8], w: u32, h: u32, edge_alpha: u8, ox: u32, oy: u32) -> (a: u8)
    requires
        ox <= w + 1,
        oy <= h + 1,
        (w as int + 2) * (h as int + 2) * 4 <= usize::MAX,
    ensures
        a as int == outline_alpha(src@, w as int, h as int, edge_alpha, ox as int, oy as int),
{
    let a1 = lent_from_exec(src, w, h, edge_alpha, ox, oy, -1, -1);
    let a2 = lent_from_exec(src, w, h, edge_alpha, ox, oy, 0, -1);
    let a3 = lent_from_exec(src, w, h, edge_alpha, ox, oy, 1, -1);
    let a4 = lent_from_exec(src, w, h, edge_alpha, ox, oy, -1, 0);
    let a5 = lent_from_exec(src, w, h, edge_alpha, ox, oy, 1, 0);
    let a6 = lent_from_exec(src, w, h, edge_alpha, ox, oy, -1, 1);
    let a7 = lent_from_exec(src, w, h, edge_alpha, ox, oy, 0, 1);
    let a8 = lent_from_exec(src, w, h, edge_alpha, ox, oy, 1, 1);
    let m12 = if a1 >= a2 { a1 } else { a2 };
    let m34 = if a3 >= a4 { a3 } else { a4 };
    let m56 = if a5 >= a6 { a5 } else { a6 };
    let m78 = if a7 >= a8 { a7 } else { a8 };
    let m1 = if m12 >= m34 { m12 } else { m34 };
    let m2 = if m56 >= m78 { m56 } else { m78 };
    if m1 >= m2 { m1 } else { m2 }
}


proof fn lemma_out_position(out_w: int, oy: int, ox: int)
    requires
        out_w > 0,
        0 <= oy,
        0 <= ox < out_w,
    ensures
        forall|k: int| 0 <= k < 4 ==> #[trigger] ((4 * (oy * out_w + ox) + k) / 4) == oy * out_w + ox
            && (4 * (oy * out_w + ox) + k) % 4 == k,
        (oy * out_w + ox) % out_w == ox,
        (oy * out_w + ox) / out_w == oy,
{
    vstd::arithmetic::div_mod::lemma_fundamental_div_mod_converse(oy * out_w + ox, out_w, oy, ox);
    assert forall|k: int| 0 <= k < 4 implies #[trigger] ((4 * (oy * out_w + ox) + k) / 4) == oy * out_w
        + ox && (4 * (oy * out_w + ox) + k) % 4 == k by {
        vstd::arithmetic::div_mod::lemma_fundamental_div_mod_converse(
            4 * (oy * out_w + ox) + k,
            4,
            oy * out_w + ox,
            k,
        );
    }
}

/// Draws a one-pixel outline of colour `edge` (`[R, G, B, A]`) around the
/// opaque pixels of a `width` x `height` RGBA image. The result is two
/// pixels wider and taller: every source pixel with a non-zero alpha sits
/// one pixel down and right, and every other pixel takes the outline colour
/// with the largest alpha its eight neighbours lend (`edge`'s alpha scaled
/// by the neighbour's alpha), or stays transparent black.
pub fn apply_text_edge(src: &[u8], width: u32, height: u32, edge: [u8; 4]) -> (r: (u32, u32, Vec<u8>))
    requires
        width + 2 <= u32::MAX,
        height + 2 <= u32::MAX,
        (width as int + 2) * (height as int + 2) * 4 <= usize::MAX,
    ensures
        r.0 == width + 2,
        r.1 == height + 2,
        r.2@.len() == 4 * (r.0 as int) * (r.1 as int),
        forall|i: int| 0 <= i < r.2@.len() ==> #[trigger] r.2@[i] == outlined_at(
            src@,
            width as int,
            height as int,
            edge@,
            r.0 as int,
            i,
        ),
{
    let out_w = width + 2;
    let out_h = height + 2;
    let ow = out_w as usize;
    let mut dst: Vec<u8> = Vec::new();
    let mut oy: u32 = 0;
    assert(ow * (out_h as int) * 4 == (width as int + 2) * (height as int + 2) * 4);
    while oy < out_h
        invariant
            out_w == width + 2,
            out_h == height + 2,
            ow == out_w,
            oy <= out_h,
            (width as int + 2) * (height as int + 2) * 4 <= usize::MAX,
            dst@.len() == 4 * (oy * out_w),
            forall|i: int| 0 <= i < dst@.len() ==> #[trigger] dst@[i] == outlined_at(
                src@,
                width as int,
                height as int,
                edge@,
                out_w as int,
                i,
            ),
        decreases out_h - oy,
    {
        let mut ox: u32 = 0;
        while ox < out_w
            invariant
                out_w == width + 2,
                out_h == height + 2,
                ow == out_w,
                oy < out_h,
                ox <= out_w,
                (width as int + 2) * (height as int + 2) * 4 <= usize::MAX,
                dst@.len() == 4 * (oy * out_w + ox),
                forall|i: int| 0 <= i < dst@.len() ==> #[trigger] dst@[i] == outlined_at(
                    src@,
                    width as int,
                    height as int,
                    edge@,
                    out_w as int,
                    i,
                ),
            decreases out_w - ox,
        {
            proof {
                lemma_out_position(out_w as int, oy as int, ox as int);
            }
            let ghost p = oy * out_w + ox;
            let ghost base = dst@.len() as int;
            let mut own: bool = false;
            let mut si: usize = 0;
            if 1 <= ox && ox <= width && 1 <= oy && oy <= height {
                proof {
                    assert(((oy - 1) * width + (ox - 1)) * 4 + 3 < (width as int + 2) * (height as int + 2) * 4)
                        by (nonlinear_arith)
                        requires
                            1 <= ox <= width,
                            1 <= oy <= height,
                    ;
                }
                si = (((oy - 1) as usize) * (width as usize) + ((ox - 1) as usize)) * 4;
                if si + 3 < src.len() && src[si + 3] != 0 {
                    own = true;
                }
            }
            if own {
                let mut k: usize = 0;
                while k < 4
                    invariant
                        k <= 4,
                        own,
                        1 <= ox <= width,
                        1 <= oy <= height,
                        si == ((oy - 1) * width + (ox - 1)) * 4,
                        si + 3 < src@.len(),
                        src_alpha(src@, width as int, ox - 1, oy - 1) != 0,
                        base == 4 * p,
                        p == oy * out_w + ox,
                        dst@.len() == base + k,
                        forall|j: int| 0 <= j < 4 ==> #[trigger] ((4 * p + j) / 4) == p && (4 * p + j) % 4 == j,
                        p % (out_w as int) == ox,
                        p / (out_w as int) == oy,
                        forall|i: int| 0 <= i < dst@.len() ==> #[trigger] dst@[i] == outlined_at(
                            src@,
                            width as int,
                            height as int,
                            edge@,
                            out_w as int,
                            i,
                        ),
                    decreases 4 - k,
                {
                    dst.push(src[si + k]);
                    k += 1;
                }
            } else {
                let m = outline_alpha_exec(src, width, height, edge[3], ox, oy);
                let ghost before = dst@;
                if m > 0 {
                    dst.push(edge[0]);
                    dst.push(edge[1]);
                    dst.push(edge[2]);
                    dst.push(m);
                } else {
                    dst.push(0);
                    dst.push(0);
                    dst.push(0);
                    dst.push(0);
                }
                assert forall|i: int| 0 <= i < dst@.len() implies #[trigger] dst@[i] == outlined_at(
                    src@,
                    width as int,
                    height as int,
                    edge@,
                    out_w as int,
                    i,
                ) by {
                    if i >= base {
                        let k = i - base;
                        assert((4 * p + k) / 4 == p && (4 * p + k) % 4 == k);
                    } else {
                        assert(dst@[i] == before[i]);
                    }
                }
            }
            ox += 1;
        }
        assert((oy + 1) * out_w == oy * out_w + out_w) by (nonlinear_arith);
        oy += 1;
    }
    assert(4 * (out_h * out_w) == 4 * (out_w as int) * (out_h as int)) by (nonlinear_arith);
    (out_w, out_h, dst)
}


// ---------------------------------------------------------------- bitmap font

/// A PAL bitmap font resource (`DEFAULT_FONT.DAT`): a table of glyph record
/// offsets followed by the records, and the cell size and baseline that most
/// records share.
#[derive(Clone, Debug)]
pub struct PalBitmapFont {
    pub bytes: Vec<u8>,
    pub offsets: Vec<u32>,
    pub em_size: u32,
    pub baseline: i32,
}

/// The words of the offset table that fills `b[..first]`.
pub open spec fn table_words(b: Seq<u8>, first: int) -> Seq<u32> {
    Seq::new((first / 4) as nat, |k: int| le_u32(b, 4 * k))
}

/// The cell advance and baseline a glyph record at `off` shows, when it is
/// a plausible cell glyph: a non-empty glyph no larger than a positive
/// advance of at most 128, whose bitmap (rows padded to four bytes) lies in
/// the resource, and whose baseline, its bearing plus half the spare cell
/// height, lies within the cell.
pub open spec fn record_metrics(b: Seq<u8>, off: u32) -> Option<(u32, i32)> {
    let o = off as int;
    if off == 0 || o + 24 > b.len() {
        None
    } else {
        let width = le_u32(b, o);
        let height = le_u32(b, o + 4);
        let bearing_y = le_u32(b, o + 12) as i32;
        let advance = le_u32(b, o + 16);
        let bitmap_len = le_u32(b, o + 20);
        if width == 0 || height == 0 || advance == 0 || advance > 128 || width > advance || height
            > advance {
            None
        } else {
            let stride = (width + 3) / 4 * 4;
            if bitmap_len != stride * height || o + 24 + bitmap_len > b.len() {
                None
            } else {
                let baseline = bearing_y + (advance - height) / 2;
                if 0 <= baseline <= advance {
                    Some((advance, baseline as i32))
                } else {
                    None
                }
            }
        }
    }
}

/// How many of the first `n` offsets lead to a record with metrics `m`.
pub open spec fn metric_count(b: Seq<u8>, offs: Seq<u32>, n: int, m: (u32, i32)) -> nat
    decreases n,
{
    if n <= 0 {
        0
    } else {
        metric_count(b, offs, n - 1, m) + if record_metrics(b, offs[n - 1]) == Some(m) {
            1nat
        } else {
            0nat
        }
    }
}

/// Metrics ordered by advance, then baseline.
pub open spec fn metric_le(a: (u32, i32), b: (u32, i32)) -> bool {
    a.0 < b.0 || (a.0 == b.0 && a.1 <= b.1)
}

/// `m` is the cell the font reports: shared by at least 8 records, by no
/// fewer than any other such cell, and the largest among equally common
/// ones.
pub open spec fn is_modal_cell(b: Seq<u8>, offs: Seq<u32>, m: (u32, i32)) -> bool {
    &&& metric_count(b, offs, offs.len() as int, m) >= 8
    &&& forall|m2: (u32, i32)| #[trigger] metric_count(b, offs, offs.len() as int, m2) >= 8 ==> (
    metric_count(b, offs, offs.len() as int, m2) < metric_count(b, offs, offs.len() as int, m) || (
    metric_count(b, offs, offs.len() as int, m2) == metric_count(b, offs, offs.len() as int, m)
        && metric_le(m2, m)))
}

fn record_metrics_exec(b: &Vec<u8>, off: u32) -> (r: Option<(u32, i32)>)
    ensures
        r == record_metrics(b@, off),
{
    if off == 0 {
        return None;
    }
    let o = off as usize;
    if o > b.len() || b.len() - o < 24 {
        return None;
    }
    let width = read_u32(b.as_slice(), o).unwrap();
    let height = read_u32(b.as_slice(), o + 4).unwrap();
    let bearing_raw = read_u32(b.as_slice(), o + 12).unwrap();
    let advance = read_u32(b.as_slice(), o + 16).unwrap();
    let bitmap_len = read_u32(b.as_slice(), o + 20).unwrap();
    if width == 0 || height == 0 || advance == 0 || advance > 128 || width > advance || height > advance {
        return None;
    }
    let stride = (width + 3) / 4 * 4;
    assert(stride * height <= 132 * 128) by (nonlinear_arith)
        requires
            stride <= 132,
            height <= 128,
    ;
    let size = stride * height;
    if bitmap_len != size || b.len() - o - 24 < bitmap_len as usize {
        return None;
    }
    let baseline: i64 = bearing_raw as i32 as i64 + ((advance - height) / 2) as i64;
    if 0 <= baseline && baseline <= advance as i64 {
        Some((advance, baseline as i32))
    } else {
        None
    }
}

proof fn lemma_metric_count_bound(b: Seq<u8>, offs: Seq<u32>, n: int, m: (u32, i32))
    requires
        0 <= n,
    ensures
        metric_count(b, offs, n, m) <= n,
    decreases n,
{
    if n > 0 {
        lemma_metric_count_bound(b, offs, n - 1, m);
    }
}

impl PalBitmapFont {
    /// The most common plausible cell (advance and baseline) among the
    /// glyph records, when at least 8 records share it (ties go to the
    /// largest cell); `None` otherwise.
    pub fn detect_cell_metrics(&self) -> (r: Option<(u32, i32)>)
        ensures
            r is None <==> no_common_cell(self.bytes@, self.offsets@),
            r matches Some(m) ==> is_modal_cell(self.bytes@, self.offsets@, m),
    {
        let ghost b = self.bytes@;
        let ghost offs = self.offsets@;
        let mut tally: Vec<((u32, i32), usize)> = Vec::new();
        let mut j: usize = 0;
        while j < self.offsets.len()
            invariant
                j <= offs.len(),
                b == self.bytes@,
                offs == self.offsets@,
                forall|a: int, c: int| 0 <= a < c < tally@.len() ==> tally@[a].0 != tally@[c].0,
                forall|a: int| 0 <= a < tally@.len() ==> #[trigger] tally@[a].1 == metric_count(b, offs, j as int, tally@[a].0),
                forall|m: (u32, i32)| #[trigger] metric_count(b, offs, j as int, m) > 0 ==> exists|a: int|
                    0 <= a < tally@.len() && tally@[a].0 == m,
            decreases offs.len() - j,
        {
            let found = record_metrics_exec(&self.bytes, self.offsets[j]);
            let ghost pre = tally@;
            proof {
                assert forall|m: (u32, i32)| #[trigger] metric_count(b, offs, j as int + 1, m) == metric_count(b, offs, j as int, m) + if record_metrics(b, offs[j as int]) == Some(m) { 1nat } else { 0nat } by {}
            }
            match found {
                Some(m) => {
                    let mut t: usize = 0;
                    let mut at: Option<usize> = None;
                    while t < tally.len()
                        invariant
                            t <= tally@.len(),
                            tally@ == pre,
                            match at {
                                Some(x) => x < t && tally@[x as int].0 == m,
                                None => forall|a: int| 0 <= a < t ==> tally@[a].0 != m,
                            },
                        decreases tally@.len() - t,
                    {
                        if at.is_none() && tally[t].0.0 == m.0 && tally[t].0.1 == m.1 {
                            at = Some(t);
                        }
                        t += 1;
                    }
                    match at {
                        Some(x) => {
                            proof {
                                lemma_metric_count_bound(b, offs, j as int, m);
                            }
                            let entry = tally[x];
                            tally.set(x, (entry.0, entry.1 + 1));
                        },
                        None => {
                            tally.push((m, 1));
                            proof {
                                assert(metric_count(b, offs, j as int, m) == 0) by {
                                    if metric_count(b, offs, j as int, m) > 0 {
                                        let a = choose|a: int| 0 <= a < pre.len() && pre[a].0 == m;
                                    }
                                }
                            }
                        },
                    }
                    assert forall|a: int| 0 <= a < tally@.len() implies #[trigger] tally@[a].1 == metric_count(b, offs, j as int + 1, tally@[a].0) by {
                        if a < pre.len() {
                            assert(pre[a].1 == metric_count(b, offs, j as int, pre[a].0));
                        }
                    }
                    assert forall|m2: (u32, i32)| #[trigger] metric_count(b, offs, j as int + 1, m2) > 0 implies exists|a: int|
                        0 <= a < tally@.len() && tally@[a].0 == m2 by {
                        if m2 == m {
                            match at {
                                Some(x) => {
                                    assert(tally@[x as int].0 == m2);
                                },
                                None => {
                                    assert(tally@[tally@.len() - 1].0 == m2);
                                },
                            }
                        } else {
                            let a = choose|a: int| 0 <= a < pre.len() && pre[a].0 == m2;
                            assert(tally@[a].0 == m2);
                        }
                    }
                },
                None => {
                    assert forall|a: int| 0 <= a < tally@.len() implies #[trigger] tally@[a].1 == metric_count(b, offs, j as int + 1, tally@[a].0) by {
                        assert(pre[a].1 == metric_count(b, offs, j as int, pre[a].0));
                    }
                },
            }
            j += 1;
        }
        let mut best: Option<((u32, i32), usize)> = None;
        let mut t: usize = 0;
        while t < tally.len()
            invariant
                t <= tally@.len(),
                j == offs.len(),
                forall|a: int| 0 <= a < tally@.len() ==> #[trigger] tally@[a].1 == metric_count(b, offs, j as int, tally@[a].0),
                match best {
                    Some((bm, bc)) => bc >= 8 && bc == metric_count(b, offs, j as int, bm) && forall|a: int| 0 <= a < t && #[trigger] tally@[a].1 >= 8 ==> (
                        tally@[a].1 < bc || (tally@[a].1 == bc && metric_le(tally@[a].0, bm))),
                    None => forall|a: int| 0 <= a < t ==> #[trigger] tally@[a].1 < 8,
                },
            decreases tally@.len() - t,
        {
            let (m, c) = tally[t];
            if c >= 8 {
                match best {
                    Some((bm, bc)) => {
                        if c > bc || (c == bc && (m.0 > bm.0 || (m.0 == bm.0 && m.1 >= bm.1))) {
                            best = Some((m, c));
                        }
                    },
                    None => {
                        best = Some((m, c));
                    },
                }
            }
            t += 1;
        }
        match best {
            Some((bm, bc)) => {
                assert forall|m2: (u32, i32)| #[trigger] metric_count(b, offs, offs.len() as int, m2) >= 8 implies (
                metric_count(b, offs, offs.len() as int, m2) < metric_count(b, offs, offs.len() as int, bm) || (
                metric_count(b, offs, offs.len() as int, m2) == metric_count(b, offs, offs.len() as int, bm)
                    && metric_le(m2, bm))) by {
                    let a = choose|a: int| 0 <= a < tally@.len() && tally@[a].0 == m2;
                    assert(tally@[a].1 >= 8);
                }
                Some(bm)
            },
            None => {
                assert forall|m2: (u32, i32)| #[trigger] metric_count(b, offs, offs.len() as int, m2) < 8 by {
                    if metric_count(b, offs, offs.len() as int, m2) >= 8 {
                        let a = choose|a: int| 0 <= a < tally@.len() && tally@[a].0 == m2;
                        assert(tally@[a].1 >= 8);
                    }
                }
                None
            },
        }
    }
}


/// No cell is shared by 8 or more records.
pub open spec fn no_common_cell(b: Seq<u8>, offs: Seq<u32>) -> bool {
    forall|m: (u32, i32)| #[trigger] metric_count(b, offs, offs.len() as int, m) < 8
}

/// The font's cell size and baseline are its modal cell, or 28 and 24 when
/// no cell is common enough.
pub open spec fn cell_metrics_chosen(f: PalBitmapFont) -> bool {
    if no_common_cell(f.bytes@, f.offsets@) {
        f.em_size == 28 && f.baseline == 24
    } else {
        is_modal_cell(f.bytes@, f.offsets@, (f.em_size, f.baseline))
    }
}

/// `f` is the font read from resource bytes `b`: it keeps the bytes and the
/// offset table, and its cell is the chosen one.
pub open spec fn parsed_font(f: PalBitmapFont, b: Seq<u8>) -> bool {
    &&& f.bytes@ == b
    &&& f.offsets@ == table_words(b, le_u32(b, 0x80) as int)
    &&& cell_metrics_chosen(f)
}

/// Why a bitmap font resource is refused.
pub open spec fn font_error(b: Seq<u8>) -> Option<Seq<char>> {
    if b.len() < 0x84 {
        Some("font data is too short"@)
    } else if le_u32(b, 0x80) < 0x84 || le_u32(b, 0x80) > b.len() || le_u32(b, 0x80) % 4 != 0 {
        Some("font lookup table has an invalid size"@)
    } else if exists|k: int| 0 <= k < table_words(b, le_u32(b, 0x80) as int).len() && #[trigger] table_words(b, le_u32(b, 0x80) as int)[k] != 0
        && table_words(b, le_u32(b, 0x80) as int)[k] >= b.len() {
        Some("font lookup table points outside the resource"@)
    } else {
        None
    }
}

impl PalBitmapFont {
    /// Reads a bitmap font resource: the first table word (at 0x80) gives
    /// the table's size, every non-zero entry must point inside the
    /// resource, and the cell size and baseline are the modal cell of the
    /// records, 28 and 24 when none is common enough.
    pub fn parse(bytes: Vec<u8>) -> (r: Result<PalBitmapFont, &'static str>)
        ensures
            r is Err <==> font_error(bytes@) is Some,
            r matches Err(e) ==> font_error(bytes@) == Some(e@),
            r matches Ok(f) ==> parsed_font(f, bytes@),
    {
        if bytes.len() < 0x84 {
            return Err("font data is too short");
        }
        let first_word = read_u32(bytes.as_slice(), 0x80).unwrap();
        let first = first_word as usize;
        if first < 0x84 || first > bytes.len() || first % 4 != 0 {
            return Err("font lookup table has an invalid size");
        }
        let ghost words = table_words(bytes@, first as int);
        let mut offsets: Vec<u32> = Vec::new();
        let mut k: usize = 0;
        while k < first / 4
            invariant
                first <= bytes@.len(),
                first % 4 == 0,
                first == le_u32(bytes@, 0x80),
                0x84 <= first,
                0x84 <= bytes@.len(),
                words == table_words(bytes@, first as int),
                k <= first / 4,
                offsets@ == words.take(k as int),
                forall|a: int| 0 <= a < k ==> !(#[trigger] words[a] != 0 && words[a] >= bytes@.len()),
            decreases first / 4 - k,
        {
            let word = read_u32(bytes.as_slice(), 4 * k).unwrap();
            if word != 0 && word as usize >= bytes.len() {
                assert(words[k as int] != 0 && words[k as int] >= bytes@.len());
                return Err("font lookup table points outside the resource");
            }
            offsets.push(word);
            k += 1;
            assert(offsets@ =~= words.take(k as int));
        }
        assert(words.take(k as int) =~= words);
        assert(font_error(bytes@) is None);
        let ghost b = bytes@;
        let font = PalBitmapFont { bytes, offsets, em_size: 28, baseline: 24 };
        let found = font.detect_cell_metrics();
        let PalBitmapFont { bytes, offsets, .. } = font;
        match found {
            Some(m) => {
                assert(is_modal_cell(b, offsets@, m));
                Ok(PalBitmapFont { bytes, offsets, em_size: m.0, baseline: m.1 })
            },
            None => Ok(PalBitmapFont { bytes, offsets, em_size: 28, baseline: 24 }),
        }
    }
}


// ---------------------------------------------------------------- glyph records

/// A glyph record of the bitmap font: its metrics and its coverage bytes,
/// `stride` bytes per row.
#[derive(Clone, Copy, Debug)]
pub struct PalBitmapGlyph<'a> {
    pub width: u32,
    pub height: u32,
    pub bearing_x: i32,
    pub bearing_y: i32,
    pub advance: u32,
    pub stride: u32,
    pub alpha: &'a [u8],
}

/// The table slot of a character, given its code in the font's text
/// encoding: a one-byte code is its own slot, a two-byte code whose lead is
/// 0x80 or more takes slot `(lead - 0x80) * 255 + trail`, and any other code
/// has none.
pub open spec fn encoded_slot(code: Seq<u8>) -> Option<int> {
    if code.len() == 1 {
        Some(code[0] as int)
    } else if code.len() == 2 && code[0] >= 0x80 {
        Some((code[0] - 0x80) * 255 + code[1])
    } else {
        None
    }
}

/// The row length of a glyph bitmap: the width rounded up to a multiple of
/// four, in 32-bit arithmetic (widths within 3 of the largest word wrap to
/// 0).
pub open spec fn row_stride(width: u32) -> u32 {
    if width > 0xFFFF_FFFC {
        0
    } else {
        ((width + 3) / 4 * 4) as u32
    }
}

/// Where the record for `slot` starts in the resource, when the slot holds
/// one that can be read: a non-zero offset with a 24-byte header inside the
/// resource, followed by a bitmap of the header's length, also inside,
/// whose length is 0 or `row_stride(width) * height`.
pub open spec fn glyph_record(b: Seq<u8>, offs: Seq<u32>, slot: int) -> Option<int> {
    if 0 <= slot < offs.len() && offs[slot] != 0 && offs[slot] + 24 <= b.len() {
        let o = offs[slot] as int;
        let len = le_u32(b, o + 20);
        if o + 24 + len > b.len() {
            None
        } else if len != 0 && len != row_stride(le_u32(b, o)) * le_u32(b, o + 4) {
            None
        } else {
            Some(o)
        }
    } else {
        None
    }
}

/// `g` is the glyph whose record starts at `o`: the header words in order
/// (width, height, bearing x and y, advance, bitmap length) and the bitmap
/// that follows.
pub open spec fn glyph_read(b: Seq<u8>, o: int, g: PalBitmapGlyph) -> bool {
    &&& g.width == le_u32(b, o)
    &&& g.height == le_u32(b, o + 4)
    &&& g.bearing_x == le_i32(b, o + 8)
    &&& g.bearing_y == le_i32(b, o + 12)
    &&& g.advance == le_u32(b, o + 16)
    &&& g.stride == row_stride(le_u32(b, o))
    &&& g.alpha@ == b.subrange(o + 24, o + 24 + le_u32(b, o + 20))
}

/// The slot of a character code (see `encoded_slot`).
pub fn slot_for_encoded(code: &[u8]) -> (r: Option<usize>)
    ensures
        r is None <==> encoded_slot(code@) is None,
        r matches Some(s) ==> encoded_slot(code@) == Some(s as int),
{
    if code.len() == 1 {
        Some(code[0] as usize)
    } else if code.len() == 2 && code[0] >= 0x80 {
        Some((code[0] - 0x80) as usize * 255 + code[1] as usize)
    } else {
        None
    }
}

impl PalBitmapFont {
    /// The glyph stored for table slot `slot` (see `glyph_record`).
    pub fn glyph_at(&self, slot: usize) -> (r: Option<PalBitmapGlyph<'_>>)
        ensures
            r is None <==> glyph_record(self.bytes@, self.offsets@, slot as int) is None,
            r matches Some(g) ==> glyph_read(
                self.bytes@,
                glyph_record(self.bytes@, self.offsets@, slot as int)->0,
                g,
            ),
    {
        if slot >= self.offsets.len() {
            return None;
        }
        let offset = self.offsets[slot] as usize;
        if offset == 0 || offset > self.bytes.len() || self.bytes.len() - offset < 24 {
            return None;
        }
        let b = self.bytes.as_slice();
        let width = read_u32(b, offset).unwrap();
        let height = read_u32(b, offset + 4).unwrap();
        let bearing_x = read_u32(b, offset + 8).unwrap() as i32;
        let bearing_y = read_u32(b, offset + 12).unwrap() as i32;
        let advance = read_u32(b, offset + 16).unwrap();
        let bitmap_len = read_u32(b, offset + 20).unwrap();
        let start = offset + 24;
        if self.bytes.len() - start < bitmap_len as usize {
            return None;
        }
        let end = start + bitmap_len as usize;
        let stride: u32 = if width > 0xFFFF_FFFC {
            0
        } else {
            (width + 3) / 4 * 4
        };
        assert((stride as int) * (height as int) <= 0xFFFF_FFFF * 0xFFFF_FFFF) by (nonlinear_arith)
            requires
                stride <= 0xFFFF_FFFF,
                height <= 0xFFFF_FFFF,
        ;
        if bitmap_len != 0 && bitmap_len as u64 != stride as u64 * height as u64 {
            return None;
        }
        let alpha = vstd::slice::slice_subrange(b, start, end);
        Some(PalBitmapGlyph { width, height, bearing_x, bearing_y, advance, stride, alpha })
    }

    /// The glyph for a character code in the font's text encoding: the
    /// glyph of its slot, `None` when the code has no slot or the slot no
    /// glyph.
    pub fn glyph_for_encoded(&self, code: &[u8]) -> (r: Option<PalBitmapGlyph<'_>>)
        ensures
            r is Some <==> (encoded_slot(code@) matches Some(s) && glyph_record(
                self.bytes@,
                self.offsets@,
                s,
            ) is Some),
            r matches Some(g) ==> glyph_read(
                self.bytes@,
                glyph_record(self.bytes@, self.offsets@, encoded_slot(code@)->0)->0,
                g,
            ),
    {
        match slot_for_encoded(code) {
            Some(slot) => self.glyph_at(slot),
            None => None,
        }
    }
}

/// The codes of the characters of `text` in Shift-JIS, the text encoding
/// of the PAL resources: one per character, `None` for a character that
/// Shift-JIS cannot write.
pub fn shift_jis_codes(text: &str) -> (r: Vec<Option<Vec<u8>>>)
    ensures
        r@.len() == text@.len(),
        forall|i: int| 0 <= i < r@.len() ==> match #[trigger] r@[i] {
            Some(b) => shift_jis_encoding(seq![text@[i]]) == Some(b@),
            None => shift_jis_encoding(seq![text@[i]]) is None,
        },
{
    let cs = chars_of(text);
    let mut r: Vec<Option<Vec<u8>>> = Vec::new();
    let mut i: usize = 0;
    while i < cs.len()
        invariant
            cs@ == text@,
            i <= cs@.len(),
            r@.len() == i,
            forall|k: int| 0 <= k < i ==> match #[trigger] r@[k] {
                Some(b) => shift_jis_encoding(seq![text@[k]]) == Some(b@),
                None => shift_jis_encoding(seq![text@[k]]) is None,
            },
        decreases cs@.len() - i,
    {
        let one = vec![cs[i]];
        let s = string_from_chars(one.as_slice());
        assert(s@ =~= seq![text@[i as int]]);
        let code = encode_shift_jis(s.as_str());
        r.push(code);
        i += 1;
    }
    r
}

/// The font has a glyph for a character whose code in the font's text
/// encoding is `code` (`None`: the encoding cannot write the character).
pub open spec fn code_has_glyph(f: PalBitmapFont, code: Option<Vec<u8>>) -> bool {
    match code {
        Some(c) => match encoded_slot(c@) {
            Some(slot) => glyph_record(f.bytes@, f.offsets@, slot) is Some,
            None => false,
        },
        None => false,
    }
}

/// The font can draw a text whose characters have the codes `codes`.
pub open spec fn draws_all(f: PalBitmapFont, codes: Seq<Option<Vec<u8>>>) -> bool {
    forall|i: int| 0 <= i < codes.len() ==> #[trigger] code_has_glyph(f, codes[i])
}

impl PalBitmapFont {
    /// Whether every character of a text has a glyph, given the characters'
    /// codes in the font's text encoding.
    pub fn supports_encoded(&self, codes: &Vec<Option<Vec<u8>>>) -> (b: bool)
        ensures
            b == draws_all(*self, codes@),
    {
        let mut i: usize = 0;
        while i < codes.len()
            invariant
                i <= codes@.len(),
                forall|k: int| 0 <= k < i ==> #[trigger] code_has_glyph(*self, codes@[k]),
            decreases codes@.len() - i,
        {
            let found = match &codes[i] {
                Some(code) => self.glyph_for_encoded(code.as_slice()).is_some(),
                None => false,
            };
            if !found {
                assert(!code_has_glyph(*self, codes@[i as int]));
                return false;
            }
            i += 1;
        }
        true
    }
}


/// The modal cell is unique: two cells that both qualify are the same.
pub proof fn lemma_modal_cell_unique(b: Seq<u8>, offs: Seq<u32>, m1: (u32, i32), m2: (u32, i32))
    requires
        is_modal_cell(b, offs, m1),
        is_modal_cell(b, offs, m2),
    ensures
        m1 == m2,
{
    let n = offs.len() as int;
    assert(metric_count(b, offs, n, m2) >= 8);
    assert(metric_count(b, offs, n, m1) >= 8);
}

} // verus!
