//! The drawing surface the core draws against: a display list.
//!
//! The core never talks to a GPU. A `Renderer` records draw commands and
//! answers text-measurement queries from a deterministic monospace model
//! (a glyph advances half the font size, rounded up); a host shell replays
//! the recorded commands against its real rasterizer. The model keeps
//! layout exact and provable; a proportional rasterizer's own metrics
//! will differ from it, which only moves pixels, never state.

use vstd::prelude::*;

verus! {

use crate::geom::COORD_LIMIT;
use crate::geom::LocalOffset;
use crate::geom::LocalPoint;
use crate::geom::LocalRect;
use crate::geom::LocalSize;
use vstd::string::StrSliceExecFns;

/// An RGBA colour with 8-bit channels.
#[derive(Clone, Copy, Debug, PartialEq, Eq, Structural)]
pub struct Color {
    pub r: u8,
    pub g: u8,
    pub b: u8,
    pub a: u8,
}

/// The colour text is drawn in.
pub open spec fn spec_text_color() -> Color {
    Color { r: 230, g: 230, b: 230, a: 255 }
}

pub fn text_color() -> (c: Color)
    ensures
        c == spec_text_color(),
{
    Color { r: 230, g: 230, b: 230, a: 255 }
}

/// The fill behind a button.
pub open spec fn spec_button_background_color() -> Color {
    Color { r: 25, g: 25, b: 25, a: 255 }
}

pub fn button_background_color() -> (c: Color)
    ensures
        c == spec_button_background_color(),
{
    Color { r: 25, g: 25, b: 25, a: 255 }
}

/// One recorded draw command.
#[derive(Clone, Debug)]
pub enum DrawCmd {
    /// Push the current transform.
    Save,
    /// Pop the last saved transform.
    Restore,
    /// Translate everything drawn until the matching restore.
    Translate { offset: LocalOffset },
    /// A filled, possibly rounded, rectangle.
    FillRect { rect: LocalRect, radius: i64, color: Color },
    /// A filled circle.
    FillCircle { center: LocalPoint, radius: i64, color: Color },
    /// A run of text at the current origin.
    Text { content: String, size: u32, color: Color },
}

/// The advance of one glyph at font size `size` in the monospace model.
pub open spec fn spec_glyph_advance(size: u32) -> int {
    (size + 1) / 2
}

/// The width of `n` glyphs at font size `size`, capped at `COORD_LIMIT`.
pub open spec fn spec_text_width(n: nat, size: u32) -> int {
    if n * spec_glyph_advance(size) > COORD_LIMIT {
        COORD_LIMIT as int
    } else {
        n * spec_glyph_advance(size)
    }
}

/// The height of one line of text at font size `size`, capped at
/// `COORD_LIMIT`.
pub open spec fn spec_text_height(size: u32) -> int {
    if size > COORD_LIMIT {
        COORD_LIMIT as int
    } else {
        size as int
    }
}

/// A display-list recorder with deterministic text metrics.
pub struct Renderer {
    /// The commands recorded so far, in order.
    pub commands: Vec<DrawCmd>,
}

impl Renderer {
    pub fn new() -> (r: Renderer)
        ensures
            r.commands@ == Seq::<DrawCmd>::empty(),
    {
        Renderer { commands: Vec::new() }
    }

    /// The bounds of `text` at font size `size` in the monospace model:
    /// one line, one advance per character.
    pub fn text_bounds(&self, text: &str, size: u32) -> (r: LocalSize)
        ensures
            r.width == spec_text_width(text@.len(), size),
            r.height == spec_text_height(size),
            r.wf(),
    {
        let n = text.unicode_len();
        let adv: u64 = ((size as u64) + 1) / 2;
        proof {
            assert((n as int) * (adv as int) <= 0xffffffffffffffff * 0x80000000int)
                by (nonlinear_arith)
                requires
                    0 <= n as int <= 0xffffffffffffffff,
                    0 <= adv as int <= 0x80000000int,
            ;
        }
        let wide: u128 = (n as u128) * (adv as u128);
        let width: i64 = if wide > (COORD_LIMIT as u128) {
            COORD_LIMIT
        } else {
            wide as i64
        };
        let height: i64 = if size as i64 > COORD_LIMIT {
            COORD_LIMIT
        } else {
            size as i64
        };
        LocalSize { width, height }
    }

    pub fn save(&mut self)
        ensures
            final(self).commands@ == old(self).commands@.push(DrawCmd::Save),
    {
        self.commands.push(DrawCmd::Save);
    }

    pub fn restore(&mut self)
        ensures
            final(self).commands@ == old(self).commands@.push(DrawCmd::Restore),
    {
        self.commands.push(DrawCmd::Restore);
    }

    pub fn translate(&mut self, offset: LocalOffset)
        ensures
            final(self).commands@ == old(self).commands@.push(DrawCmd::Translate { offset }),
    {
        self.commands.push(DrawCmd::Translate { offset });
    }

    pub fn fill_rect(&mut self, rect: LocalRect, radius: i64, color: Color)
        ensures
            final(self).commands@ == old(self).commands@.push(
                DrawCmd::FillRect { rect, radius, color },
            ),
    {
        self.commands.push(DrawCmd::FillRect { rect, radius, color });
    }

    pub fn fill_circle(&mut self, center: LocalPoint, radius: i64, color: Color)
        ensures
            final(self).commands@ == old(self).commands@.push(
                DrawCmd::FillCircle { center, radius, color },
            ),
    {
        self.commands.push(DrawCmd::FillCircle { center, radius, color });
    }

    /// Record a run of text.
    pub fn text(&mut self, content: &str, size: u32, color: Color)
        ensures
            exists|c: String|
                c@ == content@ && final(self).commands@ == old(self).commands@.push(
                    DrawCmd::Text { content: c, size, color },
                ),
    {
        let owned: String = content.to_owned();
        self.commands.push(DrawCmd::Text { content: owned, size, color });
    }
}

} // verus!
