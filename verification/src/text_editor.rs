//! An editable text view: cursor movement over a wrapped glyph layout,
//! and editing through a `Binding<String>`.
//!
//! The cursor is a character index into the bound text. Glyph geometry
//! comes from the monospace model of the `Renderer`: glyphs advance half
//! the font size and wrap into fixed-width rows, and the per-row ranges
//! drive the up/down cursor motion.

use vstd::prelude::*;

verus! {

use crate::binding::Binding;
use crate::context::Context;
use crate::context::LayoutBox;
use crate::geom::COORD_LIMIT;
use crate::geom::LocalOffset;
use crate::geom::LocalPoint;
use crate::geom::LocalRect;
use crate::geom::LocalSize;
use crate::renderer::text_color;
use crate::renderer::Color;
use crate::renderer::Renderer;
use crate::state::State;
use crate::view::CommandInfo;
use crate::view::Event;
use crate::view::EventKind;
use crate::view::KeyPress;
use crate::view::View;
use crate::view::ViewCore;
use crate::view::Wf;
use crate::viewid::ViewId;
use vstd::string::StrSliceExecFns;
use vstd::string::StringExecFns;
use vstd::view::View as ValueView;

/// Relies on String::from for char: the resulting string holds exactly
/// the one character.
pub assume_specification[ <String as From<char>>::from ](c: char) -> (r: String)
    ensures
        r@ == seq![c],
;

/// The glyph range of one wrapped row of text.
#[derive(Clone, Copy, Debug, PartialEq, Eq, Structural)]
pub struct LineMetrics {
    pub glyph_start: usize,
    pub glyph_end: usize,
}

/// Where each glyph of the bound text sits, and how the glyphs are
/// grouped into rows.
#[derive(Clone, Debug)]
pub struct TextEditorGlyphInfo {
    pub glyph_rects: Vec<LocalRect>,
    pub lines: Vec<LineMetrics>,
}

/// The rows partition the glyph indices `[0, n)` in order, and every row
/// is non-empty.
pub open spec fn spec_lines_wf(lines: Seq<LineMetrics>, n: nat) -> bool {
    &&& forall|k: int|
        0 <= k < lines.len() ==> (#[trigger] lines[k]).glyph_start < lines[k].glyph_end <= n
    &&& (lines.len() == 0 ==> n == 0)
    &&& (lines.len() > 0 ==> lines[0].glyph_start == 0 && lines[lines.len() - 1].glyph_end == n)
    &&& forall|k: int|
        0 <= k < lines.len() - 1 ==> (#[trigger] lines[k]).glyph_end == lines[k + 1].glyph_start
}

impl TextEditorGlyphInfo {
    /// Consistent glyph geometry: rows partition the rects, and every rect
    /// is in coordinate range.
    pub open spec fn wf(&self) -> bool {
        &&& spec_lines_wf(self.lines@, self.glyph_rects@.len())
        &&& forall|j: int|
            0 <= j < self.glyph_rects@.len() ==> (#[trigger] self.glyph_rects@[j]).wf()
    }

    pub fn new() -> (r: Self)
        ensures
            r.glyph_rects@.len() == 0,
            r.lines@.len() == 0,
            r.wf(),
    {
        Self { glyph_rects: Vec::new(), lines: Vec::new() }
    }

    /// An exact copy; unlike a derived `clone`, its contract says so.
    pub fn dup(&self) -> (r: Self)
        ensures
            r.glyph_rects@ == self.glyph_rects@,
            r.lines@ == self.lines@,
    {
        let mut glyph_rects: Vec<LocalRect> = Vec::new();
        let mut i: usize = 0;
        while i < self.glyph_rects.len()
            invariant
                i <= self.glyph_rects@.len(),
                glyph_rects@ == self.glyph_rects@.subrange(0, i as int),
            decreases self.glyph_rects@.len() - i,
        {
            glyph_rects.push(self.glyph_rects[i]);
            i = i + 1;
        }
        let mut lines: Vec<LineMetrics> = Vec::new();
        let mut k: usize = 0;
        while k < self.lines.len()
            invariant
                k <= self.lines@.len(),
                lines@ == self.lines@.subrange(0, k as int),
            decreases self.lines@.len() - k,
        {
            lines.push(self.lines[k]);
            k = k + 1;
        }
        proof {
            assert(self.glyph_rects@.subrange(0, self.glyph_rects@.len() as int)
                == self.glyph_rects@);
            assert(self.lines@.subrange(0, self.lines@.len() as int) == self.lines@);
        }
        Self { glyph_rects, lines }
    }
}

/// The rectangle of glyph `j` in the monospace model: column `j % cols`,
/// row `j / cols`, one advance wide and one line tall.
pub open spec fn spec_glyph_rect(j: int, cols: int, adv: int, height: int) -> LocalRect {
    LocalRect {
        origin: LocalPoint { x: ((j % cols) * adv) as i64, y: ((j / cols) * height) as i64 },
        size: LocalSize { width: adv as i64, height: height as i64 },
    }
}

/// Lay `n` glyphs out in the monospace model: rows of `cols` glyphs, each
/// `adv` wide and `height` tall, rows stacked downward. Every glyph rect
/// is pinned by `spec_glyph_rect`, and the rows partition the glyph
/// indices into runs of `cols` with a final partial run.
pub fn layout_glyphs(n: usize, adv: i64, height: i64, cols: usize) -> (r: TextEditorGlyphInfo)
    requires
        0 < adv <= 1024,
        0 < height <= 1024,
        0 < cols <= 1024,
        n <= 0x10000,
    ensures
        r.glyph_rects@.len() == n,
        forall|j: int|
            0 <= j < n ==> #[trigger] r.glyph_rects@[j] == spec_glyph_rect(
                j,
                cols as int,
                adv as int,
                height as int,
            ),
        r.lines@.len() == (n + cols - 1) / (cols as int),
        forall|k: int|
            0 <= k < r.lines@.len() ==> (#[trigger] r.lines@[k]).glyph_start == k * cols
                && r.lines@[k].glyph_end == (if (k + 1) * cols <= n {
                (k + 1) * (cols as int)
            } else {
                n as int
            }),
        r.wf(),
{
    let mut glyph_rects: Vec<LocalRect> = Vec::new();
    let mut lines: Vec<LineMetrics> = Vec::new();
    let mut i: usize = 0;
    let mut col: usize = 0;
    let mut row: usize = 0;
    while i < n
        invariant
            0 < adv <= 1024,
            0 < height <= 1024,
            0 < cols <= 1024,
            n <= 0x10000,
            i <= n,
            col < cols,
            i == row * cols + col,
            glyph_rects@.len() == i,
            forall|j: int|
                0 <= j < i ==> #[trigger] glyph_rects@[j] == spec_glyph_rect(
                    j,
                    cols as int,
                    adv as int,
                    height as int,
                ),
            forall|j: int| 0 <= j < i ==> (#[trigger] glyph_rects@[j]).wf(),
            lines@.len() == row,
            forall|k: int|
                0 <= k < row ==> (#[trigger] lines@[k]).glyph_start == k * cols && lines@[
                    k].glyph_end == (k + 1) * (cols as int),
            spec_lines_wf(lines@, (i - col) as nat),
            col > 0 ==> i > 0,
        decreases n - i,
    {
        proof {
            assert(row * cols <= i) by (nonlinear_arith)
                requires
                    i == row * cols + col,
                    col >= 0,
            ;
            assert(row <= i) by (nonlinear_arith)
                requires
                    row * cols <= i,
                    cols >= 1,
                    row >= 0,
            ;
            vstd::arithmetic::div_mod::lemma_fundamental_div_mod_converse(
                i as int,
                cols as int,
                row as int,
                col as int,
            );
            assert(0 <= (col as int) * (adv as int) <= 1024 * 1024) by (nonlinear_arith)
                requires
                    0 <= col as int <= 1024,
                    0 < adv as int <= 1024,
            ;
            assert(0 <= (row as int) * (height as int) <= 0x10000 * 1024) by (nonlinear_arith)
                requires
                    0 <= row as int <= 0x10000,
                    0 < height as int <= 1024,
            ;
        }
        let x: i64 = (col as i64) * adv;
        let y: i64 = (row as i64) * height;
        glyph_rects.push(
            LocalRect {
                origin: LocalPoint { x, y },
                size: LocalSize { width: adv, height },
            },
        );
        i = i + 1;
        col = col + 1;
        if col == cols {
            lines.push(LineMetrics { glyph_start: i - cols, glyph_end: i });
            col = 0;
            proof {
                assert((row + 1) * cols == row * cols + cols) by (nonlinear_arith);
            }
            row = row + 1;
        }
    }
    if col > 0 {
        lines.push(LineMetrics { glyph_start: i - col, glyph_end: i });
        proof {
            assert((row + 1) * cols == row * cols + cols) by (nonlinear_arith);
            vstd::arithmetic::div_mod::lemma_fundamental_div_mod_converse(
                n + cols - 1,
                cols as int,
                row as int + 1,
                col as int - 1,
            );
        }
    } else {
        proof {
            if n > 0 {
                assert((row - 1) * cols + cols == row * cols) by (nonlinear_arith);
                vstd::arithmetic::div_mod::lemma_fundamental_div_mod_converse(
                    n + cols - 1,
                    cols as int,
                    row as int,
                    cols as int - 1,
                );
            } else {
                vstd::arithmetic::div_mod::lemma_fundamental_div_mod_converse(
                    n + cols - 1,
                    cols as int,
                    0,
                    cols as int - 1,
                );
            }
        }
    }
    proof {
        let cs = cols as int;
        assert forall|k: int| 0 <= k < lines@.len() implies (#[trigger] lines@[k]).glyph_start == k
            * cols && lines@[k].glyph_end == (if (k + 1) * cs <= n {
            (k + 1) * cs
        } else {
            n as int
        }) by {
            if k < lines@.len() - 1 || col == 0 {
                vstd::arithmetic::mul::lemma_mul_inequality(k + 1, row as int, cs);
            } else {
                vstd::arithmetic::mul::lemma_mul_inequality(k, row as int, cs);
                assert((k + 1) * cs == k * cs + cs) by (nonlinear_arith);
            }
        }
    }
    TextEditorGlyphInfo { glyph_rects, lines }
}

/// The squared distance from `p` to the centre of `r`.
pub open spec fn spec_dist2(p: LocalPoint, r: LocalRect) -> int {
    let cx = r.origin.x + r.size.width / 2;
    let cy = r.origin.y + r.size.height / 2;
    (cx - p.x) * (cx - p.x) + (cy - p.y) * (cy - p.y)
}

/// Editor state: the cursor (a character index into the bound text) and
/// the glyph geometry of the last frame.
#[derive(Clone, Debug)]
pub struct TextEditorState {
    pub cursor: usize,
    pub glyph_info: TextEditorGlyphInfo,
}

/// Where the cursor lands moving one position right in text of length
/// `len`: it never passes the last character.
pub open spec fn spec_fwd(c: nat, len: nat) -> nat {
    if len == 0 {
        0
    } else if c + 1 >= len {
        (len - 1) as nat
    } else {
        c + 1
    }
}

/// The first row at or after `i` whose glyph range contains `c`, or the
/// row count if none does.
pub open spec fn spec_find_line_from(lines: Seq<LineMetrics>, c: nat, i: int) -> int
    decreases lines.len() - i,
{
    if i < 0 || i >= lines.len() {
        lines.len() as int
    } else if lines[i].glyph_start <= c < lines[i].glyph_end {
        i
    } else {
        spec_find_line_from(lines, c, i + 1)
    }
}

/// The row holding glyph `c`, or the row count if none does.
pub open spec fn spec_find_line(lines: Seq<LineMetrics>, c: nat) -> int {
    spec_find_line_from(lines, c, 0)
}

/// Row coverage: under well-formed row metadata, every glyph index lies
/// on some row, so looking its row up never falls off the end.
pub proof fn lemma_lines_cover(lines: Seq<LineMetrics>, n: nat, c: nat)
    requires
        spec_lines_wf(lines, n),
        c < n,
    ensures
        0 <= spec_find_line(lines, c) < lines.len(),
{
    lemma_lines_cover_from(lines, n, c, 0);
}

proof fn lemma_lines_cover_from(lines: Seq<LineMetrics>, n: nat, c: nat, i: int)
    requires
        spec_lines_wf(lines, n),
        c < n,
        0 <= i < lines.len(),
        lines[i].glyph_start <= c,
    ensures
        i <= spec_find_line_from(lines, c, i) < lines.len(),
    decreases lines.len() - i,
{
    if !(lines[i].glyph_start <= c < lines[i].glyph_end) {
        assert(lines[i].glyph_end <= c);
        if i == lines.len() - 1 {
            assert(lines[i].glyph_end == n);
        }
        assert(i < lines.len() - 1);
        assert(lines[i + 1].glyph_start == lines[i].glyph_end);
        lemma_lines_cover_from(lines, n, c, i + 1);
    }
}

/// Where the cursor lands moving one position left.
pub open spec fn spec_back(c: nat) -> nat {
    if c > 0 {
        (c - 1) as nat
    } else {
        0
    }
}

impl TextEditorState {
    pub fn new() -> (r: Self)
        ensures
            r.cursor == 0,
            r.glyph_info.glyph_rects@.len() == 0,
            r.glyph_info.lines@.len() == 0,
            r.glyph_info.wf(),
    {
        Self { cursor: 0, glyph_info: TextEditorGlyphInfo::new() }
    }

    /// An exact copy; unlike a derived `clone`, its contract says so.
    pub fn dup(&self) -> (r: Self)
        ensures
            r.cursor == self.cursor,
            r.glyph_info.glyph_rects@ == self.glyph_info.glyph_rects@,
            r.glyph_info.lines@ == self.glyph_info.lines@,
    {
        Self { cursor: self.cursor, glyph_info: self.glyph_info.dup() }
    }

    /// Move the cursor one position right, never past the last character.
    pub fn fwd(&mut self, len: usize)
        ensures
            final(self).cursor == spec_fwd(old(self).cursor as nat, len as nat),
            final(self).glyph_info == old(self).glyph_info,
    {
        if len == 0 {
            self.cursor = 0;
        } else if self.cursor >= len - 1 {
            self.cursor = len - 1;
        } else {
            self.cursor = self.cursor + 1;
        }
    }

    /// Move the cursor one position left, stopping at the start.
    pub fn back(&mut self)
        ensures
            final(self).cursor == spec_back(old(self).cursor as nat),
            final(self).glyph_info == old(self).glyph_info,
    {
        if self.cursor > 0 {
            self.cursor = self.cursor - 1;
        }
    }

    /// The row holding the cursor: the first row whose glyph range
    /// contains it, or the row count if none does.
    pub fn find_line(&self) -> (r: usize)
        ensures
            r == spec_find_line(self.glyph_info.lines@, self.cursor as nat),
            r <= self.glyph_info.lines@.len(),
            r < self.glyph_info.lines@.len() ==> self.glyph_info.lines@[r as int].glyph_start
                <= self.cursor < self.glyph_info.lines@[r as int].glyph_end,
            forall|k: int|
                0 <= k < r ==> !((#[trigger] self.glyph_info.lines@[k]).glyph_start <= self.cursor
                    < self.glyph_info.lines@[k].glyph_end),
    {
        let lines = &self.glyph_info.lines;
        let mut i: usize = 0;
        while i < lines.len()
            invariant
                i <= lines@.len(),
                lines@ == self.glyph_info.lines@,
                spec_find_line(lines@, self.cursor as nat) == spec_find_line_from(
                    lines@,
                    self.cursor as nat,
                    i as int,
                ),
                forall|k: int|
                    0 <= k < i ==> !((#[trigger] lines@[k]).glyph_start <= self.cursor
                        < lines@[k].glyph_end),
            decreases lines@.len() - i,
        {
            let line = lines[i];
            if line.glyph_start <= self.cursor && self.cursor < line.glyph_end {
                return i;
            }
            i = i + 1;
        }
        i
    }

    /// The glyph in `[start, end)` whose centre is closest to `p`; the
    /// first such glyph on a tie. Returns 0 for an empty range.
    pub fn closest_in_range(&self, p: LocalPoint, start: usize, end: usize, rects: &Vec<LocalRect>)
        -> (r: usize)
        requires
            end <= rects@.len(),
            -2 * COORD_LIMIT <= p.x <= 2 * COORD_LIMIT,
            -2 * COORD_LIMIT <= p.y <= 2 * COORD_LIMIT,
            forall|j: int| 0 <= j < rects@.len() ==> (#[trigger] rects@[j]).wf(),
        ensures
            start < end ==> {
                &&& start <= r < end
                &&& forall|j: int|
                    start <= j < end ==> spec_dist2(p, rects@[r as int]) <= spec_dist2(
                        p,
                        #[trigger] rects@[j],
                    )
                &&& forall|j: int|
                    start <= j < r ==> spec_dist2(p, #[trigger] rects@[j]) > spec_dist2(
                        p,
                        rects@[r as int],
                    )
            },
            start >= end ==> r == 0,
    {
        if start >= end {
            return 0;
        }
        let mut closest: usize = start;
        let mut d: i128 = dist2(p, &rects[start]);
        let mut i: usize = start + 1;
        while i < end
            invariant
                start < end <= rects@.len(),
                start <= closest < i,
                i <= end,
                -2 * COORD_LIMIT <= p.x <= 2 * COORD_LIMIT,
                -2 * COORD_LIMIT <= p.y <= 2 * COORD_LIMIT,
                forall|j: int| 0 <= j < rects@.len() ==> (#[trigger] rects@[j]).wf(),
                d == spec_dist2(p, rects@[closest as int]),
                forall|j: int|
                    start <= j < i ==> spec_dist2(p, rects@[closest as int]) <= spec_dist2(
                        p,
                        #[trigger] rects@[j],
                    ),
                forall|j: int|
                    start <= j < closest ==> spec_dist2(p, #[trigger] rects@[j]) > spec_dist2(
                        p,
                        rects@[closest as int],
                    ),
            decreases end - i,
        {
            let dp = dist2(p, &rects[i]);
            if dp < d {
                closest = i;
                d = dp;
            }
            i = i + 1;
        }
        closest
    }

    /// Move the cursor to the closest glyph of the next row, if there is
    /// one; at the last row nothing moves.
    pub fn down(&mut self)
        requires
            old(self).glyph_info.wf(),
        ensures
            final(self).glyph_info == old(self).glyph_info,
            final(self).cursor == old(self).cursor || final(self).cursor < old(
                self,
            ).glyph_info.glyph_rects@.len(),
            old(self).cursor >= old(self).glyph_info.glyph_rects@.len() ==> final(self).cursor
                == old(self).cursor,
            old(self).cursor < old(self).glyph_info.glyph_rects@.len() ==> {
                let lines = old(self).glyph_info.lines@;
                let rects = old(self).glyph_info.glyph_rects@;
                let l = spec_find_line(lines, old(self).cursor as nat) + 1;
                let p = rects[old(self).cursor as int].spec_center();
                if l < lines.len() {
                    &&& lines[l].glyph_start <= final(self).cursor < lines[l].glyph_end
                    &&& forall|j: int|
                        lines[l].glyph_start <= j < lines[l].glyph_end ==> spec_dist2(
                            p,
                            rects[final(self).cursor as int],
                        ) <= spec_dist2(p, #[trigger] rects[j])
                } else {
                    final(self).cursor == old(self).cursor
                }
            },
    {
        if self.cursor >= self.glyph_info.glyph_rects.len() {
            return ;
        }
        let p = self.glyph_info.glyph_rects[self.cursor].center();
        let line = self.find_line();
        if line < self.glyph_info.lines.len() && line + 1 < self.glyph_info.lines.len() {
            let metrics = self.glyph_info.lines[line + 1];
            self.cursor = self.closest_in_range(
                p,
                metrics.glyph_start,
                metrics.glyph_end,
                &self.glyph_info.glyph_rects,
            );
        }
    }

    /// Move the cursor to the closest glyph of the previous row, if there
    /// is one; at the first row nothing moves.
    pub fn up(&mut self)
        requires
            old(self).glyph_info.wf(),
        ensures
            final(self).glyph_info == old(self).glyph_info,
            final(self).cursor == old(self).cursor || final(self).cursor < old(
                self,
            ).glyph_info.glyph_rects@.len(),
            old(self).cursor >= old(self).glyph_info.glyph_rects@.len() ==> final(self).cursor
                == old(self).cursor,
            old(self).cursor < old(self).glyph_info.glyph_rects@.len() ==> {
                let lines = old(self).glyph_info.lines@;
                let rects = old(self).glyph_info.glyph_rects@;
                let l = spec_find_line(lines, old(self).cursor as nat);
                let p = rects[old(self).cursor as int].spec_center();
                if 0 < l <= lines.len() {
                    &&& lines[l - 1].glyph_start <= final(self).cursor < lines[l - 1].glyph_end
                    &&& forall|j: int|
                        lines[l - 1].glyph_start <= j < lines[l - 1].glyph_end ==> spec_dist2(
                            p,
                            rects[final(self).cursor as int],
                        ) <= spec_dist2(p, #[trigger] rects[j])
                } else {
                    final(self).cursor == old(self).cursor
                }
            },
    {
        if self.cursor >= self.glyph_info.glyph_rects.len() {
            return ;
        }
        let p = self.glyph_info.glyph_rects[self.cursor].center();
        let line = self.find_line();
        if line > 0 && line <= self.glyph_info.lines.len() {
            let metrics = self.glyph_info.lines[line - 1];
            self.cursor = self.closest_in_range(
                p,
                metrics.glyph_start,
                metrics.glyph_end,
                &self.glyph_info.glyph_rects,
            );
        }
    }

    /// Apply one key press: cursor motion, or an edit of the bound text.
    /// Every edit goes through the binding's exclusive access, so it marks
    /// the context dirty; pure motions leave the context untouched.
    pub fn key<B: Binding<String>>(&mut self, k: &KeyPress, text: &B, cx: &mut Context)
        requires
            old(cx).wf(),
            text.spec_valid(*old(cx)),
            old(self).glyph_info.wf(),
            old(self).cursor <= text.spec_read(*old(cx))@.len(),
            text.spec_read(*old(cx))@.len() < usize::MAX,
        ensures
            final(self).glyph_info == old(self).glyph_info,
            final(cx).wf(),
            text.spec_valid(*final(cx)),
            crate::view::preserves_dispatch_state(*old(cx), *final(cx)),
            crate::view::keeps_state_keys(*old(cx), *final(cx)),
            final(cx).env_map == old(cx).env_map,
            match *k {
                KeyPress::ArrowLeft => *final(cx) == *old(cx) && final(self).cursor == spec_back(
                    old(self).cursor as nat,
                ),
                KeyPress::ArrowRight => *final(cx) == *old(cx) && final(self).cursor == spec_fwd(
                    old(self).cursor as nat,
                    text.spec_read(*old(cx))@.len(),
                ),
                KeyPress::ArrowUp => *final(cx) == *old(cx),
                KeyPress::ArrowDown => *final(cx) == *old(cx),
                KeyPress::Backspace => {
                    if old(self).cursor > 0 {
                        &&& final(self).cursor == spec_back(old(self).cursor as nat)
                        &&& final(cx).dirty
                        &&& text.spec_read(*final(cx))@ == text.spec_read(*old(cx))@.subrange(
                            0,
                            old(self).cursor - 1,
                        ).add(
                            text.spec_read(*old(cx))@.subrange(
                                old(self).cursor as int,
                                text.spec_read(*old(cx))@.len() as int,
                            ),
                        )
                    } else {
                        *final(cx) == *old(cx) && final(self).cursor == old(self).cursor
                    }
                },
                KeyPress::Character(c) => {
                    &&& final(self).cursor == old(self).cursor + 1
                    &&& final(cx).dirty
                    &&& text.spec_read(*final(cx))@ == text.spec_read(*old(cx))@.subrange(
                        0,
                        old(self).cursor as int,
                    ).add(seq![c]).add(
                        text.spec_read(*old(cx))@.subrange(
                            old(self).cursor as int,
                            text.spec_read(*old(cx))@.len() as int,
                        ),
                    )
                },
                KeyPress::Space => {
                    &&& final(self).cursor == old(self).cursor + 1
                    &&& final(cx).dirty
                    &&& text.spec_read(*final(cx))@ == text.spec_read(*old(cx))@.subrange(
                        0,
                        old(self).cursor as int,
                    ).add(seq![' ']).add(
                        text.spec_read(*old(cx))@.subrange(
                            old(self).cursor as int,
                            text.spec_read(*old(cx))@.len() as int,
                        ),
                    )
                },
                KeyPress::Home => *final(cx) == *old(cx) && final(self).cursor == 0,
                KeyPress::End => *final(cx) == *old(cx) && final(self).cursor == text.spec_read(
                    *old(cx),
                )@.len(),
            },
    {
        match k {
            KeyPress::ArrowLeft => {
                self.back();
            },
            KeyPress::ArrowRight => {
                let len = text.get(cx).unicode_len();
                self.fwd(len);
            },
            KeyPress::ArrowUp => {
                self.up();
            },
            KeyPress::ArrowDown => {
                self.down();
            },
            KeyPress::Backspace => {
                if self.cursor > 0 {
                    let cursor = self.cursor;
                    let t: &mut String = text.get_mut(cx);
                    let removed = remove_char(t.as_str(), cursor - 1);
                    *t = removed;
                    proof {
                        text.lemma_wrote(*old(cx), *final(cx), *final(t));
                    }
                    self.back();
                }
            },
            KeyPress::Character(c) => {
                let cursor = self.cursor;
                let one: String = String::from(*c);
                let t: &mut String = text.get_mut(cx);
                let inserted = insert_str_at(t.as_str(), cursor, one.as_str());
                *t = inserted;
                proof {
                    text.lemma_wrote(*old(cx), *final(cx), *final(t));
                }
                self.cursor = cursor + 1;
            },
            KeyPress::Space => {
                let cursor = self.cursor;
                let t: &mut String = text.get_mut(cx);
                let inserted = insert_str_at(t.as_str(), cursor, " ");
                *t = inserted;
                proof {
                    reveal_strlit(" ");
                    assert(" "@ =~= seq![' ']);
                    text.lemma_wrote(*old(cx), *final(cx), *final(t));
                }
                self.cursor = cursor + 1;
            },
            KeyPress::Home => {
                self.cursor = 0;
            },
            KeyPress::End => {
                let len = text.get(cx).unicode_len();
                self.cursor = len;
            },
        }
    }
}

/// The squared distance from `p` to the centre of `r`.
fn dist2(p: LocalPoint, r: &LocalRect) -> (d: i128)
    requires
        -2 * COORD_LIMIT <= p.x <= 2 * COORD_LIMIT,
        -2 * COORD_LIMIT <= p.y <= 2 * COORD_LIMIT,
        r.wf(),
    ensures
        d == spec_dist2(p, *r),
{
    let cx: i64 = r.origin.x + r.size.width / 2;
    let cy: i64 = r.origin.y + r.size.height / 2;
    let dx: i128 = (cx as i128) - (p.x as i128);
    let dy: i128 = (cy as i128) - (p.y as i128);
    proof {
        assert(dx * dx + dy * dy < 0x100000000000000000000i128 && dx * dx >= 0 && dy * dy >= 0)
            by (nonlinear_arith)
            requires
                -0x400000000i128 <= dx <= 0x400000000i128,
                -0x400000000i128 <= dy <= 0x400000000i128,
        ;
    }
    dx * dx + dy * dy
}

/// The text with the character at index `i` removed.
fn remove_char(s: &str, i: usize) -> (r: String)
    requires
        i < s@.len(),
    ensures
        r@ == s@.subrange(0, i as int).add(s@.subrange(i + 1, s@.len() as int)),
{
    let n = s.unicode_len();
    let mut head: String = s.substring_char(0, i).to_owned();
    let tail: &str = s.substring_char(i + 1, n);
    head.append(tail);
    head
}

/// The text with `ins` inserted before character index `i`.
fn insert_str_at(s: &str, i: usize, ins: &str) -> (r: String)
    requires
        i <= s@.len(),
    ensures
        r@ == s@.subrange(0, i as int).add(ins@).add(s@.subrange(i as int, s@.len() as int)),
{
    let n = s.unicode_len();
    let mut head: String = s.substring_char(0, i).to_owned();
    head.append(ins);
    head.append(s.substring_char(i, n));
    head
}

/// Struct for `text_editor`.
///
/// The editor owns one state cell under its own identity (the cursor) and
/// marks it during GC. The bound text's cell belongs to whoever created
/// it — usually an enclosing stateful node, which marks it itself.
pub struct TextEditor<B> {
    pub text: B,
}

/// An editable text view over the given text binding.
pub fn text_editor<B: Binding<String>>(text: B) -> (r: TextEditor<B>)
    ensures
        r.text == text,
{
    TextEditor { text }
}

impl<B: Binding<String>> Wf for TextEditor<B> {
    open spec fn wf(&self) -> bool {
        true
    }
}

/// The font size the editor renders at.
pub const EDITOR_FONT_SIZE: u32 = 18;

/// The cursor is stored as an integer cell under the editor's identity;
/// this reads it back, clamped into `[0, len]`.
fn clamp_cursor(stored: i32, len: usize) -> (r: usize)
    ensures
        r == if stored <= 0 {
            0
        } else if stored > len {
            len as int
        } else {
            stored as int
        },
        r <= len,
{
    if stored <= 0 {
        0
    } else if (stored as usize) > len {
        len
    } else {
        stored as usize
    }
}

impl<B: Binding<String>> TextEditor<B> {
    /// The glyph geometry of `n` glyphs wrapped to this editor's laid-out
    /// width, in the monospace model.
    fn glyphs(&self, n_chars: usize, id: ViewId, cx: &Context) -> (r: TextEditorGlyphInfo)
        requires
            cx.wf(),
        ensures
            r.wf(),
    {
        let adv: i64 = ((EDITOR_FONT_SIZE as i64) + 1) / 2;
        let height: i64 = EDITOR_FONT_SIZE as i64;
        let lb = cx.layout_box(id);
        let width = lb.rect.size.width;
        let cols_wide: i64 = if width / adv < 1 {
            1
        } else if width / adv > 1024 {
            1024
        } else {
            width / adv
        };
        let cols: usize = cols_wide as usize;
        let n: usize = if n_chars > 0x10000 {
            0x10000
        } else {
            n_chars
        };
        layout_glyphs(n, adv, height, cols)
    }
}

impl<A, B: Binding<String>> View<A> for TextEditor<B> {
    fn process(&self, event: &Event, id: ViewId, cx: &mut Context, _actions: &mut Vec<A>)
        ensures
            final(_actions)@ == old(_actions)@,
            event.kind matches EventKind::Key(k) ==> {
                &&& !self.text.spec_valid(*old(cx)) ==> *final(cx) == *old(cx)
                &&& !(old(cx).focused_id matches Some(f) && f.id == id.id) ==> *final(cx) == *old(
                    cx,
                )
            },
            event.kind matches EventKind::TouchBegin { id: _p } ==> {
                if self.text.spec_valid(*old(cx)) && old(cx).spec_layout_box(
                    id,
                ).rect.spec_contains(event.position) {
                    &&& final(cx).focused_id == Some(id)
                    &&& Context::same_but_focus(*old(cx), *final(cx))
                } else {
                    *final(cx) == *old(cx)
                }
            },
    {
        if !self.text.is_valid(cx) {
            return ;
        }
        match &event.kind {
            EventKind::TouchBegin { id: _ } => {
                let lb = cx.layout_box(id);
                if lb.rect.contains(&event.position) {
                    cx.focused_id = Some(id);
                }
            },
            EventKind::Key(k) => {
                let focused = match cx.focused_id {
                    Some(f) => f.id == id.id,
                    None => false,
                };
                if focused {
                    let zero = || -> (r: i32)
                        ensures
                            r == 0i32,
                        { 0 };
                    let cell = cx.get_state::<i32, _>(id, &zero);
                    match cell {
                        Some(cell) => {
                            if self.text.is_valid(cx) {
                                let len = self.text.get(cx).unicode_len();
                                if len < usize::MAX {
                                    let stored: i32 = *cx.get(&cell);
                                    let cursor = clamp_cursor(stored, len);
                                    let mut st = TextEditorState {
                                        cursor,
                                        glyph_info: self.glyphs(len, id, cx),
                                    };
                                    st.key(k, &self.text, cx);
                                    let cursor_cell: State<i32> = State::new(id);
                                    if cursor_cell.is_valid(cx) {
                                        let stored2: i32 = if st.cursor > 0x7fffffff {
                                            0x7fffffff
                                        } else {
                                            st.cursor as i32
                                        };
                                        let slot = cx.get_mut(&cell);
                                        *slot = stored2;
                                    }
                                }
                            }
                        },
                        None => {},
                    }
                }
            },
            _ => {},
        }
    }
}

impl<B: Binding<String>> ViewCore for TextEditor<B> {
    open spec fn hits(&self, id: ViewId, pt: LocalPoint, cx: Context, r: Option<ViewId>) -> bool {
        r == if cx.spec_layout_box(id).rect.spec_contains(pt) {
            Some(id)
        } else {
            Option::<ViewId>::None
        }
    }

    fn print(&self, _id: ViewId, _cx: &mut Context, out: &mut String) {
        out.append("TextEditor");
    }

    fn draw(&self, id: ViewId, cx: &mut Context, renderer: &mut Renderer) {
        if !self.text.is_valid(cx) {
            return ;
        }
        let lb = cx.layout_box(id);
        let content: String = {
            let t = self.text.get(cx);
            t.clone()
        };
        renderer.text(content.as_str(), EDITOR_FONT_SIZE, text_color());
        let focused = match cx.focused_id {
            Some(f) => f.id == id.id,
            None => false,
        };
        if focused {
            let zero = || -> (r: i32)
                ensures
                    r == 0i32,
                { 0 };
            match cx.get_state::<i32, _>(id, &zero) {
                Some(cell) => {
                    let len = content.as_str().unicode_len();
                    let stored: i32 = *cx.get(&cell);
                    let cursor = clamp_cursor(stored, len);
                    let info = self.glyphs(len, id, cx);
                    if cursor < info.glyph_rects.len() {
                        let r = info.glyph_rects[cursor];
                        renderer.fill_rect(
                            LocalRect {
                                origin: r.origin,
                                size: LocalSize { width: 2, height: r.size.height },
                            },
                            0,
                            Color { r: 255, g: 0, b: 255, a: 255 },
                        );
                    }
                },
                None => {},
            }
        }
    }

    fn layout(&self, id: ViewId, sz: LocalSize, cx: &mut Context, _renderer: &mut Renderer) -> (
        used: LocalSize)
        ensures
            used == sz,
            final(cx).layout@ == old(cx).layout@.insert(
                id.id,
                LayoutBox {
                    rect: LocalRect { origin: LocalPoint { x: 0, y: 0 }, size: sz },
                    offset: LocalOffset { x: 0, y: 0 },
                },
            ),
            Context::same_but_layout(*old(cx), *final(cx)),
    {
        cx.update_layout(
            id,
            LayoutBox {
                rect: LocalRect { origin: LocalPoint { x: 0, y: 0 }, size: sz },
                offset: LocalOffset { x: 0, y: 0 },
            },
        );
        sz
    }

    fn hittest(&self, id: ViewId, pt: LocalPoint, cx: &mut Context) -> (r: Option<ViewId>)
        ensures
            *final(cx) == *old(cx),
            r == if old(cx).spec_layout_box(id).rect.spec_contains(pt) {
                Some(id)
            } else {
                Option::<ViewId>::None
            },
    {
        let lb = cx.layout_box(id);
        if lb.rect.contains(&pt) {
            Some(id)
        } else {
            None
        }
    }

    fn commands(&self, _id: ViewId, _cx: &mut Context, _cmds: &mut Vec<CommandInfo>) {
    }

    fn gc(&self, id: ViewId, _cx: &mut Context, map: &mut Vec<ViewId>)
        ensures
            final(map)@.len() > old(map)@.len(),
            final(map)@[old(map)@.len() as int] == id,
    {
        map.push(id);
    }

    fn access(&self, id: ViewId, _cx: &mut Context, nodes: &mut Vec<accesskit::Node>) -> (r:
        Option<accesskit::NodeId>)
        ensures
            old(nodes)@.is_prefix_of(final(nodes)@),
            final(nodes)@.len() == old(nodes)@.len() + 1,
            r matches Some(aid) && aid.0 == id.id,
    {
        let aid = id.access_id();
        nodes.push(crate::access::label_node());
        proof {
            assert(old(nodes)@ =~= final(nodes)@.subrange(0, old(nodes)@.len() as int));
        }
        Some(aid)
    }
}

} // verus!
