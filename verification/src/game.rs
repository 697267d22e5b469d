//! The falling-block game: the field, the active piece, and the per-tick
//! advance that composites the piece into the display cache.
//!
//! Field coordinates: `x` runs across the 8 pixel rows of the chips and
//! `y` runs down the chained panels, so the field cell `(x, y)` is the
//! flat buffer index `y * 8 + x`. Each tick writes the composited view —
//! an empty field plus the active piece — into the display cache, then
//! advances gravity; a piece that has fallen past the field is discarded
//! and a fresh random piece spawns at the top.

use vstd::prelude::*;

use crate::display::{Matrix, MatrixBus};
use crate::tetrimino::{is_spawn_shape, Tetrimino};

verus! {

/// The pixel the composited view (empty field plus active piece) holds at
/// flat buffer index `i`: the piece's cell where the piece's bounding box
/// covers the field cell `(i % 8, i / 8)`, and 0 everywhere else.
pub open spec fn composited_pixel(p: Tetrimino, i: int) -> u8 {
    let gy = i / 8;
    let gx = i % 8;
    if p.position.y <= gy < p.position.y + p.height && p.position.x <= gx < p.position.x
        + p.width {
        p.shape@[(gy - p.position.y) * p.width + (gx - p.position.x)]
    } else {
        0u8
    }
}

/// The whole composited view of a buffer of `len` pixels.
pub open spec fn composited_view(p: Tetrimino, len: nat) -> Seq<u8> {
    Seq::new(len, |i: int| composited_pixel(p, i))
}

/// Whether the piece cell that maps to flat index `i` has already been
/// written when the drawing loops are about to visit shape row `r`,
/// column `c` (rows outer, columns inner).
pub open spec fn drawn_up_to(p: Tetrimino, i: int, r: int, c: int) -> bool {
    let gy = i / 8;
    let gx = i % 8;
    &&& p.position.y <= gy < p.position.y + p.height
    &&& p.position.x <= gx < p.position.x + p.width
    &&& (gy - p.position.y < r || (gy - p.position.y == r && gx - p.position.x < c))
}

/// A read-only snapshot of the active piece, for diagnostics.
#[derive(Clone, Copy, Debug, PartialEq, Eq, Structural)]
pub struct PieceView {
    pub width: usize,
    pub height: usize,
    pub x: usize,
    pub y: usize,
}

/// The game state: the field's height in cells and the active piece. The
/// field is always 8 cells wide, one per pixel row of the chips.
pub struct Game {
    field_height: usize,
    piece: Tetrimino,
}

impl Game {
    /// The field height in cells.
    pub closed spec fn field_height(&self) -> int {
        self.field_height as int
    }

    /// The active piece.
    pub closed spec fn piece(&self) -> Tetrimino {
        self.piece
    }

    /// The piece is valid, horizontally inside the field, and not yet
    /// past the respawn threshold; the field is tall enough to play and
    /// small enough that every pixel index fits in a `usize`.
    pub open spec fn wf(&self) -> bool {
        &&& self.piece().wf()
        &&& self.piece().position.x + self.piece().width <= 8
        &&& self.piece().position.y <= self.field_height()
        &&& 1 <= self.field_height()
        &&& 8 * self.field_height() + 64 <= usize::MAX
    }

    /// A game over `panel_count` chained panels — a field of
    /// `8 * panel_count` cells — with a random piece at the top.
    pub fn new(panel_count: usize) -> (g: Game)
        requires
            1 <= panel_count,
            64 * panel_count + 64 <= usize::MAX,
        ensures
            g.wf(),
            g.field_height() == 8 * panel_count,
            is_spawn_shape(g.piece()),
            g.piece().position.y == 0,
            g.piece().position.x + g.piece().width <= 8,
    {
        Game { field_height: panel_count * 8, piece: Tetrimino::new_random(8) }
    }

    /// A game over `panel_count` chained panels starting from a given
    /// piece, for deterministic play.
    pub fn with_piece(panel_count: usize, piece: Tetrimino) -> (g: Game)
        requires
            1 <= panel_count,
            64 * panel_count + 64 <= usize::MAX,
            piece.wf(),
            piece.position.x + piece.width <= 8,
            piece.position.y <= 8 * panel_count,
        ensures
            g.wf(),
            g.field_height() == 8 * panel_count,
            g.piece() == piece,
    {
        Game { field_height: panel_count * 8, piece }
    }

    /// A read-only snapshot of the active piece.
    pub fn current_piece(&self) -> (v: PieceView)
        ensures
            v == (PieceView {
                width: self.piece().width,
                height: self.piece().height,
                x: self.piece().position.x,
                y: self.piece().position.y,
            }),
    {
        PieceView {
            width: self.piece.width,
            height: self.piece.height,
            x: self.piece.position.x,
            y: self.piece.position.y,
        }
    }

    /// One tick: writes the composited view of the current piece into the
    /// display cache (blanking everything else), then advances gravity by
    /// one cell, respawning a fresh random piece once the piece has
    /// fallen past the field. The display is only mutated, never flushed;
    /// flushing stays with the caller.
    pub fn tick<B: MatrixBus>(&mut self, display: &mut Matrix<B>)
        requires
            old(self).wf(),
            old(display).wf(),
        ensures
            final(display).wf(),
            final(display).panels() == old(display).panels(),
            final(display).bus_events() == old(display).bus_events(),
            final(display).pixels() == composited_view(
                old(self).piece(),
                old(display).pixels().len(),
            ),
            final(display).dirty(),
            final(self).wf(),
            final(self).field_height() == old(self).field_height(),
            old(self).piece().position.y + 1 <= old(self).field_height() ==> {
                &&& final(self).piece().shape@ == old(self).piece().shape@
                &&& final(self).piece().width == old(self).piece().width
                &&& final(self).piece().height == old(self).piece().height
                &&& final(self).piece().position.x == old(self).piece().position.x
                &&& final(self).piece().position.y == old(self).piece().position.y + 1
            },
            old(self).piece().position.y + 1 > old(self).field_height() ==> {
                &&& is_spawn_shape(final(self).piece())
                &&& final(self).piece().position.y == 0
                &&& final(self).piece().position.x + final(self).piece().width <= 8
            },
    {
        display.fill(0);
        let ghost p = self.piece;
        let ghost len = display.pixels().len();
        let w = self.piece.width;
        let h = self.piece.height;
        let x = self.piece.position.x;
        let y = self.piece.position.y;
        let mut r: usize = 0;
        while r < h
            invariant
                r <= h,
                self == old(self),
                old(self).wf(),
                p == self.piece,
                w == p.width,
                h == p.height,
                x == p.position.x,
                y == p.position.y,
                x + w <= 8,
                y <= old(self).field_height(),
                8 * old(self).field_height() + 64 <= usize::MAX,
                display.wf(),
                display.panels() == old(display).panels(),
                display.bus_events() == old(display).bus_events(),
                len == display.pixels().len(),
                display.dirty(),
                forall|i: int|
                    0 <= i < len ==> display.pixels()[i] == (if drawn_up_to(p, i, r as int, 0) {
                        composited_pixel(p, i)
                    } else {
                        0u8
                    }),
            decreases h - r,
        {
            let mut c: usize = 0;
            while c < w
                invariant
                    r < h,
                    c <= w,
                    self == old(self),
                    old(self).wf(),
                    p == self.piece,
                    w == p.width,
                    h == p.height,
                    x == p.position.x,
                    y == p.position.y,
                    x + w <= 8,
                    y <= old(self).field_height(),
                    8 * old(self).field_height() + 64 <= usize::MAX,
                    display.wf(),
                    display.panels() == old(display).panels(),
                    display.bus_events() == old(display).bus_events(),
                    len == display.pixels().len(),
                    display.dirty(),
                    forall|i: int|
                        0 <= i < len ==> display.pixels()[i] == (if drawn_up_to(
                            p,
                            i,
                            r as int,
                            c as int,
                        ) {
                            composited_pixel(p, i)
                        } else {
                            0u8
                        }),
                decreases w - c,
            {
                assert(((y + r) as int) * 8 + ((x + c) as int) <= 8 * old(self).field_height()
                    + 63);
                let index: usize = (y + r) * 8 + (x + c);
                let ghost before = display.pixels();
                assert((r as int) * (w as int) + (c as int) <= 16) by (nonlinear_arith)
                    requires
                        0 <= (r as int) < (h as int),
                        0 <= (c as int) < (w as int),
                        (h as int) <= 4,
                        (w as int) <= 4,
                ;
                let cell_index: usize = r * w + c;
                assert(cell_index < p.shape@.len()) by (nonlinear_arith)
                    requires
                        0 <= (r as int) < (h as int),
                        0 <= (c as int) < (w as int),
                        cell_index == (r as int) * (w as int) + (c as int),
                        p.shape@.len() == (w as int) * (h as int),
                ;
                display.set(index, self.piece.shape[cell_index]);
                proof {
                    vstd::arithmetic::div_mod::lemma_fundamental_div_mod_converse(
                        index as int,
                        8,
                        (y + r) as int,
                        (x + c) as int,
                    );
                    assert(composited_pixel(p, index as int) == p.shape@[cell_index as int]);
                    assert forall|i: int| 0 <= i < len implies display.pixels()[i] == (
                        if drawn_up_to(p, i, r as int, c as int + 1) {
                            composited_pixel(p, i)
                        } else {
                            0u8
                        }) by {
                        vstd::arithmetic::div_mod::lemma_fundamental_div_mod(i, 8);
                        vstd::arithmetic::div_mod::lemma_mod_pos_bound(i, 8);
                        if i == index {
                            assert(drawn_up_to(p, i, r as int, c as int + 1));
                        } else {
                            assert(drawn_up_to(p, i, r as int, c as int + 1) == drawn_up_to(
                                p,
                                i,
                                r as int,
                                c as int,
                            ));
                            assert(display.pixels()[i] == before[i]);
                        }
                    }
                }
                c = c + 1;
            }
            proof {
                assert forall|i: int| 0 <= i < len implies (drawn_up_to(p, i, r as int + 1, 0)
                    == drawn_up_to(p, i, r as int, w as int)) by {
                    vstd::arithmetic::div_mod::lemma_fundamental_div_mod(i, 8);
                    vstd::arithmetic::div_mod::lemma_mod_pos_bound(i, 8);
                }
            }
            r = r + 1;
        }
        proof {
            assert(display.pixels() =~= composited_view(p, len));
        }
        self.piece.position.y = y + 1;
        if self.piece.position.y > self.field_height {
            self.piece = Tetrimino::new_random(8);
        }
    }
}

} // verus!
