//! The falling pieces: the seven canonical shapes, clockwise rotation, and
//! bounded-random spawning.
//!
//! A shape is a row-major bit buffer of `width * height` cells holding only
//! 0 or 1. Rotation is a pure transform into a fresh buffer with the
//! dimensions swapped; it is never an in-place reinterpretation, since
//! rotating a non-square shape changes its bounding box.

use vstd::prelude::*;

use crate::rng;

verus! {

/// A position in field coordinates: `x` across the width, `y` downward.
#[derive(Clone, Copy, Debug, PartialEq, Eq, Structural)]
pub struct Position {
    pub x: usize,
    pub y: usize,
}

/// A falling piece: its bounding box, its row-major bit shape buffer, and
/// its top-left anchor in field coordinates.
#[derive(Clone, Debug, PartialEq)]
pub struct Tetrimino {
    pub width: usize,
    pub height: usize,
    pub shape: Vec<u8>,
    pub position: Position,
}

/// The cells of a shape of width `w` and height `h` rotated 90 degrees
/// clockwise. The rotated shape has width `h` and height `w`, and its cell
/// `(nr, nc)` — at flat index `nr * h + nc` — is the source cell
/// `(h - 1 - nc, nr)`.
pub open spec fn rotated_cells(w: int, h: int, cells: Seq<u8>) -> Seq<u8> {
    Seq::new((w * h) as nat, |k: int| cells[(h - 1 - (k % h)) * w + (k / h)])
}

/// The seven canonical shapes as `(width, height, cells)`, in the order
/// the generator draws them: L, J, T, O, S, Z, I.
pub open spec fn canonical_shape(kind: int) -> (int, int, Seq<u8>) {
    if kind == 0 {
        (2int, 3int, seq![1u8, 0u8, 1u8, 0u8, 1u8, 1u8])
    } else if kind == 1 {
        (2int, 3int, seq![0u8, 1u8, 0u8, 1u8, 1u8, 1u8])
    } else if kind == 2 {
        (3int, 2int, seq![0u8, 1u8, 0u8, 1u8, 1u8, 1u8])
    } else if kind == 3 {
        (2int, 2int, seq![1u8, 1u8, 1u8, 1u8])
    } else if kind == 4 {
        (3int, 2int, seq![0u8, 1u8, 1u8, 1u8, 1u8, 0u8])
    } else if kind == 5 {
        (3int, 2int, seq![1u8, 1u8, 0u8, 0u8, 1u8, 1u8])
    } else {
        (1int, 4int, seq![1u8, 1u8, 1u8, 1u8])
    }
}

/// A `(width, height, cells)` shape after `n` clockwise rotations.
pub open spec fn rotated_n(shape: (int, int, Seq<u8>), n: nat) -> (int, int, Seq<u8>)
    decreases n,
{
    if n == 0 {
        shape
    } else {
        let prev = rotated_n(shape, (n - 1) as nat);
        (prev.1, prev.0, rotated_cells(prev.0, prev.1, prev.2))
    }
}

/// Whether `t`'s bounding box and cells are canonical shape `kind`
/// rotated `turns` times clockwise.
pub open spec fn spawn_matches(t: Tetrimino, kind: int, turns: int) -> bool {
    let shape = rotated_n(canonical_shape(kind), turns as nat);
    &&& t.width as int == shape.0
    &&& t.height as int == shape.1
    &&& t.shape@ == shape.2
}

/// Whether `t` is one of the seven canonical shapes under at most three
/// clockwise rotations: the only shapes that ever spawn.
pub open spec fn is_spawn_shape(t: Tetrimino) -> bool {
    exists|kind: int, turns: int|
        0 <= kind < 7 && 0 <= turns < 4 && #[trigger] spawn_matches(t, kind, turns)
}

impl Tetrimino {
    /// A piece always has a bounding box between 1x1 and 4x4, a shape
    /// buffer of exactly `width * height` cells, and only 0/1 cells.
    pub open spec fn wf(&self) -> bool {
        &&& 1 <= self.width <= 4
        &&& 1 <= self.height <= 4
        &&& self.shape@.len() == self.width * self.height
        &&& forall|i: int| 0 <= i < self.shape@.len() ==> self.shape@[i] == 0 || self.shape@[i] == 1
    }

    /// The L piece.
    pub fn new_l() -> (t: Tetrimino)
        ensures
            t.wf(),
            t.width == 2,
            t.height == 3,
            t.position == (Position { x: 0, y: 0 }),
            t.shape@ == seq![1u8, 0u8, 1u8, 0u8, 1u8, 1u8],
    {
        let t = Tetrimino {
            width: 2,
            height: 3,
            position: Position { x: 0, y: 0 },
            shape: vec![1, 0, 1, 0, 1, 1],
        };
        assert(t.shape@ =~= seq![1u8, 0u8, 1u8, 0u8, 1u8, 1u8]);
        t
    }

    /// The J piece.
    pub fn new_j() -> (t: Tetrimino)
        ensures
            t.wf(),
            t.width == 2,
            t.height == 3,
            t.position == (Position { x: 0, y: 0 }),
            t.shape@ == seq![0u8, 1u8, 0u8, 1u8, 1u8, 1u8],
    {
        let t = Tetrimino {
            width: 2,
            height: 3,
            position: Position { x: 0, y: 0 },
            shape: vec![0, 1, 0, 1, 1, 1],
        };
        assert(t.shape@ =~= seq![0u8, 1u8, 0u8, 1u8, 1u8, 1u8]);
        t
    }

    /// The T piece.
    pub fn new_t() -> (t: Tetrimino)
        ensures
            t.wf(),
            t.width == 3,
            t.height == 2,
            t.position == (Position { x: 0, y: 0 }),
            t.shape@ == seq![0u8, 1u8, 0u8, 1u8, 1u8, 1u8],
    {
        let t = Tetrimino {
            width: 3,
            height: 2,
            position: Position { x: 0, y: 0 },
            shape: vec![0, 1, 0, 1, 1, 1],
        };
        assert(t.shape@ =~= seq![0u8, 1u8, 0u8, 1u8, 1u8, 1u8]);
        t
    }

    /// The O piece.
    pub fn new_o() -> (t: Tetrimino)
        ensures
            t.wf(),
            t.width == 2,
            t.height == 2,
            t.position == (Position { x: 0, y: 0 }),
            t.shape@ == seq![1u8, 1u8, 1u8, 1u8],
    {
        let t = Tetrimino {
            width: 2,
            height: 2,
            position: Position { x: 0, y: 0 },
            shape: vec![1, 1, 1, 1],
        };
        assert(t.shape@ =~= seq![1u8, 1u8, 1u8, 1u8]);
        t
    }

    /// The S piece.
    pub fn new_s() -> (t: Tetrimino)
        ensures
            t.wf(),
            t.width == 3,
            t.height == 2,
            t.position == (Position { x: 0, y: 0 }),
            t.shape@ == seq![0u8, 1u8, 1u8, 1u8, 1u8, 0u8],
    {
        let t = Tetrimino {
            width: 3,
            height: 2,
            position: Position { x: 0, y: 0 },
            shape: vec![0, 1, 1, 1, 1, 0],
        };
        assert(t.shape@ =~= seq![0u8, 1u8, 1u8, 1u8, 1u8, 0u8]);
        t
    }

    /// The Z piece.
    pub fn new_z() -> (t: Tetrimino)
        ensures
            t.wf(),
            t.width == 3,
            t.height == 2,
            t.position == (Position { x: 0, y: 0 }),
            t.shape@ == seq![1u8, 1u8, 0u8, 0u8, 1u8, 1u8],
    {
        let t = Tetrimino {
            width: 3,
            height: 2,
            position: Position { x: 0, y: 0 },
            shape: vec![1, 1, 0, 0, 1, 1],
        };
        assert(t.shape@ =~= seq![1u8, 1u8, 0u8, 0u8, 1u8, 1u8]);
        t
    }

    /// The I piece.
    pub fn new_i() -> (t: Tetrimino)
        ensures
            t.wf(),
            t.width == 1,
            t.height == 4,
            t.position == (Position { x: 0, y: 0 }),
            t.shape@ == seq![1u8, 1u8, 1u8, 1u8],
    {
        let t = Tetrimino {
            width: 1,
            height: 4,
            position: Position { x: 0, y: 0 },
            shape: vec![1, 1, 1, 1],
        };
        assert(t.shape@ =~= seq![1u8, 1u8, 1u8, 1u8]);
        t
    }

    /// Rotates the piece 90 degrees clockwise: a fresh buffer with the
    /// dimensions swapped, cell for cell as [`rotated_cells`] states. The
    /// position is untouched.
    pub fn rotate(&mut self)
        requires
            old(self).wf(),
        ensures
            final(self).wf(),
            final(self).width == old(self).height,
            final(self).height == old(self).width,
            final(self).position == old(self).position,
            final(self).shape@ == rotated_cells(
                old(self).width as int,
                old(self).height as int,
                old(self).shape@,
            ),
    {
        let w = self.width;
        let h = self.height;
        let ghost target = rotated_cells(w as int, h as int, self.shape@);
        let mut cells: Vec<u8> = Vec::new();
        let mut nr: usize = 0;
        while nr < w
            invariant
                nr <= w,
                self == old(self),
                w == self.width,
                h == self.height,
                self.wf(),
                target == rotated_cells(w as int, h as int, self.shape@),
                cells@.len() == nr * h,
                forall|k: int| 0 <= k < cells@.len() ==> cells@[k] == target[k],
                forall|k: int| 0 <= k < cells@.len() ==> cells@[k] == 0 || cells@[k] == 1,
            decreases w - nr,
        {
            let mut nc: usize = 0;
            while nc < h
                invariant
                    nr < w,
                    nc <= h,
                    self == old(self),
                    w == self.width,
                    h == self.height,
                    self.wf(),
                    target == rotated_cells(w as int, h as int, self.shape@),
                    cells@.len() == nr * h + nc,
                    forall|k: int| 0 <= k < cells@.len() ==> cells@[k] == target[k],
                    forall|k: int| 0 <= k < cells@.len() ==> cells@[k] == 0 || cells@[k] == 1,
                decreases h - nc,
            {
                let ghost k0 = nr as int * h as int + nc as int;
                assert(0 <= k0 < w as int * h as int) by (nonlinear_arith)
                    requires
                        0 <= (nr as int) < (w as int),
                        0 <= (nc as int) < (h as int),
                        k0 == nr as int * h as int + nc as int,
                ;
                assert(((h - 1 - nc) as int) * (w as int) + (nr as int) < (w as int) * (h as int))
                    by (nonlinear_arith)
                    requires
                        0 <= (nr as int) < (w as int),
                        0 <= (nc as int) < (h as int),
                        1 <= (h as int),
                ;
                assert(((h - 1 - nc) as int) * (w as int) + (nr as int) <= 16) by (nonlinear_arith)
                    requires
                        1 <= (h as int) <= 4,
                        1 <= (w as int) <= 4,
                        0 <= (nc as int) < (h as int),
                        0 <= (nr as int) < (w as int),
                ;
                let source_index: usize = (h - 1 - nc) * w + nr;
                proof {
                    vstd::arithmetic::div_mod::lemma_fundamental_div_mod_converse(
                        k0,
                        h as int,
                        nr as int,
                        nc as int,
                    );
                }
                assert(target[k0] == self.shape@[source_index as int]);
                cells.push(self.shape[source_index]);
                nc = nc + 1;
            }
            assert(nr as int * h as int + h as int == (nr + 1) as int * h as int)
                by (nonlinear_arith);
            nr = nr + 1;
        }
        assert(cells@ =~= target);
        self.shape = cells;
        self.width = h;
        self.height = w;
        assert(final(self).shape@.len() == h * w) by (nonlinear_arith)
            requires
                final(self).shape@.len() == w * h,
        ;
    }

    /// Spawns a random piece: one of the seven canonical shapes, rotated a
    /// random number of times in `[0, 4)`, anchored at the top of the
    /// field at a random column that keeps its full rotated width inside a
    /// field `field_width` columns wide.
    pub fn new_random(field_width: usize) -> (t: Tetrimino)
        requires
            4 <= field_width,
        ensures
            t.wf(),
            is_spawn_shape(t),
            t.position.y == 0,
            t.position.x + t.width <= field_width,
    {
        let kind = rng::random_u8_below(7);
        let mut block = if kind == 0 {
            Self::new_l()
        } else if kind == 1 {
            Self::new_j()
        } else if kind == 2 {
            Self::new_t()
        } else if kind == 3 {
            Self::new_o()
        } else if kind == 4 {
            Self::new_s()
        } else if kind == 5 {
            Self::new_z()
        } else {
            Self::new_i()
        };
        assert(spawn_matches(block, kind as int, 0));
        let rotations = rng::random_u8_below(4);
        let mut done: u8 = 0;
        while done < rotations
            invariant
                done <= rotations < 4,
                kind < 7,
                block.wf(),
                block.position == (Position { x: 0, y: 0 }),
                spawn_matches(block, kind as int, done as int),
            decreases rotations - done,
        {
            block.rotate();
            done = done + 1;
        }
        let anchor_bound: usize = field_width - block.width + 1;
        block.position.x = rng::random_usize_below(anchor_bound);
        assert(spawn_matches(block, kind as int, rotations as int));
        block
    }
}

/// Law: rotating twice reverses the flat cell buffer — the cell at flat
/// index `k` moves to index `w * h - 1 - k` — while restoring the original
/// dimensions.
pub proof fn lemma_rotate_twice(w: int, h: int, cells: Seq<u8>)
    requires
        1 <= w,
        1 <= h,
        cells.len() == w * h,
    ensures
        rotated_cells(h, w, rotated_cells(w, h, cells)) == Seq::new(
            (w * h) as nat,
            |k: int| cells[w * h - 1 - k],
        ),
{
    let r1 = rotated_cells(w, h, cells);
    let r2 = rotated_cells(h, w, r1);
    let rev = Seq::new((w * h) as nat, |k: int| cells[w * h - 1 - k]);
    assert(w * h == h * w) by (nonlinear_arith);
    assert forall|k: int| 0 <= k < w * h implies r2[k] == rev[k] by {
        let q = k / w;
        let r = k % w;
        vstd::arithmetic::div_mod::lemma_fundamental_div_mod(k, w);
        vstd::arithmetic::div_mod::lemma_mod_pos_bound(k, w);
        assert(0 <= q < h) by (nonlinear_arith)
            requires
                1 <= w,
                1 <= h,
                0 <= k < w * h,
                k == w * q + r,
                0 <= r < w,
        ;
        let j = (w - 1 - r) * h + q;
        assert(0 <= j < w * h) by (nonlinear_arith)
            requires
                0 <= r < w,
                0 <= q < h,
                j == (w - 1 - r) * h + q,
        ;
        vstd::arithmetic::div_mod::lemma_fundamental_div_mod_converse(j, h, w - 1 - r, q);
        assert(r2[k] == r1[j]);
        let s = (h - 1 - q) * w + (w - 1 - r);
        assert(0 <= s < w * h) by (nonlinear_arith)
            requires
                0 <= r < w,
                0 <= q < h,
                s == (h - 1 - q) * w + (w - 1 - r),
        ;
        assert(r1[j] == cells[s]);
        assert(s == w * h - 1 - k) by (nonlinear_arith)
            requires
                k == w * q + r,
                s == (h - 1 - q) * w + (w - 1 - r),
        ;
        assert(rev[k] == cells[w * h - 1 - k]);
    }
    assert(r2 =~= rev);
}

/// Law: rotating any shape four times returns a shape with the original
/// width, height, and cell values. The dimensions swap on each rotation,
/// so after four they are back; this lemma adds that the cells are too.
pub proof fn lemma_rotation_round_trip(w: int, h: int, cells: Seq<u8>)
    requires
        1 <= w,
        1 <= h,
        cells.len() == w * h,
    ensures
        rotated_cells(
            h,
            w,
            rotated_cells(w, h, rotated_cells(h, w, rotated_cells(w, h, cells))),
        ) == cells,
{
    let c2 = rotated_cells(h, w, rotated_cells(w, h, cells));
    let rev = Seq::new((w * h) as nat, |k: int| cells[w * h - 1 - k]);
    lemma_rotate_twice(w, h, cells);
    assert(c2 == rev);
    assert(c2.len() == w * h);
    lemma_rotate_twice(w, h, c2);
    let c4 = rotated_cells(h, w, rotated_cells(w, h, c2));
    assert(c4 == Seq::new((w * h) as nat, |k: int| c2[w * h - 1 - k]));
    assert forall|k: int| 0 <= k < w * h implies c4[k] == cells[k] by {
        assert(c4[k] == c2[w * h - 1 - k]);
        assert(c2[w * h - 1 - k] == cells[k]);
    }
    assert(c4 =~= cells);
}

} // verus!
