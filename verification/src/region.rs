//! Region selector: an interactive state machine that turns a pointer-drag
//! gesture into a rectangle.
//!
//! The selector is `Idle` until the first pointer-down anchors it. While
//! anchored, each pointer-move expands the far corner monotonically: the far
//! corner is the component-wise running maximum of the anchor and every
//! observed pointer position, so dragging back toward the anchor never
//! shrinks the rectangle. Pointer-up closes the selection. If pointer-up
//! arrives with no prior pointer-down, the selector yields a degenerate
//! zero-area region instead of blocking; callers treat that as "nothing
//! selected" and may fall back to the full capture.
use vstd::prelude::*;

verus! {

/// A pointer position in pixel coordinates.
#[derive(Clone, Copy, PartialEq, Eq, Structural, Debug)]
pub struct Point {
    pub x: u32,
    pub y: u32,
}

/// A selected rectangle. A zero-area region is a valid terminal state
/// meaning "selection aborted/trivial", not an error.
#[derive(Clone, Copy, PartialEq, Eq, Structural, Debug)]
pub struct Region {
    pub x: u32,
    pub y: u32,
    pub width: u32,
    pub height: u32,
}

impl Region {
    /// True when the region has zero area: nothing was selected.
    pub open spec fn is_degenerate_spec(&self) -> bool {
        self.width == 0 || self.height == 0
    }

    /// Executable test for a zero-area region.
    pub fn is_degenerate(&self) -> (r: bool)
        ensures
            r == self.is_degenerate_spec(),
    {
        self.width == 0 || self.height == 0
    }
}

/// The component-wise maximum of two points.
pub open spec fn cmax(a: Point, b: Point) -> Point {
    Point {
        x: if a.x >= b.x {
            a.x
        } else {
            b.x
        },
        y: if a.y >= b.y {
            a.y
        } else {
            b.y
        },
    }
}

/// The far corner after a sequence of observed pointer positions: the
/// component-wise running maximum of the anchor and every observed point.
pub open spec fn far_corner(anchor: Point, moves: Seq<Point>) -> Point
    decreases moves.len(),
{
    if moves.len() == 0 {
        anchor
    } else {
        cmax(far_corner(anchor, moves.drop_last()), moves.last())
    }
}

/// The drag-gesture state machine. `anchored` is false in the `Idle` state;
/// the first pointer-down records the anchor and every later pointer-move
/// updates the far corner. `moves` is the ghost history of the pointer
/// positions observed while anchored.
pub struct Selector {
    pub anchored: bool,
    pub anchor: Point,
    pub far: Point,
    pub moves: Ghost<Seq<Point>>,
}

impl Selector {
    /// The selector's invariant: while anchored, the far corner is exactly
    /// the running maximum of the anchor and the observed positions.
    pub open spec fn wf(&self) -> bool {
        self.anchored ==> self.far == far_corner(self.anchor, self.moves@)
    }

    /// A fresh selector in the `Idle` state.
    pub fn new() -> (r: Selector)
        ensures
            r.wf(),
            !r.anchored,
    {
        Selector {
            anchored: false,
            anchor: Point { x: 0, y: 0 },
            far: Point { x: 0, y: 0 },
            moves: Ghost(Seq::empty()),
        }
    }

    /// First pointer-down anchors the selection at `p`; a pointer-down while
    /// already anchored changes nothing.
    pub fn pointer_down(&mut self, p: Point)
        requires
            old(self).wf(),
        ensures
            final(self).wf(),
            old(self).anchored ==> *final(self) == *old(self),
            !old(self).anchored ==> *final(self) == (Selector {
                anchored: true,
                anchor: p,
                far: p,
                moves: Ghost(Seq::<Point>::empty()),
            }),
    {
        if !self.anchored {
            self.anchored = true;
            self.anchor = p;
            self.far = p;
            self.moves = Ghost(Seq::empty());
        }
    }

    /// While anchored, a pointer-move expands the far corner to the
    /// component-wise maximum of the old far corner and `p`; in the idle
    /// state pointer-moves are ignored.
    pub fn pointer_move(&mut self, p: Point)
        requires
            old(self).wf(),
        ensures
            final(self).wf(),
            !old(self).anchored ==> *final(self) == *old(self),
            old(self).anchored ==> final(self).anchored && final(self).anchor == old(self).anchor
                && final(self).moves@ == old(self).moves@.push(p) && final(self).far == cmax(
                old(self).far,
                p,
            ),
    {
        if self.anchored {
            if p.x > self.far.x {
                self.far.x = p.x;
            }
            if p.y > self.far.y {
                self.far.y = p.y;
            }
            proof {
                self.moves@ = self.moves@.push(p);
                assert(self.moves@.drop_last() =~= old(self).moves@);
            }
        }
    }

    /// Pointer-up closes the selection. Anchored, it emits the rectangle
    /// from the anchor to the far corner; idle, it emits the degenerate
    /// zero-area region rather than blocking.
    pub fn pointer_up(self) -> (r: Region)
        requires
            self.wf(),
        ensures
            self.anchored ==> r == (Region {
                x: self.anchor.x,
                y: self.anchor.y,
                width: (self.far.x - self.anchor.x) as u32,
                height: (self.far.y - self.anchor.y) as u32,
            }),
            !self.anchored ==> r == (Region { x: 0, y: 0, width: 0, height: 0 }),
            self.anchored ==> r.x == self.anchor.x && r.y == self.anchor.y,
    {
        if self.anchored {
            proof {
                lemma_far_corner_running_max(self.anchor, self.moves@);
            }
            Region {
                x: self.anchor.x,
                y: self.anchor.y,
                width: self.far.x - self.anchor.x,
                height: self.far.y - self.anchor.y,
            }
        } else {
            Region { x: 0, y: 0, width: 0, height: 0 }
        }
    }
}

/// Law (monotonic expansion): the far corner is the component-wise running
/// maximum of the anchor and all observed pointer positions. It never lies
/// below the anchor, dominates every observed position, and each of its
/// coordinates was actually observed (or is the anchor's own coordinate):
/// the rectangle only ever grows to the lower-right of the anchor.
pub proof fn lemma_far_corner_running_max(anchor: Point, moves: Seq<Point>)
    ensures
        far_corner(anchor, moves).x >= anchor.x,
        far_corner(anchor, moves).y >= anchor.y,
        forall|i: int|
            0 <= i < moves.len() ==> far_corner(anchor, moves).x >= #[trigger] moves[i].x
                && far_corner(anchor, moves).y >= moves[i].y,
        far_corner(anchor, moves).x == anchor.x || exists|i: int|
            0 <= i < moves.len() && far_corner(anchor, moves).x == #[trigger] moves[i].x,
        far_corner(anchor, moves).y == anchor.y || exists|i: int|
            0 <= i < moves.len() && far_corner(anchor, moves).y == #[trigger] moves[i].y,
    decreases moves.len(),
{
    if moves.len() > 0 {
        lemma_far_corner_running_max(anchor, moves.drop_last());
        assert(forall|i: int|
            0 <= i < moves.len() - 1 ==> moves.drop_last()[i] == #[trigger] moves[i]);
        assert(moves.last() == moves[moves.len() - 1]);
    }
}

} // verus!
