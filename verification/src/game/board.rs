//! The player paddle: a one-row bar near the bottom edge, driven only by
//! input. Left/right events set a fixed velocity and move it at once,
//! clamped to `[0, columns - width]`; it never reacts to the ball.

use super::{
    clamped, loose_overlap, Collidable, GameDimension, MoveCommand,
    ObjectCoordinates, Vector,
};
use vstd::math::min;
use vstd::prelude::*;

verus! {

/// The paddle's fixed width in cells.
pub const BOARD_WIDTH: u16 = 10;

/// The velocity magnitude one left/right key event applies.
pub const MOVE_SPEED: i32 = 4;

#[derive(Clone, Copy, Debug, PartialEq, Eq, Structural)]
pub struct Board {
    pub pos: u16,
    pub width: u16,
    pub velocity: i32,
    pub dim: GameDimension,
}

impl Board {
    /// The well-formedness every paddle method relies on: the bar fits
    /// the coordinate space and is no wider than the playfield.
    pub open spec fn board_wf(&self) -> bool {
        &&& self.pos + self.width <= u16::MAX
        &&& self.width <= self.dim.1
    }

    /// The clamping invariant: the paddle lies within
    /// `[0, columns - width]`.
    pub open spec fn in_bounds(&self) -> bool {
        self.pos + self.width <= self.dim.1
    }

    /// The paddle after one integration step: `position + velocity`,
    /// clamped to `[0, columns - width]` on its single axis.
    pub open spec fn moved_object(&self) -> Board {
        Board { pos: clamped(self.pos + self.velocity, self.dim.1 - self.width) as u16, ..*self }
    }

    pub fn new(dim: GameDimension) -> (r: Board)
        requires
            dim.1 >= 50,
        ensures
            r.pos == dim.1 / 2 - 5 + 20,
            r.width == 10,
            r.velocity == 0,
            r.dim == dim,
            r.board_wf(),
            r.in_bounds(),
    {
        let pos = dim.1 / 2 - BOARD_WIDTH / 2 + 20;

        Board { pos, width: BOARD_WIDTH, velocity: 0, dim }
    }

    /// One integration step on the paddle's single axis: clear of any
    /// input, the position moves by the stored velocity and clamps to
    /// `[0, columns - width]`.
    pub fn move_object(&mut self)
        requires
            old(self).board_wf(),
        ensures
            *final(self) == old(self).moved_object(),
            final(self).board_wf(),
            final(self).in_bounds(),
    {
        let hi: i64 = self.dim.1 as i64 - self.width as i64;
        let np: i64 = self.pos as i64 + self.velocity as i64;
        let cp: i64 = if np < 0 {
            0
        } else if np > hi {
            hi
        } else {
            np
        };
        self.pos = cp as u16;
    }

    /// The inclusive span of columns the paddle's glyphs occupy when
    /// drawn: from its position to its right end, clipped to the
    /// playfield's right edge.
    pub fn draw_span(&self) -> (r: (u16, u16))
        requires
            self.board_wf(),
        ensures
            r.0 == self.pos,
            r.1 == min(self.dim.1 as int, self.pos + self.width),
    {
        let right = if self.pos + self.width < self.dim.1 {
            self.pos + self.width
        } else {
            self.dim.1
        };
        (self.pos, right)
    }
}

impl MoveCommand for Board {
    open spec fn move_ready(&self) -> bool {
        self.board_wf()
    }

    /// A right event: velocity becomes `+4`, then one integration step.
    open spec fn moved_right(&self) -> Board {
        (Board { velocity: MOVE_SPEED as i32, ..*self }).moved_object()
    }

    /// A left event: velocity becomes `-4`, then one integration step.
    open spec fn moved_left(&self) -> Board {
        (Board { velocity: (-MOVE_SPEED) as i32, ..*self }).moved_object()
    }

    /// The paddle does not respond to vertical input.
    open spec fn moved_up(&self) -> Board {
        *self
    }

    open spec fn moved_down(&self) -> Board {
        *self
    }

    fn move_right(&mut self) {
        self.velocity = MOVE_SPEED;
        self.move_object();
    }

    fn move_left(&mut self) {
        self.velocity = -MOVE_SPEED;
        self.move_object();
    }

    fn move_up(&mut self) {
    }

    fn move_down(&mut self) {
    }
}

impl Collidable for Board {
    open spec fn wf(&self) -> bool {
        self.board_wf()
    }

    /// The bar's row of cells, at the row given by the playfield's row
    /// count.
    open spec fn spec_coordinates(&self) -> ObjectCoordinates {
        ObjectCoordinates(self.pos, self.dim.0, (self.pos + self.width) as u16, self.dim.0)
    }

    open spec fn spec_velocity(&self) -> Vector {
        Vector(self.velocity, 0)
    }

    /// The paddle handles contact from above only: where the partner's
    /// top edge is at or above the paddle's own it offers the upward
    /// normal; any other contact geometry is unsupported.
    open spec fn spec_normal(&self, other: ObjectCoordinates) -> Option<Vector> {
        if other.1 <= self.spec_coordinates().1 {
            Some(Vector(0, -1i32))
        } else {
            None
        }
    }

    /// The asymmetric paddle policy: `max` for both x corners, `min` for
    /// both y corners.
    open spec fn spec_collides(&self, other: ObjectCoordinates) -> bool {
        loose_overlap(self.spec_coordinates(), other)
    }

    fn get_coordinates(&self) -> (r: ObjectCoordinates) {
        ObjectCoordinates(self.pos, self.dim.0, self.pos + self.width, self.dim.0)
    }

    fn has_collision(&self, other: &ObjectCoordinates) -> (r: bool) {
        let ObjectCoordinates(ax1, ay1, ax2, ay2) = self.get_coordinates();
        let ObjectCoordinates(bx1, by1, bx2, by2) = *other;

        let x1 = if ax1 > bx1 { ax1 } else { bx1 };
        let x2 = if ax2 > bx2 { ax2 } else { bx2 };
        let y1 = if ay1 < by1 { ay1 } else { by1 };
        let y2 = if ay2 < by2 { ay2 } else { by2 };

        x1 <= x2 && y1 <= y2
    }

    fn get_normal(&self, other: &ObjectCoordinates) -> (r: Option<Vector>) {
        if other.1 <= self.dim.0 {
            Some(Vector(0, -1))
        } else {
            None
        }
    }

    fn get_velocity(&self) -> (r: Vector) {
        Vector(self.velocity, 0)
    }
}

} // verus!
