//! A single-cell destructible obstacle. A brick is static until its
//! first contact with the ball destroys it; from then on it is
//! permanently inert: it reports no collision and is skipped by drawing.

use super::{rect_overlap, Collidable, ObjectCoordinates, Vector};
use vstd::prelude::*;

verus! {

#[derive(Clone, Copy, Debug, PartialEq, Eq, Structural)]
pub struct Brick {
    pub xpos: u16,
    pub ypos: u16,
    pub destroyed: bool,
}

impl Brick {
    pub fn new(x: u16, y: u16) -> (r: Brick)
        ensures
            r == (Brick { xpos: x, ypos: y, destroyed: false }),
    {
        Brick { xpos: x, ypos: y, destroyed: false }
    }

    /// First contact destroys the brick, permanently; a destroyed brick
    /// is left untouched, whatever overlaps its former cell.
    pub fn handle_collision(&mut self, other: &ObjectCoordinates)
        ensures
            *final(self) == if old(self).spec_collides(*other) {
                Brick { destroyed: true, ..*old(self) }
            } else {
                *old(self)
            },
    {
        if self.has_collision(other) {
            self.destroyed = true;
        }
    }
}

impl Collidable for Brick {
    open spec fn wf(&self) -> bool {
        true
    }

    /// The single cell the brick occupies, as a degenerate rectangle.
    open spec fn spec_coordinates(&self) -> ObjectCoordinates {
        ObjectCoordinates(self.xpos, self.ypos, self.xpos, self.ypos)
    }

    open spec fn spec_velocity(&self) -> Vector {
        Vector(0, 0)
    }

    /// A brick has one surface: the upward normal, whatever the partner.
    open spec fn spec_normal(&self, other: ObjectCoordinates) -> Option<Vector> {
        Some(Vector(0, 1))
    }

    /// The clipped overlap test, gated on the brick still standing: a
    /// destroyed brick never reports a collision again.
    open spec fn spec_collides(&self, other: ObjectCoordinates) -> bool {
        !self.destroyed && rect_overlap(self.spec_coordinates(), other)
    }

    fn get_coordinates(&self) -> (r: ObjectCoordinates) {
        ObjectCoordinates(self.xpos, self.ypos, self.xpos, self.ypos)
    }

    fn has_collision(&self, other: &ObjectCoordinates) -> (r: bool) {
        if self.destroyed {
            return false;
        }
        let ObjectCoordinates(ax1, ay1, ax2, ay2) = self.get_coordinates();
        let ObjectCoordinates(bx1, by1, bx2, by2) = *other;

        let x1 = if ax1 > bx1 { ax1 } else { bx1 };
        let x2 = if ax2 < bx2 { ax2 } else { bx2 };
        let y1 = if ay1 > by1 { ay1 } else { by1 };
        let y2 = if ay2 < by2 { ay2 } else { by2 };

        x1 <= x2 && y1 <= y2
    }

    fn get_normal(&self, other: &ObjectCoordinates) -> (r: Option<Vector>) {
        Some(Vector(0, 1))
    }

    fn get_velocity(&self) -> (r: Vector) {
        Vector(0, 0)
    }
}

} // verus!
