//! A static boundary wall: one full edge of the playfield, tagged with
//! its direction, serving only as a rectangle and normal source for the
//! ball's collision tests.

use super::{loose_overlap, Collidable, GameDimension, ObjectCoordinates, Vector};
use vstd::prelude::*;

verus! {

/// The playfield edge a wall occupies.
#[derive(Clone, Copy, Debug, PartialEq, Eq, Structural)]
pub enum Direction {
    Left,
    Right,
    Top,
    Bottom,
}

/// A wall never moves and never mutates after construction.
#[derive(Clone, Copy, Debug, PartialEq, Eq, Structural)]
pub struct Wall {
    pub dir: Direction,
    pub dim: GameDimension,
}

impl Wall {
    /// The outward-pointing unit normal of the edge: into the playfield.
    pub open spec fn spec_normal_vector(&self) -> Vector {
        match self.dir {
            Direction::Left => Vector(1, 0),
            Direction::Right => Vector(-1i32, 0),
            Direction::Top => Vector(0, -1i32),
            Direction::Bottom => Vector(0, 1),
        }
    }

    pub fn new(dim: GameDimension, dir: Direction) -> (r: Wall)
        ensures
            r == (Wall { dir, dim }),
    {
        Wall { dir, dim }
    }
}

impl Collidable for Wall {
    open spec fn wf(&self) -> bool {
        true
    }

    /// A degenerate rectangle spanning the wall's whole edge.
    open spec fn spec_coordinates(&self) -> ObjectCoordinates {
        match self.dir {
            Direction::Left => ObjectCoordinates(0, 0, 0, self.dim.0),
            Direction::Right => ObjectCoordinates(self.dim.1, 0, self.dim.1, self.dim.0),
            Direction::Top => ObjectCoordinates(0, 0, self.dim.1, 0),
            Direction::Bottom => ObjectCoordinates(0, self.dim.0, self.dim.1, self.dim.0),
        }
    }

    open spec fn spec_velocity(&self) -> Vector {
        Vector(0, 0)
    }

    /// A wall has a single surface: the same normal whatever the partner.
    open spec fn spec_normal(&self, other: ObjectCoordinates) -> Option<Vector> {
        Some(self.spec_normal_vector())
    }

    /// The asymmetric wall policy: `max` for both x corners, `min` for
    /// both y corners.
    open spec fn spec_collides(&self, other: ObjectCoordinates) -> bool {
        loose_overlap(self.spec_coordinates(), other)
    }

    fn get_coordinates(&self) -> (r: ObjectCoordinates) {
        match self.dir {
            Direction::Left => ObjectCoordinates(0, 0, 0, self.dim.0),
            Direction::Right => ObjectCoordinates(self.dim.1, 0, self.dim.1, self.dim.0),
            Direction::Top => ObjectCoordinates(0, 0, self.dim.1, 0),
            Direction::Bottom => ObjectCoordinates(0, self.dim.0, self.dim.1, self.dim.0),
        }
    }

    fn has_collision(&self, other: &ObjectCoordinates) -> (r: bool) {
        let ObjectCoordinates(ax1, ay1, ax2, ay2) = self.get_coordinates();
        let ObjectCoordinates(bx1, by1, bx2, by2) = *other;

        let x1 = if ax1 > bx1 { ax1 } else { bx1 };
        let x2 = if ax2 > bx2 { ax2 } else { bx2 };
        let y1 = if ay1 < by1 { ay1 } else { by1 };
        let y2 = if ay2 < by2 { ay2 } else { by2 };

        x1 <= x2 && y1 <= y2
    }

    fn get_normal(&self, other: &ObjectCoordinates) -> (r: Option<Vector>) {
        match self.dir {
            Direction::Left => Some(Vector(1, 0)),
            Direction::Right => Some(Vector(-1, 0)),
            Direction::Top => Some(Vector(0, -1)),
            Direction::Bottom => Some(Vector(0, 1)),
        }
    }

    fn get_velocity(&self) -> (r: Vector) {
        Vector(0, 0)
    }
}

} // verus!
