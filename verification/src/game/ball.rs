//! The ball: the one entity with live physics. Per frame its velocity is
//! reflected off whatever it touches, and its position integrates by one
//! velocity step, clamped to the playfield.

use super::{
    clamped, rect_overlap, reflect, reflect_vec, Collidable, GameDimension,
    ObjectCoordinates, UnsupportedContact, Vector,
};
use vstd::prelude::*;

verus! {

/// The ball's radius in cells. The ball occupies the square of side
/// `2 * radius + 1` around its top-left corner `(xpos, ypos)`.
const BALL_RADIUS: u16 = 0;

#[derive(Clone, Copy, Debug, PartialEq, Eq, Structural)]
pub struct Ball {
    pub xpos: u16,
    pub ypos: u16,
    pub radius: u16,
    pub xvelocity: i32,
    pub yvelocity: i32,
    pub dim: GameDimension,
}

impl Ball {
    /// The well-formedness every ball method relies on: the bounding
    /// square fits the coordinate space and the playfield, and the
    /// velocity components can be negated without leaving `i32`.
    pub open spec fn ball_wf(&self) -> bool {
        &&& self.xpos + 2 * self.radius <= u16::MAX
        &&& self.ypos + 2 * self.radius <= u16::MAX
        &&& 2 * self.radius <= self.dim.1
        &&& 2 * self.radius <= self.dim.0
        &&& self.xvelocity > i32::MIN
        &&& self.yvelocity > i32::MIN
    }

    /// The clamping invariant: the ball lies within
    /// `[0, columns - 2*radius] x [0, rows - 2*radius]`.
    pub open spec fn in_bounds(&self) -> bool {
        &&& self.xpos + 2 * self.radius <= self.dim.1
        &&& self.ypos + 2 * self.radius <= self.dim.0
    }

    /// The ball after one integration step: `position + velocity`, each
    /// axis clamped independently to `[0, extent - 2*radius]`.
    pub open spec fn integrated(&self) -> Ball {
        Ball {
            xpos: clamped(self.xpos + self.xvelocity, self.dim.1 - 2 * self.radius) as u16,
            ypos: clamped(self.ypos + self.yvelocity, self.dim.0 - 2 * self.radius) as u16,
            ..*self
        }
    }

    pub fn new(dim: GameDimension) -> (r: Ball)
        requires
            dim.0 >= 20,
        ensures
            r.xpos == dim.1 / 2,
            r.ypos == dim.0 - 20,
            r.radius == 0,
            r.xvelocity == 1,
            r.yvelocity == 1,
            r.dim == dim,
            r.ball_wf(),
            r.in_bounds(),
    {
        Ball {
            xpos: dim.1 / 2 - BALL_RADIUS / 2,
            ypos: dim.0 - 20,
            xvelocity: 1,
            yvelocity: 1,
            radius: BALL_RADIUS,
            dim,
        }
    }

    /// One integration step: new position is `old position + velocity`,
    /// clamped to the playfield on each axis independently, so the ball
    /// never leaves `[0, columns - 2*radius] x [0, rows - 2*radius]`.
    pub fn move_object(&mut self)
        requires
            old(self).ball_wf(),
        ensures
            *final(self) == old(self).integrated(),
            final(self).ball_wf(),
            final(self).in_bounds(),
    {
        let xhi: i64 = self.dim.1 as i64 - 2 * (self.radius as i64);
        let yhi: i64 = self.dim.0 as i64 - 2 * (self.radius as i64);
        let nx: i64 = self.xpos as i64 + self.xvelocity as i64;
        let ny: i64 = self.ypos as i64 + self.yvelocity as i64;
        let cx: i64 = if nx < 0 {
            0
        } else if nx > xhi {
            xhi
        } else {
            nx
        };
        let cy: i64 = if ny < 0 {
            0
        } else if ny > yhi {
            yhi
        } else {
            ny
        };
        self.xpos = cx as u16;
        self.ypos = cy as u16;
    }

    /// The per-frame physics update is exactly one integration step.
    pub fn update_object(&mut self)
        requires
            old(self).ball_wf(),
        ensures
            *final(self) == old(self).integrated(),
            final(self).ball_wf(),
            final(self).in_bounds(),
    {
        self.move_object();
    }

    /// Resolve one potential contact: where the ball's clipped overlap
    /// test and the partner's own overlap policy both report contact, the
    /// ball's velocity is replaced by its reflection across the partner's
    /// normal; where the partner supports no normal for this contact the
    /// frame aborts instead of guessing one. Position never changes here.
    pub fn handle_collision<C: Collidable>(&mut self, other: &C) -> (r: Result<
        (),
        UnsupportedContact,
    >)
        requires
            old(self).ball_wf(),
            other.wf(),
        ensures
            final(self).xpos == old(self).xpos,
            final(self).ypos == old(self).ypos,
            final(self).radius == old(self).radius,
            final(self).dim == old(self).dim,
            final(self).ball_wf(),
            ({
                let bc = old(self).spec_coordinates();
                let oc = other.spec_coordinates();
                let hit = old(self).spec_collides(oc) && other.spec_collides(bc);
                &&& (r is Err <==> hit && other.spec_normal(bc) is None)
                &&& (!hit ==> final(self).spec_velocity() == old(self).spec_velocity())
                &&& (hit ==> match other.spec_normal(bc) {
                    Some(n) => final(self).spec_velocity() == reflect_vec(
                        old(self).spec_velocity(),
                        n,
                    ),
                    None => final(self).spec_velocity() == old(self).spec_velocity(),
                })
            }),
    {
        let bc = self.get_coordinates();
        let oc = other.get_coordinates();
        if self.has_collision(&oc) && other.has_collision(&bc) {
            match other.get_normal(&bc) {
                Some(n) => {
                    let rv = reflect(Vector(self.xvelocity, self.yvelocity), n);
                    self.xvelocity = rv.0;
                    self.yvelocity = rv.1;
                    Ok(())
                },
                None => Err(UnsupportedContact),
            }
        } else {
            Ok(())
        }
    }

    /// Whether the disc fills cell `(x, y)` when drawn: the cell's offset
    /// from the centre, with the row offset doubled to correct the
    /// character-cell aspect ratio, lies within the radius.
    pub open spec fn spec_covers(&self, x: u16, y: u16) -> bool {
        ({
            let dx = x - (self.xpos + self.radius);
            let dy = 2 * (y - (self.ypos + self.radius));
            dx * dx + dy * dy <= self.radius * self.radius
        })
    }

    /// The membership test behind drawing and clearing the ball's disc.
    pub fn covers_cell(&self, x: u16, y: u16) -> (r: bool)
        ensures
            r == self.spec_covers(x, y),
    {
        let dx: i64 = x as i64 - (self.xpos as i64 + self.radius as i64);
        let dy: i64 = 2 * (y as i64 - (self.ypos as i64 + self.radius as i64));
        proof {
            assert(dx * dx <= 262142 * 262142 && dx * dx >= 0) by (nonlinear_arith)
                requires
                    -262142 <= dx <= 262142,
            ;
            assert(dy * dy <= 262142 * 262142 && dy * dy >= 0) by (nonlinear_arith)
                requires
                    -262142 <= dy <= 262142,
            ;
            assert((self.radius as i64) * (self.radius as i64) <= 65535 * 65535) by (nonlinear_arith)
                requires
                    0 <= self.radius as i64 <= 65535,
            ;
        }
        let lhs: i64 = dx * dx + dy * dy;
        let rhs: i64 = self.radius as i64 * self.radius as i64;
        lhs <= rhs
    }
}

impl Collidable for Ball {
    open spec fn wf(&self) -> bool {
        self.ball_wf()
    }

    /// The square of cells the ball occupies: side `2 * radius + 1`,
    /// top-left corner at the ball's position.
    open spec fn spec_coordinates(&self) -> ObjectCoordinates {
        ObjectCoordinates(
            self.xpos,
            self.ypos,
            (self.xpos + 2 * self.radius) as u16,
            (self.ypos + 2 * self.radius) as u16,
        )
    }

    open spec fn spec_velocity(&self) -> Vector {
        Vector(self.xvelocity, self.yvelocity)
    }

    /// The ball only consumes other entities' normals; it offers none of
    /// its own.
    open spec fn spec_normal(&self, other: ObjectCoordinates) -> Option<Vector> {
        None
    }

    /// The clipped overlap test: the one policy with physically correct
    /// closed-interval AABB intersection semantics.
    open spec fn spec_collides(&self, other: ObjectCoordinates) -> bool {
        rect_overlap(self.spec_coordinates(), other)
    }

    fn get_coordinates(&self) -> (r: ObjectCoordinates) {
        ObjectCoordinates(
            self.xpos,
            self.ypos,
            self.xpos + 2 * self.radius,
            self.ypos + 2 * self.radius,
        )
    }

    fn has_collision(&self, other: &ObjectCoordinates) -> (r: bool) {
        let ObjectCoordinates(ax1, ay1, ax2, ay2) = self.get_coordinates();
        let ObjectCoordinates(bx1, by1, bx2, by2) = *other;

        let x1 = if ax1 > bx1 { ax1 } else { bx1 };
        let x2 = if ax2 < bx2 { ax2 } else { bx2 };
        let y1 = if ay1 > by1 { ay1 } else { by1 };
        let y2 = if ay2 < by2 { ay2 } else { by2 };

        x1 <= x2 && y1 <= y2
    }

    fn get_normal(&self, other: &ObjectCoordinates) -> (r: Option<Vector>) {
        None
    }

    fn get_velocity(&self) -> (r: Vector) {
        Vector(self.xvelocity, self.yvelocity)
    }
}

} // verus!
