//! The game state and its collision engine: the playfield extent,
//! axis-aligned rectangles, 2D vectors, the overlap tests, the velocity
//! reflection, and the per-frame state transition [`Game::step`].

pub mod ball;
pub mod board;
pub mod brick;
pub mod text;
pub mod wall;

use vstd::prelude::*;

verus! {

use self::ball::Ball;
use self::board::Board;
use self::brick::Brick;
use self::wall::{Direction, Wall};
use vstd::math::{max, min};

/// Playfield extent in character cells: `(rows, columns)`.
#[derive(Clone, Copy, Debug, PartialEq, Eq, Structural)]
pub struct GameDimension(pub u16, pub u16);

/// An axis-aligned rectangle `(x1, y1, x2, y2)`: top-left and bottom-right
/// corners of the cells an entity occupies (x = column, y = row).
#[derive(Clone, Copy, Debug, PartialEq, Eq, Structural)]
pub struct ObjectCoordinates(pub u16, pub u16, pub u16, pub u16);

/// A 2D vector, used both as a velocity (cells per frame) and as a unit
/// surface normal (components in `{-1, 0, 1}`).
#[derive(Clone, Copy, Debug, PartialEq, Eq, Structural)]
pub struct Vector(pub i32, pub i32);

/// The symmetric AABB intersection test with closed-interval semantics:
/// the clipped corners are `max` of the lower and `min` of the upper
/// corners, and the rectangles overlap iff the clipped rectangle is
/// non-empty. Touching edges and corners count as overlap.
pub open spec fn rect_overlap(a: ObjectCoordinates, b: ObjectCoordinates) -> bool {
    max(a.0 as int, b.0 as int) <= min(a.2 as int, b.2 as int)
        && max(a.1 as int, b.1 as int) <= min(a.3 as int, b.3 as int)
}

/// The asymmetric overlap policy that walls and the paddle apply when
/// tested against another rectangle: `max` is used for both x corners and
/// `min` for both y corners, instead of the clipped form.
pub open spec fn loose_overlap(a: ObjectCoordinates, b: ObjectCoordinates) -> bool {
    max(a.0 as int, b.0 as int) <= max(a.2 as int, b.2 as int)
        && min(a.1 as int, b.1 as int) <= min(a.3 as int, b.3 as int)
}

/// Dot product of two vectors, as an unbounded integer.
pub open spec fn dot(v: Vector, n: Vector) -> int {
    v.0 * n.0 + v.1 * n.1
}

/// A unit-length, axis-aligned surface normal: exactly one component is
/// `1` or `-1` and the other is `0`.
pub open spec fn is_unit_normal(n: Vector) -> bool {
    (n.0 == 0 && (n.1 == 1 || n.1 == -1)) || (n.1 == 0 && (n.0 == 1 || n.0 == -1))
}

/// The reflection of velocity `v` across normal `n` by the standard
/// formula `v' = v - 2*(v . n)*n`, component by component over the
/// unbounded integers.
pub open spec fn reflected(v: Vector, n: Vector) -> (int, int) {
    (v.0 - 2 * dot(v, n) * n.0, v.1 - 2 * dot(v, n) * n.1)
}

/// [`reflected`], packed back into a `Vector`. For a unit normal and
/// velocity components above `i32::MIN` no truncation occurs
/// ([`lemma_reflect_unit`]).
pub open spec fn reflect_vec(v: Vector, n: Vector) -> Vector {
    Vector(reflected(v, n).0 as i32, reflected(v, n).1 as i32)
}

/// Clamping to `[0, hi]`: the integration step applies it to each axis
/// independently.
pub open spec fn clamped(p: int, hi: int) -> int {
    if p < 0 {
        0
    } else if p > hi {
        hi
    } else {
        p
    }
}

/// For a unit axis normal the reflection formula negates the velocity
/// component along the normal and preserves the orthogonal component, so
/// the result stays within `i32` whenever both components exceed
/// `i32::MIN`.
pub proof fn lemma_reflect_unit(v: Vector, n: Vector)
    requires
        is_unit_normal(n),
        v.0 > i32::MIN,
        v.1 > i32::MIN,
    ensures
        n.0 == 0 ==> reflected(v, n) == (v.0 as int, -(v.1 as int)),
        n.1 == 0 ==> reflected(v, n) == (-(v.0 as int), v.1 as int),
        reflect_vec(v, n).0 == reflected(v, n).0,
        reflect_vec(v, n).1 == reflected(v, n).1,
        reflect_vec(v, n).0 > i32::MIN,
        reflect_vec(v, n).1 > i32::MIN,
{
    if n.0 == 0 {
        assert(dot(v, n) == v.1 * n.1);
        if n.1 == 1 {
            assert(reflected(v, n).1 == -(v.1 as int));
        } else {
            assert(v.1 * -1 == -(v.1 as int));
            assert(reflected(v, n).1 == v.1 - 2 * (-(v.1 as int)) * -1);
        }
        assert(reflected(v, n).0 == v.0 as int);
    } else {
        assert(dot(v, n) == v.0 * n.0);
        if n.0 == 1 {
            assert(reflected(v, n).0 == -(v.0 as int));
        } else {
            assert(v.0 * -1 == -(v.0 as int));
            assert(reflected(v, n).0 == v.0 - 2 * (-(v.0 as int)) * -1);
        }
        assert(reflected(v, n).1 == v.1 as int);
    }
}

/// The capability of taking part in collision tests: an entity reports
/// its velocity, its bounding rectangle, whether it overlaps a given
/// rectangle under its own overlap policy, and the contact normal it
/// offers to a partner whose rectangle is given. Each implementation pins
/// the executable methods to its own spec functions.
pub trait Collidable: Sized {
    /// The well-formedness the entity's methods rely on (for most
    /// entities: its rectangle fits the coordinate space).
    spec fn wf(&self) -> bool;

    /// The entity's bounding rectangle.
    spec fn spec_coordinates(&self) -> ObjectCoordinates;

    /// The entity's current velocity.
    spec fn spec_velocity(&self) -> Vector;

    /// The contact normal offered to a partner occupying `other`, or
    /// `None` where the contact geometry is not supported.
    spec fn spec_normal(&self, other: ObjectCoordinates) -> Option<Vector>;

    /// The entity's own overlap policy applied against rectangle `other`.
    spec fn spec_collides(&self, other: ObjectCoordinates) -> bool;

    fn get_velocity(&self) -> (r: Vector)
        requires
            self.wf(),
        ensures
            r == self.spec_velocity(),
    ;

    fn get_normal(&self, other: &ObjectCoordinates) -> (r: Option<Vector>)
        requires
            self.wf(),
        ensures
            r == self.spec_normal(*other),
            r matches Some(n) ==> is_unit_normal(n),
    ;

    fn get_coordinates(&self) -> (r: ObjectCoordinates)
        requires
            self.wf(),
        ensures
            r == self.spec_coordinates(),
    ;

    fn has_collision(&self, other: &ObjectCoordinates) -> (r: bool)
        requires
            self.wf(),
        ensures
            r == self.spec_collides(*other),
    ;
}

/// The capability of being driven by directional input. Each
/// implementation pins the executable methods to its own spec functions;
/// a direction an entity does not respond to leaves it unchanged.
pub trait MoveCommand: Sized {
    /// The well-formedness the movement methods rely on.
    spec fn move_ready(&self) -> bool;

    spec fn moved_right(&self) -> Self;

    spec fn moved_left(&self) -> Self;

    spec fn moved_up(&self) -> Self;

    spec fn moved_down(&self) -> Self;

    fn move_right(&mut self)
        requires
            old(self).move_ready(),
        ensures
            *final(self) == old(self).moved_right(),
    ;

    fn move_left(&mut self)
        requires
            old(self).move_ready(),
        ensures
            *final(self) == old(self).moved_left(),
    ;

    fn move_up(&mut self)
        requires
            old(self).move_ready(),
        ensures
            *final(self) == old(self).moved_up(),
    ;

    fn move_down(&mut self)
        requires
            old(self).move_ready(),
        ensures
            *final(self) == old(self).moved_down(),
    ;
}

/// The one input event a frame consumes: at most one key is read per
/// poll, and a frame whose poll times out applies no input.
#[derive(Clone, Copy, Debug, PartialEq, Eq, Structural)]
pub enum InputEvent {
    NoInput,
    MoveLeft,
    MoveRight,
}

/// A contact whose geometry the normal lookup does not support (the
/// paddle touched from anywhere but above). The frame that meets one
/// aborts rather than guess a normal.
#[derive(Clone, Copy, Debug, PartialEq, Eq, Structural)]
pub struct UnsupportedContact;

/// Reflect velocity `v` across the unit axis normal `n`:
/// `v' = v - 2*(v . n)*n`.
pub fn reflect(v: Vector, n: Vector) -> (r: Vector)
    requires
        is_unit_normal(n),
        v.0 > i32::MIN,
        v.1 > i32::MIN,
    ensures
        r == reflect_vec(v, n),
        r.0 == reflected(v, n).0,
        r.1 == reflected(v, n).1,
        r.0 > i32::MIN,
        r.1 > i32::MIN,
{
    proof {
        lemma_reflect_unit(v, n);
    }
    if n.0 == 0 {
        Vector(v.0, -v.1)
    } else {
        Vector(-v.0, v.1)
    }
}

/// The clipped overlap test is symmetric in its two rectangles.
pub proof fn lemma_rect_overlap_sym(a: ObjectCoordinates, b: ObjectCoordinates)
    ensures
        rect_overlap(a, b) == rect_overlap(b, a),
{
}

/// With canonical rectangles (`x1 <= x2`, `y1 <= y2`) the clipped overlap
/// test means exactly that both coordinate intervals intersect as closed
/// intervals: rectangles touching at an edge or a corner already overlap.
pub proof fn lemma_rect_overlap_closed(a: ObjectCoordinates, b: ObjectCoordinates)
    requires
        a.0 <= a.2,
        a.1 <= a.3,
        b.0 <= b.2,
        b.1 <= b.3,
    ensures
        rect_overlap(a, b) <==> (a.0 <= b.2 && b.0 <= a.2 && a.1 <= b.3 && b.1 <= a.3),
{
}

/// Reflection correctness: across a unit axis normal, the velocity
/// component along the normal is negated and the orthogonal component is
/// preserved.
pub proof fn lemma_reflection_correct(v: Vector, n: Vector)
    requires
        is_unit_normal(n),
        v.0 > i32::MIN,
        v.1 > i32::MIN,
    ensures
        dot(reflect_vec(v, n), n) == -dot(v, n),
        n.0 == 0 ==> reflect_vec(v, n).0 == v.0,
        n.1 == 0 ==> reflect_vec(v, n).1 == v.1,
{
    lemma_reflect_unit(v, n);
    let r = reflect_vec(v, n);
    if n.0 == 0 {
        assert(r.0 * n.0 == 0 && v.0 * n.0 == 0);
        assert(r.1 == -(v.1 as int));
        if n.1 == 1 {
            assert(r.1 * n.1 == r.1 && v.1 * n.1 == v.1);
        } else {
            assert(r.1 * n.1 == -(r.1 as int) && v.1 * n.1 == -(v.1 as int)) by (nonlinear_arith)
                requires
                    n.1 == -1,
            ;
        }
    } else {
        assert(r.1 * n.1 == 0 && v.1 * n.1 == 0);
        assert(r.0 == -(v.0 as int));
        if n.0 == 1 {
            assert(r.0 * n.0 == r.0 && v.0 * n.0 == v.0);
        } else {
            assert(r.0 * n.0 == -(r.0 as int) && v.0 * n.0 == -(v.0 as int)) by (nonlinear_arith)
                requires
                    n.0 == -1,
            ;
        }
    }
}

/// The bricks of a fresh playfield of `n` columns, in column order: one
/// brick per top-row cell whose column is not a multiple of 4.
pub open spec fn brick_row(n: int) -> Seq<Brick>
    decreases n,
{
    if n <= 0 {
        Seq::empty()
    } else {
        brick_row(n - 1) + if (n - 1) % 4 != 0 {
            seq![Brick { xpos: (n - 1) as u16, ypos: 0, destroyed: false }]
        } else {
            Seq::empty()
        }
    }
}

/// The ball's velocity after resolving one potential wall contact: the
/// ball's clipped test and the wall's own policy must both report
/// contact for the wall's normal to apply.
pub open spec fn vel_after_wall(v: Vector, bc: ObjectCoordinates, w: Wall) -> Vector {
    if rect_overlap(bc, w.spec_coordinates()) && w.spec_collides(bc) {
        reflect_vec(v, w.spec_normal_vector())
    } else {
        v
    }
}

/// The ball's velocity after resolving the three walls in order.
pub open spec fn vel_after_walls(v: Vector, bc: ObjectCoordinates, walls: [Wall; 3]) -> Vector {
    vel_after_wall(vel_after_wall(vel_after_wall(v, bc, walls[0]), bc, walls[1]), bc, walls[2])
}

/// Whether the ball, occupying `bc`, contacts the brick this frame: the
/// ball's clipped test and the brick's own (destroyed-gated) test agree.
pub open spec fn brick_hit(b: Brick, bc: ObjectCoordinates) -> bool {
    rect_overlap(bc, b.spec_coordinates()) && b.spec_collides(bc)
}

/// Ball velocity and brick field after resolving the first `k` bricks in
/// order: each contacted brick reflects the ball's current velocity
/// across the brick's upward normal and is destroyed.
pub open spec fn brick_pass(
    v: Vector,
    bricks: Seq<Brick>,
    bc: ObjectCoordinates,
    k: int,
) -> (Vector, Seq<Brick>)
    decreases k,
{
    if k <= 0 {
        (v, bricks)
    } else {
        let prev = brick_pass(v, bricks, bc, k - 1);
        let b = prev.1[k - 1];
        if brick_hit(b, bc) {
            (
                reflect_vec(prev.0, Vector(0, 1)),
                prev.1.update(k - 1, Brick { destroyed: true, ..b }),
            )
        } else {
            prev
        }
    }
}

/// Resolving bricks never changes how many there are.
pub proof fn lemma_brick_pass_len(v: Vector, bricks: Seq<Brick>, bc: ObjectCoordinates, k: int)
    requires
        0 <= k <= bricks.len(),
    ensures
        brick_pass(v, bricks, bc, k).1.len() == bricks.len(),
    decreases k,
{
    if k > 0 {
        lemma_brick_pass_len(v, bricks, bc, k - 1);
    }
}

/// Brick idempotence across a frame: a brick that is already destroyed
/// reports no contact, so a pass over the bricks leaves it exactly as it
/// was, however many frames the ball spends overlapping its former cell.
pub proof fn lemma_brick_pass_destroyed(
    v: Vector,
    bricks: Seq<Brick>,
    bc: ObjectCoordinates,
    k: int,
    j: int,
)
    requires
        0 <= k <= bricks.len(),
        0 <= j < bricks.len(),
        bricks[j].destroyed,
    ensures
        brick_pass(v, bricks, bc, k).1[j] == bricks[j],
    decreases k,
{
    if k > 0 {
        lemma_brick_pass_destroyed(v, bricks, bc, k - 1, j);
        lemma_brick_pass_len(v, bricks, bc, k - 1);
    }
}

/// The paddle after the frame's one input event has been applied.
pub open spec fn board_after_input(b: Board, e: InputEvent) -> Board {
    match e {
        InputEvent::NoInput => b,
        InputEvent::MoveLeft => b.moved_left(),
        InputEvent::MoveRight => b.moved_right(),
    }
}

/// The whole game for one playfield: the ball, the paddle, the three
/// static walls (left, right, top; the bottom edge is open), and the
/// destructible brick row.
pub struct Game {
    pub ball: Ball,
    pub board: Board,
    pub walls: [Wall; 3],
    pub bricks: Vec<Brick>,
    pub dim: GameDimension,
}

/// One frame's outcome as a function of the starting state and the
/// frame's input event: `(aborted, ball, board, bricks)`. The frame
/// applies the input to the paddle, resolves the ball against the walls,
/// the bricks and the paddle in that order, and integrates the ball's
/// position; a paddle contact from an unsupported side aborts the frame
/// before reflection and integration.
pub open spec fn step_outcome(g: Game, e: InputEvent) -> (bool, Ball, Board, Seq<Brick>) {
    let board1 = board_after_input(g.board, e);
    let bc = g.ball.spec_coordinates();
    let v1 = vel_after_walls(g.ball.spec_velocity(), bc, g.walls);
    let pass = brick_pass(v1, g.bricks@, bc, g.bricks@.len() as int);
    let bh = rect_overlap(bc, board1.spec_coordinates()) && board1.spec_collides(bc);
    if !bh {
        let ball2 = Ball { xvelocity: pass.0.0, yvelocity: pass.0.1, ..g.ball };
        (false, ball2.integrated(), board1, pass.1)
    } else {
        match board1.spec_normal(bc) {
            Some(n) => {
                let v3 = reflect_vec(pass.0, n);
                let ball2 = Ball { xvelocity: v3.0, yvelocity: v3.1, ..g.ball };
                (false, ball2.integrated(), board1, pass.1)
            },
            None => (
                true,
                Ball { xvelocity: pass.0.0, yvelocity: pass.0.1, ..g.ball },
                board1,
                pass.1,
            ),
        }
    }
}

/// Determinism: the frame outcome is a function of the entities and the
/// input event alone. Two games in the same state fed the same scripted
/// events therefore produce the same sequence of positions, with no
/// hidden randomness.
pub proof fn lemma_step_deterministic(g1: Game, g2: Game, e: InputEvent)
    requires
        g1.ball == g2.ball,
        g1.board == g2.board,
        g1.walls == g2.walls,
        g1.bricks@ == g2.bricks@,
    ensures
        step_outcome(g1, e) == step_outcome(g2, e),
{
}

impl Game {
    /// The well-formedness `step` relies on.
    pub open spec fn wf(&self) -> bool {
        &&& self.ball.ball_wf()
        &&& self.board.board_wf()
    }

    /// Build one playfield's worth of entities deterministically from the
    /// extent: ball and paddle at their starting cells, the left, right
    /// and top walls, and a brick in every top-row cell whose column is
    /// not a multiple of 4.
    pub fn new(dim: GameDimension) -> (r: Game)
        requires
            dim.0 >= 20,
            dim.1 >= 50,
        ensures
            r.dim == dim,
            r.ball.xpos == dim.1 / 2,
            r.ball.ypos == dim.0 - 20,
            r.ball.radius == 0,
            r.ball.xvelocity == 1,
            r.ball.yvelocity == 1,
            r.ball.dim == dim,
            r.board.pos == dim.1 / 2 + 15,
            r.board.width == 10,
            r.board.velocity == 0,
            r.board.dim == dim,
            r.walls[0] == (Wall { dir: Direction::Left, dim }),
            r.walls[1] == (Wall { dir: Direction::Right, dim }),
            r.walls[2] == (Wall { dir: Direction::Top, dim }),
            r.bricks@ == brick_row(dim.1 as int),
            r.wf(),
            r.ball.in_bounds(),
            r.board.in_bounds(),
    {
        let mut bricks: Vec<Brick> = Vec::new();
        let mut x: u16 = 0;
        while x < dim.1
            invariant
                x <= dim.1,
                bricks@ == brick_row(x as int),
            decreases dim.1 - x,
        {
            if x % 4 != 0 {
                bricks.push(Brick::new(x, 0));
            }
            proof {
                assert(bricks@ =~= brick_row(x + 1));
            }
            x += 1;
        }

        Game {
            dim,
            ball: Ball::new(dim),
            board: Board::new(dim),
            walls: [
                Wall::new(dim, Direction::Left),
                Wall::new(dim, Direction::Right),
                Wall::new(dim, Direction::Top),
            ],
            bricks,
        }
    }

    /// Advance the game by one frame: apply the input event to the
    /// paddle, resolve the ball against every wall, every brick and the
    /// paddle in that order, then integrate the ball's position with
    /// clamping. The result and the new state are exactly
    /// [`step_outcome`] of the old state; `Err` is returned if and only
    /// if the paddle was contacted from an unsupported side, and then
    /// the ball keeps its pre-integration position.
    pub fn step(&mut self, e: InputEvent) -> (r: Result<(), UnsupportedContact>)
        requires
            old(self).wf(),
        ensures
            final(self).wf(),
            final(self).dim == old(self).dim,
            final(self).walls == old(self).walls,
            ({
                let out = step_outcome(*old(self), e);
                &&& (r is Err <==> out.0)
                &&& final(self).ball == out.1
                &&& final(self).board == out.2
                &&& final(self).bricks@ == out.3
            }),
            r is Ok ==> final(self).ball.in_bounds(),
            !(e is NoInput) ==> final(self).board.in_bounds(),
    {
        match e {
            InputEvent::MoveLeft => self.board.move_left(),
            InputEvent::MoveRight => self.board.move_right(),
            InputEvent::NoInput => {},
        }

        self.ball.handle_collision(&self.walls[0])?;
        self.ball.handle_collision(&self.walls[1])?;
        self.ball.handle_collision(&self.walls[2])?;

        let ghost bc = self.ball.spec_coordinates();
        let ghost v1 = self.ball.spec_velocity();
        let ghost bricks0 = self.bricks@;
        let ghost ball1 = self.ball;
        let ghost board1 = self.board;
        let ghost walls1 = self.walls;
        let ghost dim1 = self.dim;

        let mut i: usize = 0;
        while i < self.bricks.len()
            invariant
                i <= self.bricks@.len(),
                self.bricks@.len() == bricks0.len(),
                self.ball.ball_wf(),
                self.ball.xpos == ball1.xpos,
                self.ball.ypos == ball1.ypos,
                self.ball.radius == ball1.radius,
                self.ball.dim == ball1.dim,
                self.board == board1,
                self.walls == walls1,
                self.dim == dim1,
                self.ball.spec_velocity() == brick_pass(v1, bricks0, bc, i as int).0,
                self.bricks@ == brick_pass(v1, bricks0, bc, i as int).1,
                bc == self.ball.spec_coordinates(),
            decreases self.bricks@.len() - i,
        {
            let bcx = self.ball.get_coordinates();
            let br = self.bricks[i];
            // A brick offers its upward normal to every partner, so this
            // contact can never be the unsupported kind.
            let resolved = self.ball.handle_collision(&br);
            assert(resolved is Ok);
            let mut hit_brick = br;
            hit_brick.handle_collision(&bcx);
            self.bricks[i] = hit_brick;
            proof {
                lemma_rect_overlap_sym(bc, br.spec_coordinates());
                assert(self.bricks@ =~= brick_pass(v1, bricks0, bc, i + 1).1);
            }
            i += 1;
        }

        self.ball.handle_collision(&self.board)?;
        self.ball.update_object();
        Ok(())
    }
}

} // verus!
