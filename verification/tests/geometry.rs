use breakpong::game::ball::Ball;
use breakpong::game::{reflect, Collidable, GameDimension, ObjectCoordinates, Vector};

#[test]
fn reflection_off_floor_normal() {
    // v = (1, 1) across n = (0, -1): the component along the normal is
    // negated, the orthogonal component is preserved.
    let r = reflect(Vector(1, 1), Vector(0, -1));
    assert_eq!(r, Vector(1, -1));
}

#[test]
fn reflection_off_left_normal() {
    // v = (1, 1) across n = (1, 0).
    let r = reflect(Vector(1, 1), Vector(1, 0));
    assert_eq!(r, Vector(-1, 1));
}

#[test]
fn reflection_off_upward_normal() {
    let r = reflect(Vector(3, -2), Vector(0, 1));
    assert_eq!(r, Vector(3, 2));
}

#[test]
fn reflection_is_involutive_on_axis_normals() {
    let normals = [Vector(0, 1), Vector(0, -1), Vector(1, 0), Vector(-1, 0)];
    for n in normals {
        let v = Vector(7, -9);
        assert_eq!(reflect(reflect(v, n), n), v);
    }
}

fn point_ball(x: u16, y: u16) -> Ball {
    Ball {
        xpos: x,
        ypos: y,
        radius: 0,
        xvelocity: 1,
        yvelocity: 1,
        dim: GameDimension(24, 80),
    }
}

#[test]
fn overlap_shared_corner_counts() {
    // The ball's cell sits exactly on a corner of the other rectangle:
    // closed-interval semantics report overlap.
    let b = point_ball(1, 1);
    assert!(b.has_collision(&ObjectCoordinates(0, 0, 1, 1)));
    assert!(b.has_collision(&ObjectCoordinates(1, 1, 2, 2)));
}

#[test]
fn overlap_shared_edge_counts() {
    let b = point_ball(1, 0);
    assert!(b.has_collision(&ObjectCoordinates(0, 0, 1, 5)));
    assert!(b.has_collision(&ObjectCoordinates(1, 0, 2, 5)));
}

#[test]
fn overlap_one_cell_apart_does_not_count() {
    let b = point_ball(2, 0);
    assert!(!b.has_collision(&ObjectCoordinates(0, 0, 1, 5)));
    let c = point_ball(0, 2);
    assert!(!c.has_collision(&ObjectCoordinates(0, 0, 5, 1)));
}

#[test]
fn ball_disc_membership() {
    // Radius 0: the disc is the single cell at the ball's position.
    let b = point_ball(5, 5);
    assert!(b.covers_cell(5, 5));
    assert!(!b.covers_cell(6, 5));
    assert!(!b.covers_cell(5, 6));

    // Radius 2, centre at (12, 12); rows count double for the aspect
    // ratio, so the disc is 5 cells wide but only 3 tall.
    let big = Ball {
        xpos: 10,
        ypos: 10,
        radius: 2,
        xvelocity: 1,
        yvelocity: 1,
        dim: GameDimension(24, 80),
    };
    assert!(big.covers_cell(12, 12));
    assert!(big.covers_cell(14, 12));
    assert!(big.covers_cell(10, 12));
    assert!(big.covers_cell(12, 13));
    assert!(big.covers_cell(12, 11));
    assert!(!big.covers_cell(12, 14));
    assert!(!big.covers_cell(13, 13));
}
