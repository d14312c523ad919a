use breakpong::game::ball::Ball;
use breakpong::game::board::Board;
use breakpong::game::brick::Brick;
use breakpong::game::text::{HorizontalAlign, Position, Text, VerticalAlign};
use breakpong::game::wall::{Direction, Wall};
use breakpong::game::{Collidable, GameDimension, MoveCommand, ObjectCoordinates, Vector};

const DIM: GameDimension = GameDimension(24, 80);

#[test]
fn ball_starts_at_centre_column() {
    let b = Ball::new(DIM);
    assert_eq!(b.xpos, 40);
    assert_eq!(b.ypos, 4);
    assert_eq!(b.radius, 0);
    assert_eq!(b.xvelocity, 1);
    assert_eq!(b.yvelocity, 1);
    assert_eq!(b.get_coordinates(), ObjectCoordinates(40, 4, 40, 4));
    assert_eq!(b.get_velocity(), Vector(1, 1));
    assert_eq!(b.get_normal(&ObjectCoordinates(0, 0, 1, 1)), None);
}

#[test]
fn ball_integration_moves_by_velocity() {
    let mut b = Ball::new(DIM);
    b.move_object();
    assert_eq!((b.xpos, b.ypos), (41, 5));
}

#[test]
fn ball_clamps_at_playfield_edges() {
    let mut b = Ball::new(DIM);
    b.xpos = 0;
    b.ypos = 0;
    b.xvelocity = -3;
    b.yvelocity = -1;
    b.move_object();
    assert_eq!((b.xpos, b.ypos), (0, 0));

    b.xpos = 79;
    b.ypos = 23;
    b.xvelocity = 5;
    b.yvelocity = 5;
    b.move_object();
    // Clamped to (columns - 2*radius, rows - 2*radius) exactly.
    assert_eq!((b.xpos, b.ypos), (80, 24));
}

#[test]
fn board_starts_right_of_centre() {
    let b = Board::new(DIM);
    assert_eq!(b.pos, 55);
    assert_eq!(b.width, 10);
    assert_eq!(b.velocity, 0);
    assert_eq!(b.get_coordinates(), ObjectCoordinates(55, 24, 65, 24));
    assert_eq!(b.get_velocity(), Vector(0, 0));
}

#[test]
fn board_moves_by_fixed_speed() {
    let mut b = Board::new(DIM);
    b.move_left();
    assert_eq!(b.pos, 51);
    assert_eq!(b.velocity, -4);
    b.move_right();
    assert_eq!(b.pos, 55);
    assert_eq!(b.velocity, 4);
    b.move_up();
    b.move_down();
    assert_eq!(b.pos, 55);
    assert_eq!(b.velocity, 4);
}

#[test]
fn board_clamps_at_both_edges() {
    let mut b = Board::new(DIM);
    b.pos = 2;
    b.move_left();
    assert_eq!(b.pos, 0);
    b.move_left();
    assert_eq!(b.pos, 0);

    b.pos = 68;
    b.move_right();
    // Clamped to columns - width exactly.
    assert_eq!(b.pos, 70);
    b.move_right();
    assert_eq!(b.pos, 70);
}

#[test]
fn board_offers_upward_normal_from_above_only() {
    let b = Board::new(DIM);
    // Partner's top edge at or above the paddle's own row.
    assert_eq!(b.get_normal(&ObjectCoordinates(55, 24, 55, 24)), Some(Vector(0, -1)));
    assert_eq!(b.get_normal(&ObjectCoordinates(55, 0, 55, 24)), Some(Vector(0, -1)));
    // Any other contact geometry is unsupported.
    assert_eq!(b.get_normal(&ObjectCoordinates(55, 25, 55, 26)), None);
}

#[test]
fn board_draw_span_clips_to_playfield() {
    let mut b = Board::new(DIM);
    assert_eq!(b.draw_span(), (55, 65));
    b.pos = 75;
    assert_eq!(b.draw_span(), (75, 80));
}

#[test]
fn brick_destroyed_on_first_contact_then_inert() {
    let mut b = Brick::new(5, 0);
    assert!(!b.destroyed);
    let ball_cell = ObjectCoordinates(5, 0, 5, 0);
    assert!(b.has_collision(&ball_cell));
    assert_eq!(b.get_normal(&ball_cell), Some(Vector(0, 1)));

    b.handle_collision(&ball_cell);
    assert!(b.destroyed);

    // A destroyed brick never reports a collision again, however long
    // the ball overlaps its former cell.
    assert!(!b.has_collision(&ball_cell));
    b.handle_collision(&ball_cell);
    assert!(b.destroyed);
    assert_eq!((b.xpos, b.ypos), (5, 0));
}

#[test]
fn brick_misses_non_overlapping_cells() {
    let mut b = Brick::new(5, 0);
    b.handle_collision(&ObjectCoordinates(6, 0, 6, 0));
    assert!(!b.destroyed);
    assert!(!b.has_collision(&ObjectCoordinates(4, 1, 4, 1)));
}

#[test]
fn walls_span_their_edges() {
    let left = Wall::new(DIM, Direction::Left);
    let right = Wall::new(DIM, Direction::Right);
    let top = Wall::new(DIM, Direction::Top);
    let bottom = Wall::new(DIM, Direction::Bottom);

    assert_eq!(left.get_coordinates(), ObjectCoordinates(0, 0, 0, 24));
    assert_eq!(right.get_coordinates(), ObjectCoordinates(80, 0, 80, 24));
    assert_eq!(top.get_coordinates(), ObjectCoordinates(0, 0, 80, 0));
    assert_eq!(bottom.get_coordinates(), ObjectCoordinates(0, 24, 80, 24));

    let anywhere = ObjectCoordinates(3, 3, 4, 4);
    assert_eq!(left.get_normal(&anywhere), Some(Vector(1, 0)));
    assert_eq!(right.get_normal(&anywhere), Some(Vector(-1, 0)));
    assert_eq!(top.get_normal(&anywhere), Some(Vector(0, -1)));
    assert_eq!(bottom.get_normal(&anywhere), Some(Vector(0, 1)));
    assert_eq!(left.get_velocity(), Vector(0, 0));
}

#[test]
fn text_anchors_per_alignment() {
    let centred = Text::new(
        "score",
        Position(HorizontalAlign::Centre, VerticalAlign::Centre),
        DIM,
    );
    assert_eq!(centred.content, "score");
    assert!(!centred.outlined);
    // Box is label width plus one border cell per side.
    assert_eq!(centred.box_origin(5), (37, 11));

    let top_left = Text::new("a", Position(HorizontalAlign::Left, VerticalAlign::Top), DIM);
    assert_eq!(top_left.box_origin(1), (0, 0));

    let bottom_right = Text::new(
        "hello",
        Position(HorizontalAlign::Right, VerticalAlign::Bottom),
        DIM,
    );
    assert_eq!(bottom_right.box_origin(5), (73, 21));
}
