use snake_net::common::{MyColor, MyVec2};
use snake_net::game::snake::{Direction, Snake, SnakesColission};

fn pink() -> MyColor {
    MyColor { r: 100, g: 43, b: 76, a: 100 }
}

fn at(x: i32, y: i32) -> MyVec2 {
    MyVec2::new(x, y)
}

#[test]
fn new_snake_has_two_segments_and_heads_left() {
    let s = Snake::new(pink(), at(260, 300));
    assert_eq!(s.positions(), &vec![at(240, 300), at(260, 300)]);
    assert_eq!(s.direction(), Direction::Left);
    assert_eq!(s.previous_tail_position(), at(260, 300));
    assert_eq!(s.update_counter(), 0);
    assert_eq!(s.color(), pink());
    assert_eq!(s.len(), 2);
}

#[test]
fn move_step_shifts_every_segment() {
    let mut s = Snake::from_parts(
        vec![at(100, 100), at(120, 100), at(140, 100)],
        at(160, 100),
        Direction::Up,
        pink(),
        0,
    )
    .unwrap();
    s.move_step();
    assert_eq!(s.positions(), &vec![at(100, 80), at(100, 100), at(120, 100)]);
    assert_eq!(s.previous_tail_position(), at(140, 100));
}

#[test]
fn move_step_wraps_at_every_edge() {
    let mut left = Snake::from_parts(vec![at(0, 40)], at(0, 40), Direction::Left, pink(), 0).unwrap();
    left.move_step();
    assert_eq!(left.get_head_pos(), at(780, 40));

    let mut right =
        Snake::from_parts(vec![at(780, 40)], at(0, 40), Direction::Right, pink(), 0).unwrap();
    right.move_step();
    assert_eq!(right.get_head_pos(), at(0, 40));

    let mut up = Snake::from_parts(vec![at(40, 0)], at(0, 40), Direction::Up, pink(), 0).unwrap();
    up.move_step();
    assert_eq!(up.get_head_pos(), at(40, 580));

    let mut down =
        Snake::from_parts(vec![at(40, 580)], at(0, 40), Direction::Down, pink(), 0).unwrap();
    down.move_step();
    assert_eq!(down.get_head_pos(), at(40, 0));
}

#[test]
fn new_snake_at_the_left_edge_wraps_into_the_last_column() {
    let mut s = Snake::new(pink(), at(20, 300));
    assert_eq!(s.positions(), &vec![at(0, 300), at(20, 300)]);
    s.move_step();
    assert_eq!(s.positions(), &vec![at(780, 300), at(0, 300)]);
    s.move_step();
    assert_eq!(s.positions(), &vec![at(760, 300), at(780, 300)]);
}

#[test]
fn new_snake_in_the_first_column_starts_in_the_last() {
    let s = Snake::new(pink(), at(0, 300));
    assert_eq!(s.positions(), &vec![at(780, 300), at(0, 300)]);
}

#[test]
fn last_column_is_followed_by_the_first() {
    let mut s =
        Snake::from_parts(vec![at(760, 280)], at(0, 40), Direction::Right, pink(), 0).unwrap();
    s.move_step();
    assert_eq!(s.get_head_pos(), at(780, 280));
    s.move_step();
    assert_eq!(s.get_head_pos(), at(0, 280));
    s.move_step();
    assert_eq!(s.get_head_pos(), at(20, 280));
}

#[test]
fn a_start_off_the_field_is_brought_onto_it() {
    let s = Snake::new(pink(), at(2420, -620));
    assert_eq!(s.get_head_pos(), at(0, 580));
    assert!(s.is_valid());
}

#[test]
fn snake_moves_on_every_twentieth_tick() {
    let mut s = Snake::new(pink(), at(260, 300));
    for _ in 0..19 {
        s.move_step_tick();
        assert_eq!(s.get_head_pos(), at(240, 300));
    }
    s.move_step_tick();
    assert_eq!(s.get_head_pos(), at(220, 300));
    assert_eq!(s.update_counter(), 0);
    for _ in 0..19 {
        s.move_step_tick();
    }
    assert_eq!(s.get_head_pos(), at(220, 300));
    s.move_step_tick();
    assert_eq!(s.get_head_pos(), at(200, 300));
}

#[test]
fn grow_appends_on_the_cell_the_tail_left() {
    let mut s = Snake::new(pink(), at(260, 300));
    s.move_step();
    assert_eq!(s.positions(), &vec![at(220, 300), at(240, 300)]);
    s.grow();
    assert_eq!(s.positions(), &vec![at(220, 300), at(240, 300), at(260, 300)]);
}

#[test]
fn length_never_shrinks_and_head_stays_on_the_field() {
    let mut s = Snake::new(pink(), at(20, 20));
    let mut len = s.len();
    for round in 0..400 {
        if round % 7 == 0 {
            s.grow();
        }
        if round % 50 == 0 {
            s.change_direction(Direction::Up);
        }
        if round % 50 == 25 {
            s.change_direction(Direction::Left);
        }
        s.move_step_tick();
        assert!(s.len() >= len);
        len = s.len();
        let h = s.get_head_pos();
        assert!(0 <= h.x && h.x < 800 && 0 <= h.y && h.y < 600);
        assert!(h.x % 20 == 0 && h.y % 20 == 0);
    }
}

#[test]
fn reverse_and_same_direction_are_ignored() {
    let mut s = Snake::new(pink(), at(260, 300));
    s.change_direction(Direction::Right);
    assert_eq!(s.direction(), Direction::Left);
    s.change_direction(Direction::Left);
    assert_eq!(s.direction(), Direction::Left);
    s.change_direction(Direction::Up);
    assert_eq!(s.direction(), Direction::Up);
    s.change_direction(Direction::Down);
    assert_eq!(s.direction(), Direction::Up);
    s.change_direction(Direction::Up);
    assert_eq!(s.direction(), Direction::Up);
    s.change_direction(Direction::Right);
    assert_eq!(s.direction(), Direction::Right);
    s.change_direction(Direction::Left);
    assert_eq!(s.direction(), Direction::Right);
    s.change_direction(Direction::Down);
    assert_eq!(s.direction(), Direction::Down);
}

#[test]
fn collision_queries() {
    let s = Snake::from_parts(
        vec![at(100, 100), at(120, 100), at(120, 120), at(100, 120), at(100, 100)],
        at(80, 100),
        Direction::Up,
        pink(),
        0,
    )
    .unwrap();
    assert!(s.collides_self());
    assert_eq!(s.get_tail(), &[at(120, 100), at(120, 120), at(100, 120), at(100, 100)][..]);
    assert!(s.collides_head(&at(100, 100)));
    assert!(!s.collides_head(&at(120, 100)));
    assert!(s.collides_tail(&at(120, 120)));
    assert!(!s.collides_tail(&at(80, 100)));
    assert!(s.collides_object(&at(100, 120)));
    assert!(!s.collides_object(&at(0, 0)));

    let plain = Snake::new(pink(), at(260, 300));
    assert!(!plain.collides_self());
    assert!(plain.collides_object(&at(240, 300)));
    assert!(plain.collides_object(&at(260, 300)));
    assert!(!plain.collides_tail(&at(240, 300)));
}

#[test]
fn collides_other_tells_head_from_tail() {
    let other = Snake::from_parts(
        vec![at(200, 200), at(220, 200), at(240, 200)],
        at(260, 200),
        Direction::Left,
        pink(),
        0,
    )
    .unwrap();
    let on_head =
        Snake::from_parts(vec![at(200, 200), at(200, 220)], at(200, 240), Direction::Up, pink(), 0)
            .unwrap();
    let on_tail =
        Snake::from_parts(vec![at(240, 200), at(240, 220)], at(240, 240), Direction::Up, pink(), 0)
            .unwrap();
    let apart =
        Snake::from_parts(vec![at(400, 400), at(420, 400)], at(440, 400), Direction::Up, pink(), 0)
            .unwrap();
    assert_eq!(on_head.collides_other(&other), Some(SnakesColission::HeadToHeadColission));
    assert_eq!(on_tail.collides_other(&other), Some(SnakesColission::HeadToTailColission));
    assert_eq!(apart.collides_other(&other), None);
    assert_eq!(other.collides_other(&on_tail), None);
}

#[test]
fn from_parts_refuses_an_empty_body() {
    assert!(Snake::from_parts(vec![], at(0, 0), Direction::Left, pink(), 0).is_none());
}

#[test]
fn from_parts_refuses_a_head_off_the_grid_or_off_the_field() {
    for head in [
        at(10, 0),
        at(0, 30),
        at(-20, 0),
        at(0, -20),
        at(820, 0),
        at(0, 620),
        at(800, 0),
        at(0, 600),
        at(800, 600),
    ] {
        assert!(Snake::from_parts(vec![head], at(0, 0), Direction::Left, pink(), 0).is_none());
    }
    for head in [at(0, 0), at(780, 0), at(0, 580), at(780, 580), at(20, 40)] {
        let s = Snake::from_parts(vec![head, at(7, -3)], at(1, 1), Direction::Left, pink(), 5)
            .unwrap();
        assert!(s.is_valid());
        assert_eq!(s.get_head_pos(), head);
        assert_eq!(s.update_counter(), 5);
    }
}
