use snake_game::food::Food;
use snake_game::game::draw;
use snake_game::geometry::{Point, SnakeDir};
use snake_game::render::{add_food, add_snake, add_wall, Glyph, Mark};
use snake_game::snake::Snake;

fn m(x: i32, y: i32, glyph: Glyph) -> Mark {
    Mark { x, y, glyph }
}

#[test]
fn wall_of_a_five_by_four_surface() {
    let mut marks = Vec::new();
    add_wall(&mut marks, 5, 4);
    assert_eq!(
        marks,
        vec![
            // top run
            m(1, 0, Glyph::HLine),
            m(2, 0, Glyph::HLine),
            m(3, 0, Glyph::HLine),
            // right run
            m(4, 1, Glyph::VLine),
            m(4, 2, Glyph::VLine),
            // bottom run
            m(1, 3, Glyph::HLine),
            m(2, 3, Glyph::HLine),
            m(3, 3, Glyph::HLine),
            // left run
            m(0, 1, Glyph::VLine),
            m(0, 2, Glyph::VLine),
            // corners
            m(0, 0, Glyph::UpperLeft),
            m(4, 0, Glyph::UpperRight),
            m(4, 3, Glyph::LowerRight),
            m(0, 3, Glyph::LowerLeft),
        ]
    );
}

#[test]
fn wall_is_appended_to_what_is_there() {
    let mut marks = vec![m(7, 7, Glyph::Segment)];
    add_wall(&mut marks, 3, 3);
    assert_eq!(marks.len(), 1 + 4 + 4);
    assert_eq!(marks[0], m(7, 7, Glyph::Segment));
    assert_eq!(marks[1], m(1, 0, Glyph::HLine));
    assert_eq!(marks[2], m(2, 1, Glyph::VLine));
    assert_eq!(marks[3], m(1, 2, Glyph::HLine));
    assert_eq!(marks[4], m(0, 1, Glyph::VLine));
}

#[test]
fn wall_of_a_surface_too_small_for_runs_is_its_corners() {
    let mut marks = Vec::new();
    add_wall(&mut marks, 2, 2);
    assert_eq!(
        marks,
        vec![
            m(0, 0, Glyph::UpperLeft),
            m(1, 0, Glyph::UpperRight),
            m(1, 1, Glyph::LowerRight),
            m(0, 1, Glyph::LowerLeft),
        ]
    );
    let mut marks = Vec::new();
    add_wall(&mut marks, 0, 0);
    assert_eq!(
        marks,
        vec![
            m(0, 0, Glyph::UpperLeft),
            m(-1, 0, Glyph::UpperRight),
            m(-1, -1, Glyph::LowerRight),
            m(0, -1, Glyph::LowerLeft),
        ]
    );
}

#[test]
fn wall_of_a_single_row_overlaps_itself() {
    let mut marks = Vec::new();
    add_wall(&mut marks, 4, 1);
    assert_eq!(
        marks,
        vec![
            m(1, 0, Glyph::HLine),
            m(2, 0, Glyph::HLine),
            m(1, 0, Glyph::HLine),
            m(2, 0, Glyph::HLine),
            m(0, 0, Glyph::UpperLeft),
            m(3, 0, Glyph::UpperRight),
            m(3, 0, Glyph::LowerRight),
            m(0, 0, Glyph::LowerLeft),
        ]
    );
}

#[test]
fn wall_has_one_mark_per_cell_of_the_ring() {
    let mut marks = Vec::new();
    add_wall(&mut marks, 80, 24);
    assert_eq!(marks.len(), 2 * 80 + 2 * 24 - 4);
    for mark in &marks {
        let on_ring = mark.x == 0 || mark.x == 79 || mark.y == 0 || mark.y == 23;
        assert!(on_ring);
        assert!(0 <= mark.x && mark.x < 80 && 0 <= mark.y && mark.y < 24);
    }
}

#[test]
fn snake_is_drawn_head_first() {
    let s = Snake {
        dir: SnakeDir::UP,
        body: vec![Point { x: 3, y: 3 }, Point { x: 2, y: 3 }, Point { x: 2, y: 4 }],
    };
    let mut marks = vec![m(0, 0, Glyph::UpperLeft)];
    add_snake(&mut marks, &s);
    assert_eq!(
        marks,
        vec![
            m(0, 0, Glyph::UpperLeft),
            m(3, 3, Glyph::Segment),
            m(2, 3, Glyph::Segment),
            m(2, 4, Glyph::Segment),
        ]
    );
}

#[test]
fn food_is_one_mark() {
    let mut marks = vec![m(3, 3, Glyph::Segment)];
    add_food(&mut marks, &Food { x: 6, y: 2 });
    assert_eq!(marks, vec![m(3, 3, Glyph::Segment), m(6, 2, Glyph::Food)]);
}

#[test]
fn frame_is_wall_then_snake_then_food() {
    let s = Snake::new();
    let marks = draw(&s, &Food { x: 1, y: 1 }, 6, 5);
    let ring = 2 * 6 + 2 * 5 - 4;
    assert_eq!(marks.len(), ring + 2 + 1);
    assert_eq!(marks[ring - 1], m(0, 4, Glyph::LowerLeft));
    assert_eq!(marks[ring], m(3, 3, Glyph::Segment));
    assert_eq!(marks[ring + 1], m(2, 3, Glyph::Segment));
    assert_eq!(marks[ring + 2], m(1, 1, Glyph::Food));
}
