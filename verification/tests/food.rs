use snake_game::food::{create_food, first_free_cell, food_on, Food};
use snake_game::geometry::{is_in_interior, is_on_surface, Point, SnakeDir};
use snake_game::snake::Snake;

fn p(x: i32, y: i32) -> Point {
    Point { x, y }
}

/// A snake that winds through the whole interior of a surface, row by row,
/// and leaves out the cells in `free`.
fn winding(cols: i32, lines: i32, free: &[Point]) -> Snake {
    let mut body = Vec::new();
    for y in 1..lines - 1 {
        let row: Vec<i32> = if y % 2 == 1 {
            (1..cols - 1).collect()
        } else {
            (1..cols - 1).rev().collect()
        };
        for x in row {
            if !free.contains(&p(x, y)) {
                body.push(p(x, y));
            }
        }
    }
    Snake { dir: SnakeDir::RIGHT, body }
}

#[test]
fn food_is_placed_in_the_interior_and_off_the_body() {
    let s = Snake { dir: SnakeDir::RIGHT, body: vec![p(3, 3), p(2, 3), p(1, 3), p(1, 2), p(1, 1)] };
    for _ in 0..500 {
        let food = create_food(&s, 7, 6).unwrap();
        assert!(is_in_interior(food.position(), 7, 6));
        assert!(1 <= food.x && food.x <= 5 && 1 <= food.y && food.y <= 4);
        assert!(!s.body.contains(&food.position()));
        assert!(!s.covers(food.position()));
    }
}

#[test]
fn food_is_never_placed_on_the_wall_ring() {
    let s = Snake::new();
    for _ in 0..500 {
        let food = create_food(&s, 5, 5).unwrap();
        assert!(food.x != 0 && food.x != 4 && food.y != 0 && food.y != 4);
        assert!(is_on_surface(food.position(), 5, 5));
    }
}

#[test]
fn the_last_free_cell_is_found() {
    let free = p(3, 2);
    let s = winding(7, 6, &[free]);
    assert_eq!(s.body.len(), 5 * 4 - 1);
    for _ in 0..50 {
        assert_eq!(create_food(&s, 7, 6), Some(Food { x: 3, y: 2 }));
    }
}

#[test]
fn every_free_cell_can_be_the_last() {
    for y in 1..4 {
        for x in 1..5 {
            let s = winding(6, 5, &[p(x, y)]);
            assert_eq!(create_food(&s, 6, 5), Some(Food { x, y }));
        }
    }
}

#[test]
fn a_full_interior_gets_no_food() {
    let s = winding(7, 6, &[]);
    assert_eq!(create_food(&s, 7, 6), None);
    assert_eq!(first_free_cell(&s, 7, 6), None);
}

#[test]
fn a_surface_without_interior_gets_no_food() {
    let s = Snake::new();
    assert_eq!(create_food(&s, 2, 10), None);
    assert_eq!(create_food(&s, 10, 2), None);
    assert_eq!(create_food(&s, 0, 0), None);
    assert_eq!(create_food(&s, -5, 10), None);
    assert_eq!(create_food(&s, i32::MIN, i32::MIN), None);
    assert_eq!(first_free_cell(&s, 2, 2), None);
}

#[test]
fn the_smallest_interior_is_one_cell() {
    let s = Snake::new();
    assert_eq!(create_food(&s, 3, 3), Some(Food { x: 1, y: 1 }));
    let on_it = Snake { dir: SnakeDir::UP, body: vec![p(1, 1)] };
    assert_eq!(create_food(&on_it, 3, 3), None);
}

#[test]
fn placements_differ_from_call_to_call() {
    let s = Snake::new();
    let first = create_food(&s, 60, 40).unwrap();
    let mut other_column = false;
    let mut other_row = false;
    for _ in 0..400 {
        let food = create_food(&s, 60, 40).unwrap();
        assert!(is_in_interior(food.position(), 60, 40));
        other_column = other_column || food.x != first.x;
        other_row = other_row || food.y != first.y;
    }
    assert!(other_column);
    assert!(other_row);
}

#[test]
fn placements_cover_a_small_interior() {
    // 2 x 2 interior with nothing on it: all four cells come up
    let s = Snake { dir: SnakeDir::RIGHT, body: vec![p(0, 0)] };
    let mut seen = [false; 4];
    for _ in 0..2000 {
        let food = create_food(&s, 4, 4).unwrap();
        seen[((food.y - 1) * 2 + (food.x - 1)) as usize] = true;
    }
    assert_eq!(seen, [true, true, true, true]);
}

#[test]
fn first_free_cell_reads_row_by_row() {
    let s = Snake { dir: SnakeDir::RIGHT, body: vec![p(1, 1), p(2, 1), p(3, 1), p(1, 2)] };
    assert_eq!(first_free_cell(&s, 5, 5), Some(Food { x: 2, y: 2 }));
    let s = Snake { dir: SnakeDir::RIGHT, body: vec![p(1, 1), p(3, 1)] };
    assert_eq!(first_free_cell(&s, 5, 5), Some(Food { x: 2, y: 1 }));
    assert_eq!(first_free_cell(&Snake::new(), 5, 5), Some(Food { x: 1, y: 1 }));
}

#[test]
fn segments_outside_the_interior_do_not_count() {
    let s = Snake { dir: SnakeDir::RIGHT, body: vec![p(0, 0), p(0, 1), p(9, 9), p(-1, 5)] };
    assert_eq!(first_free_cell(&s, 3, 3), Some(Food { x: 1, y: 1 }));
    assert_eq!(create_food(&s, 3, 3), Some(Food { x: 1, y: 1 }));
}

#[test]
fn a_drawn_cell_is_taken_unless_covered() {
    let s = Snake { dir: SnakeDir::RIGHT, body: vec![p(3, 3), p(2, 3)] };
    assert_eq!(food_on(&s, 4, 3), Some(Food { x: 4, y: 3 }));
    assert_eq!(food_on(&s, 3, 3), None);
    assert_eq!(food_on(&s, 2, 3), None);
    assert_eq!(food_on(&s, 3, 2), Some(Food { x: 3, y: 2 }));
    assert_eq!(food_on(&s, -7, 90), Some(Food { x: -7, y: 90 }));
}

#[test]
fn covers_scans_the_whole_body() {
    let s = Snake { dir: SnakeDir::RIGHT, body: vec![p(3, 3), p(2, 3), p(2, 4)] };
    assert!(s.covers(p(3, 3)));
    assert!(s.covers(p(2, 3)));
    assert!(s.covers(p(2, 4)));
    assert!(!s.covers(p(3, 4)));
    assert!(!s.covers(p(3, 2)));
    assert!(!Snake { dir: SnakeDir::UP, body: vec![] }.covers(p(0, 0)));
}
