use snake_game::food::Food;
use snake_game::game::{Game, Key};
use snake_game::geom::{pixel_origin, Direction, Pos, GRID_MAX};
use snake_game::snake::Snake;

fn pos(x: i32, y: i32) -> Pos {
    Pos { x, y }
}

fn game(body: Vec<Pos>, dir: Direction, alive: bool, food: Pos, paused: bool) -> Game {
    Game {
        snake: Snake { body, dir, alive },
        food: Food { pos: food },
        paused,
    }
}

fn in_grid(p: Pos) -> bool {
    0 <= p.x && p.x <= GRID_MAX && 0 <= p.y && p.y <= GRID_MAX
}

#[test]
fn simple_move_keeps_length() {
    let mut g = game(vec![pos(1, 0), pos(0, 0)], Direction::Right, true, pos(5, 5), false);
    g.update();
    assert_eq!(g.snake.body, vec![pos(2, 0), pos(1, 0)]);
    assert!(g.snake.alive);
    assert_eq!(g.food.pos, pos(5, 5));
}

#[test]
fn degenerate_snake_dies_on_left_wall() {
    let mut g = game(vec![pos(0, 0)], Direction::Left, true, pos(5, 5), false);
    g.update();
    assert_eq!(g.snake.body, vec![pos(-1, 0)]);
    assert!(!g.snake.alive);
}

#[test]
fn space_revives_dead_snake() {
    let mut g = game(vec![pos(-1, 0)], Direction::Left, false, pos(5, 5), false);
    g.pressed(Key::Space);
    assert_eq!(g.snake.body, vec![pos(1, 0), pos(0, 0)]);
    assert_eq!(g.snake.dir, Direction::Right);
    assert!(g.snake.alive);
    assert!(in_grid(g.food.pos));
    assert!(!g.snake.occupies(g.food.pos));
}

#[test]
fn space_while_alive_changes_nothing() {
    let mut g = game(vec![pos(3, 3), pos(2, 3)], Direction::Right, true, pos(5, 5), false);
    g.pressed(Key::Space);
    assert_eq!(g.snake.body, vec![pos(3, 3), pos(2, 3)]);
    assert_eq!(g.snake.dir, Direction::Right);
    assert!(g.snake.alive);
    assert_eq!(g.food.pos, pos(5, 5));
    assert!(!g.paused);
}

#[test]
fn pause_then_resume() {
    let mut g = game(vec![pos(1, 0), pos(0, 0)], Direction::Right, true, pos(5, 5), false);
    g.pressed(Key::P);
    assert!(g.paused);
    g.pressed(Key::R);
    assert!(!g.paused);
    assert_eq!(g.snake.body, vec![pos(1, 0), pos(0, 0)]);
    assert_eq!(g.snake.dir, Direction::Right);
    assert!(g.snake.alive);
    assert_eq!(g.food.pos, pos(5, 5));
}

#[test]
fn pause_and_resume_are_idempotent() {
    let mut g = game(vec![pos(1, 0), pos(0, 0)], Direction::Right, true, pos(5, 5), true);
    g.pressed(Key::P);
    assert!(g.paused);
    g.pressed(Key::R);
    g.pressed(Key::R);
    assert!(!g.paused);
}

#[test]
fn paused_game_does_not_move() {
    let mut g = game(vec![pos(1, 0), pos(0, 0)], Direction::Right, true, pos(5, 5), true);
    g.update();
    assert_eq!(g.snake.body, vec![pos(1, 0), pos(0, 0)]);
    assert!(g.snake.alive);
    assert_eq!(g.food.pos, pos(5, 5));
}

#[test]
fn dead_snake_does_not_move() {
    let mut g = game(vec![pos(7, 7), pos(6, 7)], Direction::Right, false, pos(5, 5), false);
    g.update();
    assert_eq!(g.snake.body, vec![pos(7, 7), pos(6, 7)]);
    assert!(!g.snake.alive);
}

#[test]
fn eating_grows_snake_and_moves_food() {
    let mut g = game(vec![pos(1, 0), pos(0, 0)], Direction::Right, true, pos(2, 0), false);
    g.update();
    assert_eq!(g.snake.body, vec![pos(2, 0), pos(1, 0), pos(0, 0)]);
    assert!(g.snake.alive);
    assert!(in_grid(g.food.pos));
    assert!(!g.snake.occupies(g.food.pos));
}

#[test]
fn gen_food_lands_on_free_grid_cell() {
    let snake = Snake {
        body: vec![pos(0, 0), pos(1, 0), pos(2, 0), pos(3, 0), pos(4, 0)],
        dir: Direction::Right,
        alive: true,
    };
    let mut food = Food { pos: pos(14, 14) };
    for _ in 0..50 {
        food.gen_food(&snake);
        assert!(in_grid(food.pos));
        assert!(!snake.occupies(food.pos));
    }
}

#[test]
fn reversal_is_refused() {
    let mut g = game(vec![pos(1, 0), pos(0, 0)], Direction::Right, true, pos(5, 5), false);
    g.pressed(Key::Left);
    assert_eq!(g.snake.dir, Direction::Right);
    let mut g = game(vec![pos(1, 0), pos(0, 0)], Direction::Up, true, pos(5, 5), false);
    g.pressed(Key::Down);
    assert_eq!(g.snake.dir, Direction::Up);
}

#[test]
fn legal_turns_are_taken() {
    let mut g = game(vec![pos(5, 5), pos(4, 5)], Direction::Right, true, pos(9, 9), false);
    g.pressed(Key::Up);
    assert_eq!(g.snake.dir, Direction::Up);
    g.pressed(Key::Left);
    assert_eq!(g.snake.dir, Direction::Left);
    g.pressed(Key::Down);
    assert_eq!(g.snake.dir, Direction::Down);
    g.pressed(Key::Right);
    assert_eq!(g.snake.dir, Direction::Right);
}

#[test]
fn direction_keys_work_while_dead_or_paused() {
    let mut g = game(vec![pos(1, 0), pos(0, 0)], Direction::Right, false, pos(5, 5), true);
    g.pressed(Key::Up);
    assert_eq!(g.snake.dir, Direction::Up);
    assert!(!g.snake.alive);
    assert!(g.paused);
}

#[test]
fn right_wall_kills() {
    let mut g = game(vec![pos(14, 3), pos(13, 3)], Direction::Right, true, pos(5, 5), false);
    g.update();
    assert_eq!(g.snake.body, vec![pos(15, 3), pos(14, 3)]);
    assert!(!g.snake.alive);
}

#[test]
fn top_wall_kills() {
    let mut g = game(vec![pos(3, 0), pos(3, 1)], Direction::Up, true, pos(5, 5), false);
    g.update();
    assert_eq!(g.snake.body, vec![pos(3, -1), pos(3, 0)]);
    assert!(!g.snake.alive);
}

#[test]
fn self_collision_kills() {
    // A hook of five segments; turning left folds the head onto the body.
    let mut g = game(
        vec![pos(2, 1), pos(2, 0), pos(1, 0), pos(1, 1), pos(1, 2)],
        Direction::Left,
        true,
        pos(9, 9),
        false,
    );
    g.update();
    assert_eq!(
        g.snake.body,
        vec![pos(1, 1), pos(2, 1), pos(2, 0), pos(1, 0), pos(1, 1)]
    );
    assert!(!g.snake.alive);
}

#[test]
fn death_halts_until_revive_then_moves_again() {
    let mut g = game(vec![pos(14, 3), pos(13, 3)], Direction::Right, true, pos(5, 5), false);
    g.update();
    assert!(!g.snake.alive);
    g.update();
    assert_eq!(g.snake.body, vec![pos(15, 3), pos(14, 3)]);
    g.pressed(Key::Space);
    assert!(g.snake.alive);
    g.update();
    assert_eq!(g.snake.body[0], pos(2, 0));
}

#[test]
fn new_game_starts_canonical() {
    let g = Game::new();
    assert_eq!(g.snake.body, vec![pos(1, 0), pos(0, 0)]);
    assert_eq!(g.snake.dir, Direction::Right);
    assert!(g.snake.alive);
    assert!(!g.paused);
    assert!(in_grid(g.food.pos));
    assert!(!g.snake.occupies(g.food.pos));
}

#[test]
fn pixel_origin_scales_by_cell_size() {
    assert_eq!(pixel_origin(pos(3, 2)), (60, 40));
    assert_eq!(pixel_origin(pos(0, 0)), (0, 0));
    assert_eq!(pixel_origin(pos(-1, 14)), (-20, 280));
}

#[test]
fn occupies_reports_membership() {
    let snake = Snake {
        body: vec![pos(1, 0), pos(0, 0)],
        dir: Direction::Right,
        alive: true,
    };
    assert!(snake.occupies(pos(1, 0)));
    assert!(snake.occupies(pos(0, 0)));
    assert!(!snake.occupies(pos(2, 0)));
}

#[test]
fn is_inside_tracks_head() {
    let inside = Snake { body: vec![pos(14, 14)], dir: Direction::Right, alive: true };
    assert!(inside.is_inside());
    let outside = Snake { body: vec![pos(15, 14)], dir: Direction::Right, alive: false };
    assert!(!outside.is_inside());
}
