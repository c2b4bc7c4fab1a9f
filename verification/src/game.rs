use vstd::prelude::*;

use crate::food::Food;
use crate::geom::{in_grid, spec_step, grid_full, Direction, Pos};
use crate::snake::{step_alive, step_body, starting_body, Snake};

verus! {

/// The keys the game reacts to; any other key is ignored by the caller.
#[derive(Clone, Copy, PartialEq, Eq, Structural, Debug)]
pub enum Key {
    Up,
    Down,
    Left,
    Right,
    Space,
    P,
    R,
}

/// The heading after a key press: a direction key turns the snake unless
/// it points straight back at the current heading; any other key, or a
/// forbidden reversal, keeps the heading.
pub open spec fn dir_after(cur: Direction, key: Key) -> Direction {
    if key == Key::Up && cur != Direction::Down {
        Direction::Up
    } else if key == Key::Down && cur != Direction::Up {
        Direction::Down
    } else if key == Key::Right && cur != Direction::Left {
        Direction::Right
    } else if key == Key::Left && cur != Direction::Right {
        Direction::Left
    } else {
        cur
    }
}

/// The pause flag after a key press: P pauses, R resumes, anything else
/// leaves it alone; both are idempotent sets, not toggles.
pub open spec fn paused_after(cur: bool, key: Key) -> bool {
    if key == Key::P {
        true
    } else if key == Key::R {
        false
    } else {
        cur
    }
}

/// Law: no key press ever turns the heading into the exact opposite of
/// the heading the snake had before the press.
pub proof fn lemma_no_reverse(cur: Direction, key: Key)
    ensures
        dir_after(cur, key) != cur.opposite(),
{
}

/// The whole game: one snake, one food cell, and the pause flag.
#[derive(Clone, Debug)]
pub struct Game {
    pub snake: Snake,
    pub food: Food,
    pub paused: bool,
}

impl Game {
    /// Structural invariant: the snake is well formed and the food lies
    /// on the grid.
    pub open spec fn inv(self) -> bool {
        self.snake.inv() && in_grid(self.food.pos)
    }

    /// A fresh game: the canonical snake, food on a free cell, running.
    pub fn new() -> (g: Game)
        ensures
            g.inv(),
            g.snake.body@ == seq![Pos { x: 1, y: 0 }, Pos { x: 0, y: 0 }],
            g.snake.dir == Direction::Right,
            g.snake.alive,
            !g.paused,
            !g.snake.body@.contains(g.food.pos),
    {
        let snake = Snake { body: starting_body(), dir: Direction::Right, alive: true };
        let mut food = Food { pos: Pos { x: 0, y: 0 } };
        proof {
            lemma_two_cells_leave_room(snake.body@);
        }
        food.gen_food(&snake);
        Game { snake, food, paused: false }
    }

    /// One tick: while the snake lives and the game runs, advance it one
    /// cell; a dead snake or a paused game changes nothing.
    pub fn update(&mut self)
        requires
            old(self).inv(),
        ensures
            final(self).inv(),
            final(self).paused == old(self).paused,
            !(old(self).snake.alive && !old(self).paused) ==> *final(self) == *old(self),
            (old(self).snake.alive && !old(self).paused) ==> ({
                let b = old(self).snake.body@;
                let d = old(self).snake.dir;
                let ate = spec_step(b.first(), d) == old(self).food.pos;
                &&& final(self).snake.dir == d
                &&& final(self).snake.body@ == step_body(b, d, ate)
                &&& final(self).snake.alive == step_alive(b, d, ate)
                &&& (!ate ==> final(self).food == old(self).food)
                &&& (ate && !grid_full(step_body(b, d, ate)) ==> in_grid(final(self).food.pos)
                    && !step_body(b, d, ate).contains(final(self).food.pos))
                &&& (ate && grid_full(step_body(b, d, ate)) ==> final(self).food == old(
                    self,
                ).food)
            }),
    {
        if self.snake.alive && !self.paused {
            self.snake.update(&mut self.food);
        }
    }

    /// One key press: direction keys steer under the no-reverse guard;
    /// Space revives a dead snake and replaces the food; P pauses and R
    /// resumes. A revival overrides the heading with the starting one.
    pub fn pressed(&mut self, key: Key)
        requires
            old(self).inv(),
        ensures
            final(self).inv(),
            final(self).paused == paused_after(old(self).paused, key),
            (key == Key::Space && !old(self).snake.alive) ==> ({
                &&& final(self).snake.body@ == seq![Pos { x: 1, y: 0 }, Pos { x: 0, y: 0 }]
                &&& final(self).snake.dir == Direction::Right
                &&& final(self).snake.alive
                &&& in_grid(final(self).food.pos)
                &&& !final(self).snake.body@.contains(final(self).food.pos)
            }),
            !(key == Key::Space && !old(self).snake.alive) ==> ({
                &&& final(self).snake.dir == dir_after(old(self).snake.dir, key)
                &&& final(self).snake.body@ == old(self).snake.body@
                &&& final(self).snake.alive == old(self).snake.alive
                &&& final(self).food == old(self).food
            }),
    {
        let last = self.snake.dir;
        self.snake.dir = match key {
            Key::Up => if last != Direction::Down {
                Direction::Up
            } else {
                last
            },
            Key::Down => if last != Direction::Up {
                Direction::Down
            } else {
                last
            },
            Key::Right => if last != Direction::Left {
                Direction::Right
            } else {
                last
            },
            Key::Left => if last != Direction::Right {
                Direction::Left
            } else {
                last
            },
            Key::Space | Key::P | Key::R => last,
        };
        if key == Key::Space && !self.snake.alive {
            self.snake.revive();
            proof {
                lemma_two_cells_leave_room(self.snake.body@);
            }
            self.food.gen_food(&self.snake);
        }
        if key == Key::P {
            self.paused = true;
        }
        if key == Key::R {
            self.paused = false;
        }
    }
}

/// A two-segment body cannot cover the grid: the cell (5, 5) differs from
/// both starting segments.
proof fn lemma_two_cells_leave_room(body: Seq<Pos>)
    requires
        body == seq![Pos { x: 1, y: 0 }, Pos { x: 0, y: 0 }],
    ensures
        !grid_full(body),
{
    let w = Pos { x: 5, y: 5 };
    assert(in_grid(w));
    if body.contains(w) {
        let k = choose|k: int| 0 <= k < body.len() && body[k] == w;
        assert(false);
    }
    assert(!body.contains(w));
}

} // verus!
