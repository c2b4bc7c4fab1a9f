use vstd::prelude::*;

use crate::geom::{in_grid, grid_full, Pos, GRID_MAX};
use crate::rng::random_coord;
use crate::snake::Snake;

verus! {

/// The food: a single cell of the grid.
#[derive(Clone, Copy, PartialEq, Eq, Structural, Debug)]
pub struct Food {
    pub pos: Pos,
}

/// Scans the grid row by row for a cell free of the snake's body.
fn find_free(snake: &Snake) -> (r: Option<Pos>)
    ensures
        match r {
            Some(p) => in_grid(p) && !snake.body@.contains(p),
            None => grid_full(snake.body@),
        },
{
    let mut x: i32 = 0;
    while x <= GRID_MAX
        invariant
            0 <= x <= GRID_MAX + 1,
            forall|p: Pos| in_grid(p) && p.x < x ==> snake.body@.contains(p),
        decreases GRID_MAX + 1 - x,
    {
        let mut y: i32 = 0;
        while y <= GRID_MAX
            invariant
                0 <= y <= GRID_MAX + 1,
                0 <= x <= GRID_MAX,
                forall|p: Pos| in_grid(p) && p.x < x ==> snake.body@.contains(p),
                forall|p: Pos| in_grid(p) && p.x == x && p.y < y ==> snake.body@.contains(p),
            decreases GRID_MAX + 1 - y,
        {
            let p = Pos { x, y };
            if !snake.occupies(p) {
                return Some(p);
            }
            y += 1;
        }
        x += 1;
    }
    None
}

impl Food {
    /// Repositions the food on a cell that no snake segment occupies,
    /// drawing cells at random and rejecting occupied ones. Only a snake
    /// covering the whole grid leaves no free cell; the food then stays
    /// where it was.
    pub fn gen_food(&mut self, snake: &Snake)
        ensures
            !grid_full(snake.body@) ==> in_grid(final(self).pos) && !snake.body@.contains(
                final(self).pos,
            ),
            grid_full(snake.body@) ==> *final(self) == *old(self),
    {
        let mut tries: usize = 0;
        while tries < 1000
            invariant
                *self == *old(self),
            decreases 1000 - tries,
        {
            let p = Pos { x: random_coord(), y: random_coord() };
            if !snake.occupies(p) {
                proof {
                    assert(in_grid(p));
                    if grid_full(snake.body@) {
                        assert(snake.body@.contains(p));
                    }
                }
                self.pos = p;
                return;
            }
            tries += 1;
        }
        match find_free(snake) {
            Some(p) => {
                self.pos = p;
            },
            None => {},
        }
    }
}

} // verus!
