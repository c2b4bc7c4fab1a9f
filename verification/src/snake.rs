use vstd::prelude::*;

use crate::food::Food;
use crate::geom::{in_grid, spec_step, step, grid_full, Direction, Pos, GRID_MAX};

verus! {

/// No two segments of `body` share a cell.
pub open spec fn no_dup(body: Seq<Pos>) -> bool {
    forall|i: int, j: int| 0 <= i < j < body.len() ==> body[i] != body[j]
}

/// Every segment of `body` lies on the playable grid.
pub open spec fn grid_ok(body: Seq<Pos>) -> bool {
    forall|i: int| 0 <= i < body.len() ==> in_grid(body[i])
}

/// The body right after the new head is pushed, before any tail removal.
pub open spec fn grown_body(body: Seq<Pos>, d: Direction) -> Seq<Pos> {
    seq![spec_step(body.first(), d)] + body
}

/// The body after one tick: the new head is pushed in front, and the
/// tail cell is dropped unless food was eaten on this tick.
pub open spec fn step_body(body: Seq<Pos>, d: Direction, ate: bool) -> Seq<Pos> {
    if ate {
        grown_body(body, d)
    } else {
        grown_body(body, d).drop_last()
    }
}

/// Whether the snake survives the tick: the new head must land on the
/// grid and must not coincide with any non-head segment of the moved body.
pub open spec fn step_alive(body: Seq<Pos>, d: Direction, ate: bool) -> bool {
    let nh = spec_step(body.first(), d);
    in_grid(nh) && !step_body(body, d, ate).drop_first().contains(nh)
}

/// The snake: its segments (head first), its heading, and whether it lives.
#[derive(Clone, Debug)]
pub struct Snake {
    pub body: Vec<Pos>,
    pub dir: Direction,
    pub alive: bool,
}

impl Snake {
    /// The body is never empty.
    pub open spec fn wf(self) -> bool {
        self.body@.len() >= 1
    }

    /// Structural invariant: a living snake lies on the grid without
    /// overlapping itself.
    pub open spec fn inv(self) -> bool {
        self.wf() && (self.alive ==> grid_ok(self.body@) && no_dup(self.body@))
    }

    /// Whether some segment of the body occupies `p`.
    pub fn occupies(&self, p: Pos) -> (r: bool)
        ensures
            r == self.body@.contains(p),
    {
        let mut i: usize = 0;
        while i < self.body.len()
            invariant
                0 <= i <= self.body@.len(),
                forall|j: int| 0 <= j < i ==> self.body@[j] != p,
            decreases self.body@.len() - i,
        {
            if self.body[i] == p {
                return true;
            }
            i += 1;
        }
        proof {
            if self.body@.contains(p) {
                let k = choose|k: int| 0 <= k < self.body@.len() && self.body@[k] == p;
                assert(false);
            }
        }
        false
    }

    /// Whether `p` coincides with a non-head segment of the body.
    fn tail_hits(&self, p: Pos) -> (r: bool)
        requires
            self.wf(),
        ensures
            r == self.body@.drop_first().contains(p),
    {
        let mut i: usize = 1;
        while i < self.body.len()
            invariant
                1 <= i <= self.body@.len(),
                forall|j: int| 1 <= j < i ==> self.body@[j] != p,
            decreases self.body@.len() - i,
        {
            if self.body[i] == p {
                proof {
                    assert(self.body@.drop_first()[i - 1] == p);
                }
                return true;
            }
            i += 1;
        }
        proof {
            if self.body@.drop_first().contains(p) {
                let k = choose|k: int|
                    0 <= k < self.body@.drop_first().len() && self.body@.drop_first()[k] == p;
                assert(self.body@[k + 1] == p);
                assert(false);
            }
        }
        false
    }

    /// Whether the head lies on the playable grid.
    pub fn is_inside(&self) -> (r: bool)
        requires
            self.wf(),
        ensures
            r == in_grid(self.body@.first()),
    {
        let head = self.body[0];
        head.x >= 0 && head.x <= GRID_MAX && head.y >= 0 && head.y <= GRID_MAX
    }

    /// One tick of movement: push the stepped head, drop the tail unless
    /// the head landed on the food (in which case the food is replaced),
    /// then apply the wall check and the self-collision check.
    pub fn update(&mut self, food: &mut Food)
        requires
            old(self).inv(),
            old(self).alive,
        ensures
            final(self).dir == old(self).dir,
            final(self).inv(),
            ({
                let b = old(self).body@;
                let d = old(self).dir;
                let ate = spec_step(b.first(), d) == old(food).pos;
                &&& final(self).body@ == step_body(b, d, ate)
                &&& final(self).alive == step_alive(b, d, ate)
                &&& (!ate ==> *final(food) == *old(food))
                &&& (ate && !grid_full(step_body(b, d, ate)) ==> in_grid(final(food).pos)
                    && !step_body(b, d, ate).contains(final(food).pos))
                &&& (ate && grid_full(step_body(b, d, ate)) ==> *final(food) == *old(food))
            }),
    {
        let ghost b = self.body@;
        let ghost d = self.dir;
        let head = self.body[0];
        let new_head = step(head, self.dir);
        self.body.insert(0, new_head);
        proof {
            assert(self.body@ =~= grown_body(b, d));
        }
        let ate = new_head == food.pos;
        if !ate {
            self.body.pop();
            proof {
                assert(self.body@ =~= step_body(b, d, false));
            }
        } else {
            food.gen_food(&*self);
        }
        if !self.is_inside() {
            self.alive = false;
        }
        proof {
            assert(self.body@.first() == new_head);
        }
        if self.tail_hits(new_head) {
            self.alive = false;
        }
        proof {
            let nb = self.body@;
            assert(nb == step_body(b, d, ate));
            if self.alive {
                assert forall|i: int| 0 <= i < nb.len() implies in_grid(nb[i]) by {
                    if i == 0 {
                        assert(nb[0] == new_head);
                    } else {
                        assert(nb[i] == b[i - 1]);
                    }
                }
                assert forall|i: int, j: int| 0 <= i < j < nb.len() implies nb[i] != nb[j] by {
                    if i == 0 {
                        assert(nb.drop_first()[j - 1] == nb[j]);
                        assert(!nb.drop_first().contains(new_head));
                    } else {
                        assert(nb[i] == b[i - 1]);
                        assert(nb[j] == b[j - 1]);
                    }
                }
            }
        }
    }

    /// Resets the snake to its canonical two-segment starting state.
    pub fn revive(&mut self)
        ensures
            final(self).body@ == seq![Pos { x: 1, y: 0 }, Pos { x: 0, y: 0 }],
            final(self).dir == Direction::Right,
            final(self).alive,
            final(self).inv(),
    {
        self.body = starting_body();
        self.dir = Direction::Right;
        self.alive = true;
    }
}

/// The canonical starting body: head at (1, 0), tail at (0, 0).
pub fn starting_body() -> (v: Vec<Pos>)
    ensures
        v@ == seq![Pos { x: 1, y: 0 }, Pos { x: 0, y: 0 }],
{
    let mut v: Vec<Pos> = Vec::new();
    v.push(Pos { x: 1, y: 0 });
    v.push(Pos { x: 0, y: 0 });
    proof {
        assert(v@ =~= seq![Pos { x: 1, y: 0 }, Pos { x: 0, y: 0 }]);
    }
    v
}

/// Law: one tick never shrinks the body; it grows by exactly one segment
/// on a food tick and keeps its length otherwise.
pub proof fn lemma_body_never_shrinks(body: Seq<Pos>, d: Direction, ate: bool)
    requires
        body.len() >= 1,
    ensures
        step_body(body, d, ate).len() >= body.len(),
        ate ==> step_body(body, d, ate).len() == body.len() + 1,
        !ate ==> step_body(body, d, ate).len() == body.len(),
{
}

/// Law: a move whose head lands one cell outside the grid on either axis
/// leaves the snake dead.
pub proof fn lemma_wall_kills(body: Seq<Pos>, d: Direction, ate: bool)
    requires
        body.len() >= 1,
        ({
            let nh = spec_step(body.first(), d);
            nh.x == -1 || nh.x == GRID_MAX + 1 || nh.y == -1 || nh.y == GRID_MAX + 1
        }),
    ensures
        !step_alive(body, d, ate),
{
}

/// Law: if the new head coincides with a non-head segment of the moved
/// body, the snake is dead after the tick.
pub proof fn lemma_self_collision_kills(body: Seq<Pos>, d: Direction, ate: bool)
    requires
        body.len() >= 1,
        step_body(body, d, ate).drop_first().contains(spec_step(body.first(), d)),
    ensures
        !step_alive(body, d, ate),
{
}

} // verus!
