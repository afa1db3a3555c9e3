//! The game-state model: the grid, the snake, the food and the loss flag,
//! together with the single deterministic tick operation `update`.

use std::collections::VecDeque;

use rand::Rng;
use vstd::prelude::*;

verus! {

/// A grid cell or a grid dimension: an integer pair.
#[derive(Clone, Copy, PartialEq, Eq, Structural, Debug)]
pub struct Vec2 {
    pub x: i32,
    pub y: i32,
}

impl Vec2 {
    pub fn xy(x: i32, y: i32) -> (r: Vec2)
        ensures
            r == (Vec2 { x, y }),
    {
        Vec2 { x, y }
    }
}

/// The heading of travel: a closed set of four variants, so no invalid
/// direction can ever be represented.
#[derive(Clone, Copy, PartialEq, Eq, Structural, Debug)]
pub enum Direction {
    Up,
    Down,
    Left,
    Right,
}

/// The player's part of the state: the snake's segments (front = head,
/// back = tail) and the current heading.
pub struct PlayerState {
    pub snake: VecDeque<Vec2>,
    pub direction: Direction,
}

/// The whole game state: grid dimension, player, food cell and loss flag.
pub struct GameState {
    pub dimension: Vec2,
    pub player: PlayerState,
    pub food: Vec2,
    pub has_lost: bool,
}

/// Food always lies strictly inside the boundary ring.
pub open spec fn in_interior(p: Vec2, dim: Vec2) -> bool {
    &&& 1 <= p.x <= dim.x - 2
    &&& 1 <= p.y <= dim.y - 2
}

impl GameState {
    /// The head segment.
    pub open spec fn head(self) -> Vec2
        recommends
            self.player.snake@.len() >= 1,
    {
        self.player.snake@[0]
    }

    /// A cell lies on the grid.
    pub open spec fn in_bounds(self, p: Vec2) -> bool {
        &&& 0 <= p.x < self.dimension.x
        &&& 0 <= p.y < self.dimension.y
    }

    /// Moving the head one cell in any direction stays within `i32`.
    pub open spec fn step_fits(self) -> bool {
        &&& i32::MIN < self.head().x < i32::MAX
        &&& i32::MIN < self.head().y < i32::MAX
    }

    /// The cell the head moves into on the next tick.
    pub open spec fn candidate(self) -> Vec2
        recommends
            self.player.snake@.len() >= 1,
    {
        let h = self.head();
        match self.player.direction {
            Direction::Up => (Vec2 { x: h.x, y: (h.y - 1) as i32 }),
            Direction::Down => (Vec2 { x: h.x, y: (h.y + 1) as i32 }),
            Direction::Left => (Vec2 { x: (h.x - 1) as i32, y: h.y }),
            Direction::Right => (Vec2 { x: (h.x + 1) as i32, y: h.y }),
        }
    }

    /// Well-formedness: the grid admits an interior, the snake is never
    /// empty, the food is interior, and while the game is not lost every
    /// segment lies on the grid.
    pub open spec fn wf(self) -> bool {
        &&& 3 <= self.dimension.x
        &&& 3 <= self.dimension.y
        &&& self.player.snake@.len() >= 1
        &&& in_interior(self.food, self.dimension)
        &&& (!self.has_lost ==> forall|i: int|
            0 <= i < self.player.snake@.len() ==> self.in_bounds(
                #[trigger] self.player.snake@[i],
            ))
    }

    /// A fresh state: a one-segment snake at the grid center, heading
    /// right, food placed uniformly in the interior, not lost.
    pub fn new(dim: Vec2) -> (r: GameState)
        requires
            3 <= dim.x,
            3 <= dim.y,
        ensures
            r.wf(),
            r.dimension == dim,
            r.player.snake@ == seq![Vec2 { x: (dim.x / 2) as i32, y: (dim.y / 2) as i32 }],
            r.player.direction == Direction::Right,
            !r.has_lost,
            in_interior(r.food, dim),
    {
        let mut snake: VecDeque<Vec2> = VecDeque::new();
        snake.push_front(Vec2 { x: dim.x / 2, y: dim.y / 2 });
        GameState {
            dimension: dim,
            player: PlayerState { snake, direction: Direction::Right },
            food: Self::rand_food_position(dim),
            has_lost: false,
        }
    }

    /// One logical tick. In order: compute the cell ahead of the head; flag
    /// a loss on self-collision; flag a loss on leaving the grid; push the
    /// candidate cell onto the front unconditionally (so the rendered shape
    /// at loss time keeps it); then either respawn the food (candidate was
    /// the food cell: the snake grows by one) or drop the tail (plain move:
    /// the length is unchanged).
    pub fn update(&mut self)
        requires
            old(self).wf(),
            old(self).has_lost ==> old(self).step_fits(),
        ensures
            final(self).wf(),
            final(self).dimension == old(self).dimension,
            final(self).player.direction == old(self).player.direction,
            final(self).has_lost == (old(self).has_lost || old(self).player.snake@.contains(
                old(self).candidate(),
            ) || !old(self).in_bounds(old(self).candidate())),
            old(self).candidate() == old(self).food ==> {
                &&& final(self).player.snake@ == seq![old(self).candidate()]
                    + old(self).player.snake@
                &&& in_interior(final(self).food, old(self).dimension)
            },
            old(self).candidate() != old(self).food ==> {
                &&& final(self).player.snake@ == seq![old(self).candidate()]
                    + old(self).player.snake@.drop_last()
                &&& final(self).food == old(self).food
            },
            final(self).player.snake@.len() == old(self).player.snake@.len()
                || final(self).player.snake@.len() == old(self).player.snake@.len() + 1,
            old(self).has_lost ==> final(self).has_lost,
            !old(self).in_bounds(old(self).candidate()) ==> final(self).has_lost,
            old(self).player.snake@.contains(old(self).candidate()) ==> final(self).has_lost,
    {
        proof {
            if !self.has_lost {
                assert(self.in_bounds(self.player.snake@[0]));
            }
        }
        let front: Vec2 = self.player.snake[0];

        let updated_front: Vec2 = match self.player.direction {
            Direction::Up => Vec2 { x: front.x, y: front.y - 1 },
            Direction::Down => Vec2 { x: front.x, y: front.y + 1 },
            Direction::Left => Vec2 { x: front.x - 1, y: front.y },
            Direction::Right => Vec2 { x: front.x + 1, y: front.y },
        };

        // If the snake ran over itself, trigger loss
        if deque_contains(&self.player.snake, updated_front) {
            self.has_lost = true;
        }
        // If the snake hit the boundary, trigger loss
        if updated_front.x < 0 || updated_front.y < 0 || updated_front.x >= self.dimension.x
            || updated_front.y >= self.dimension.y {
            self.has_lost = true;
        }
        self.player.snake.push_front(updated_front);

        if updated_front == self.food {
            self.food = Self::rand_food_position(self.dimension);
        } else {
            let _tail = self.player.snake.pop_back();
            proof {
                assert(self.player.snake@ =~= seq![old(self).candidate()]
                    + old(self).player.snake@.drop_last());
            }
        }
        proof {
            if !self.has_lost {
                assert forall|i: int|
                    0 <= i < self.player.snake@.len() implies self.in_bounds(
                    #[trigger] self.player.snake@[i],
                ) by {
                    if i > 0 {
                        assert(self.player.snake@[i] == old(self).player.snake@[i - 1]);
                    }
                }
            }
        }
    }

    /// The score shown to the player: the snake's length.
    pub fn score(&self) -> (r: usize)
        ensures
            r == self.player.snake@.len(),
    {
        self.player.snake.len()
    }

    /// A runtime check of `update`'s precondition, for a host that mutates
    /// or constructs states outside this library's constructors.
    pub fn can_update(&self) -> (r: bool)
        ensures
            r == (self.wf() && (self.has_lost ==> self.step_fits())),
    {
        if self.dimension.x < 3 || self.dimension.y < 3 {
            return false;
        }
        if self.player.snake.len() < 1 {
            return false;
        }
        if self.food.x < 1 || self.food.x > self.dimension.x - 2 || self.food.y < 1
            || self.food.y > self.dimension.y - 2 {
            return false;
        }
        if self.has_lost {
            let h: Vec2 = self.player.snake[0];
            return h.x > i32::MIN && h.x < i32::MAX && h.y > i32::MIN && h.y < i32::MAX;
        }
        let mut i: usize = 0;
        while i < self.player.snake.len()
            invariant
                !self.has_lost,
                3 <= self.dimension.x,
                3 <= self.dimension.y,
                self.player.snake@.len() >= 1,
                in_interior(self.food, self.dimension),
                0 <= i <= self.player.snake@.len(),
                forall|j: int|
                    0 <= j < i ==> self.in_bounds(#[trigger] self.player.snake@[j]),
            decreases self.player.snake@.len() - i,
        {
            let p: Vec2 = self.player.snake[i];
            if p.x < 0 || p.x >= self.dimension.x || p.y < 0 || p.y >= self.dimension.y {
                proof {
                    assert(!self.in_bounds(self.player.snake@[i as int]));
                }
                return false;
            }
            i = i + 1;
        }
        true
    }

    /// A uniformly random interior cell. No rejection against current snake
    /// occupancy: the food may land on an occupied cell.
    pub fn rand_food_position(dim: Vec2) -> (r: Vec2)
        requires
            3 <= dim.x,
            3 <= dim.y,
        ensures
            in_interior(r, dim),
    {
        Vec2 { x: rand_in_range(1, dim.x - 1), y: rand_in_range(1, dim.y - 1) }
    }
}

/// Whether the deque holds the given cell.
fn deque_contains(s: &VecDeque<Vec2>, p: Vec2) -> (r: bool)
    ensures
        r == s@.contains(p),
{
    let mut i: usize = 0;
    while i < s.len()
        invariant
            0 <= i <= s@.len(),
            forall|j: int| 0 <= j < i ==> s@[j] != p,
        decreases s@.len() - i,
    {
        if s[i] == p {
            assert(s@.contains(p)) by {
                assert(s@[i as int] == p);
            }
            return true;
        }
        i = i + 1;
    }
    false
}

/// Relies on rand's `thread_rng` and `Rng::gen_range`: a draw from the
/// half-open range `lo..hi` always lies within that range (and `gen_range`
/// panics on an empty range, which the precondition rules out).
#[verifier::external_body]
fn rand_in_range(lo: i32, hi: i32) -> (r: i32)
    requires
        lo < hi,
    ensures
        lo <= r < hi,
{
    rand::thread_rng().gen_range(lo..hi)
}

} // verus!
