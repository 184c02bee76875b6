//! The food: rejection-sampled placement away from the snake's trail,
//! the special-food rule, and the eat/score/speed-boost step.

use vstd::prelude::*;

use crate::geom::{round_unit, round_to_unit, within_tol, Pos};
use crate::rng::rand_below;
use crate::snake::{trail_contains, Snake, MAX_CELL_SIZE};

verus! {

/// The food entity. Coordinates are subunits; `speed_boost` is the speed
/// multiplier in tenths, starting at ten for a multiplier of one and
/// growing by three tenths for every special food eaten.
pub struct Food {
    pub x: i64,
    pub y: i64,
    pub size_w: u32,
    pub size_h: u32,
    pub is_alive: bool,
    pub score: u32,
    pub is_special: bool,
    pub speed_boost: u32,
}

/// How many placement samples one update will try before giving up for the
/// frame. A trail can in principle cover every cell of the screen, so an
/// unbounded rejection loop could fail to terminate; a failed attempt
/// simply leaves the food absent until the next update.
pub const PLACEMENT_TRIES: u32 = 1000;

/// Special food comes up whenever the score entering the update is a
/// multiple of ten.
pub open spec fn is_special_of(score: int) -> bool {
    score % 10 == 0
}

/// Addition capped at `max`, the overflow guard for score and speed.
pub open spec fn capped_add(a: int, b: int, max: int) -> int {
    if a + b > max {
        max
    } else {
        a + b
    }
}

/// Whether food at `(fx, fy)` collides with the snake head at
/// `(head_x, head_y)`: both coordinate differences, taken between the
/// positions rounded to whole screen units, must fall inside the tolerance
/// window scaled by the speed multiplier. The differences are compared
/// against the window after scaling by one hundred, which clears both the
/// subunit scale of the sizes and the tenths scale of the multiplier.
pub open spec fn food_eaten(
    fx: int,
    fy: int,
    head_x: int,
    head_y: int,
    size_w: int,
    size_h: int,
    boost: int,
) -> bool {
    &&& within_tol((round_unit(fy) - round_unit(head_y)) * 100, size_w, size_h, boost)
    &&& within_tol((round_unit(fx) - round_unit(head_x)) * 100, size_w, size_h, boost)
}

/// The eat phase of one update, for food standing at `(fx, fy)`: if the
/// head is within tolerance the food is eaten — special food grants five
/// score points and three tenths of speed, normal food one score point —
/// and the food goes away; otherwise nothing changes.
pub open spec fn eat_step(pre: Food, snake: Snake, fx: int, fy: int, post: Food) -> bool {
    if food_eaten(
        fx,
        fy,
        snake.x as int,
        snake.y as int,
        pre.size_w as int,
        pre.size_h as int,
        pre.speed_boost as int,
    ) {
        &&& !post.is_alive
        &&& if is_special_of(pre.score as int) {
            &&& post.score as int == capped_add(pre.score as int, 5, u32::MAX as int)
            &&& post.speed_boost as int == capped_add(pre.speed_boost as int, 3, u32::MAX as int)
        } else {
            &&& post.score as int == capped_add(pre.score as int, 1, u32::MAX as int)
            &&& post.speed_boost == pre.speed_boost
        }
    } else {
        &&& post.is_alive
        &&& post.score == pre.score
        &&& post.speed_boost == pre.speed_boost
    }
}

/// True when some trail cell lies inside the screen, the only way a
/// placement sample can ever be rejected.
pub open spec fn trail_touches_screen(trail: Seq<Pos>, screen_w: int, screen_h: int) -> bool {
    exists|i: int|
        0 <= i < trail.len() && 0 <= #[trigger] trail[i].x < screen_w && 0 <= trail[i].y
            < screen_h
}

/// The full effect of one food update. Food that is present keeps its
/// place and goes through the eat phase there. Absent food is first placed
/// on some free cell inside the screen, away from every trail cell, and
/// then goes through the eat phase at the new place; only when the trail
/// actually reaches into the screen may the attempt budget run out, in
/// which case the update changes nothing but the special flag and the food
/// stays absent for this frame.
pub open spec fn food_rel(pre: Food, snake: Snake, post: Food, screen_w: int, screen_h: int) -> bool {
    &&& post.is_special == is_special_of(pre.score as int)
    &&& post.size_w == pre.size_w
    &&& post.size_h == pre.size_h
    &&& if pre.is_alive {
        &&& post.x == pre.x
        &&& post.y == pre.y
        &&& eat_step(pre, snake, pre.x as int, pre.y as int, post)
    } else {
        ||| (exists|p: Pos|
            {
                &&& 0 <= p.x < screen_w
                &&& 0 <= p.y < screen_h
                &&& !(#[trigger] snake.positions@.contains(p))
                &&& post.x == p.x
                &&& post.y == p.y
                &&& eat_step(pre, snake, p.x as int, p.y as int, post)
            })
        ||| {
            &&& trail_touches_screen(snake.positions@, screen_w, screen_h)
            &&& post.x == pre.x
            &&& post.y == pre.y
            &&& !post.is_alive
            &&& post.score == pre.score
            &&& post.speed_boost == pre.speed_boost
        }
    }
}

/// Draws uniform positions inside the screen until one misses every trail
/// cell, giving up after `PLACEMENT_TRIES` attempts. A returned position
/// never collides with the trail; and unless some trail cell lies inside
/// the screen — in particular, whenever the trail is empty — the very
/// first sample is free, so placement is guaranteed to succeed.
pub fn respawn_position(
    rng: &mut rand::rngs::ThreadRng,
    screen_w: u32,
    screen_h: u32,
    trail: &Vec<Pos>,
) -> (r: Option<Pos>)
    requires
        screen_w >= 1,
        screen_h >= 1,
    ensures
        r matches Some(p) ==> {
            &&& 0 <= p.x < screen_w
            &&& 0 <= p.y < screen_h
            &&& !trail@.contains(p)
        },
        !trail_touches_screen(trail@, screen_w as int, screen_h as int) ==> r is Some,
{
    let mut tries: u32 = 0;
    while tries < PLACEMENT_TRIES
        invariant
            screen_w >= 1,
            screen_h >= 1,
            tries >= 1 ==> trail_touches_screen(trail@, screen_w as int, screen_h as int),
        decreases PLACEMENT_TRIES - tries,
    {
        let x = rand_below(rng, screen_w);
        let y = rand_below(rng, screen_h);
        let p = Pos { x: x as i64, y: y as i64 };
        if !trail_contains(trail, p) {
            return Some(p);
        }
        proof {
            // the rejected sample is an in-screen cell of the trail
            let i = choose|i: int| 0 <= i < trail@.len() && trail@[i] == p;
            assert(0 <= trail@[i].x < screen_w as int && 0 <= trail@[i].y < screen_h as int);
            assert(trail_touches_screen(trail@, screen_w as int, screen_h as int));
        }
        tries = tries + 1;
    }
    None
}

impl Food {
    /// Well-formedness: positive bounded cell size, the score counter at
    /// least one, and a position inside the screen band.
    pub open spec fn wf(&self) -> bool {
        &&& 0 < self.size_w <= MAX_CELL_SIZE
        &&& 0 < self.size_h <= MAX_CELL_SIZE
        &&& self.score >= 1
        &&& 0 <= self.x <= u32::MAX as int
        &&& 0 <= self.y <= u32::MAX as int
    }

    /// One food update against the given snake: place the food if it is
    /// absent, recompute the special flag from the score, and run the eat
    /// check against the snake's head.
    pub fn food(&mut self, snake: &Snake, rng: &mut rand::rngs::ThreadRng, screen_w: u32, screen_h: u32)
        requires
            old(self).wf(),
            snake.wf(),
            screen_w >= 1,
            screen_h >= 1,
        ensures
            final(self).wf(),
            food_rel(*old(self), *snake, *final(self), screen_w as int, screen_h as int),
    {
        let ghost pre = *old(self);
        let ghost mut placed: Option<Pos> = None;
        if !self.is_alive {
            match respawn_position(rng, screen_w, screen_h, &snake.positions) {
                Some(p) => {
                    self.x = p.x;
                    self.y = p.y;
                    self.is_alive = true;
                    proof {
                        placed = Some(p);
                    }
                },
                None => {
                    self.is_special = self.score % 10 == 0;
                    return ;
                },
            }
        }
        self.is_special = self.score % 10 == 0;

        let eaten = eaten_here(self.x, self.y, snake, self.size_w, self.size_h, self.speed_boost);
        if eaten {
            if self.is_special {
                self.score = if self.score > u32::MAX - 5 {
                    u32::MAX
                } else {
                    self.score + 5
                };
                self.speed_boost = if self.speed_boost > u32::MAX - 3 {
                    u32::MAX
                } else {
                    self.speed_boost + 3
                };
            } else {
                self.score = if self.score > u32::MAX - 1 {
                    u32::MAX
                } else {
                    self.score + 1
                };
            }
            self.is_alive = false;
        }

        proof {
            if !pre.is_alive {
                let p = placed->Some_0;
                assert(food_rel(pre, *snake, *self, screen_w as int, screen_h as int)) by {
                    assert({
                        &&& 0 <= p.x < screen_w as int
                        &&& 0 <= p.y < screen_h as int
                        &&& !snake.positions@.contains(p)
                        &&& self.x == p.x
                        &&& self.y == p.y
                        &&& eat_step(pre, *snake, p.x as int, p.y as int, *self)
                    });
                }
            }
        }
    }
}

/// Runs the tolerance-window check between a food position and the snake
/// head, exactly as `food_eaten` states it.
fn eaten_here(fx: i64, fy: i64, snake: &Snake, size_w: u32, size_h: u32, boost: u32) -> (r: bool)
    requires
        snake.wf(),
        0 <= fx <= u32::MAX as int,
        0 <= fy <= u32::MAX as int,
        size_w <= MAX_CELL_SIZE,
        size_h <= MAX_CELL_SIZE,
    ensures
        r == food_eaten(
            fx as int,
            fy as int,
            snake.x as int,
            snake.y as int,
            size_w as int,
            size_h as int,
            boost as int,
        ),
{
    let dy: i64 = (round_to_unit(fy) - round_to_unit(snake.y)) * 100;
    let dx: i64 = (round_to_unit(fx) - round_to_unit(snake.x)) * 100;
    proof {
        assert((size_w as int) * (boost as int) <= 0x10_0000_0000_0000) by (nonlinear_arith)
            requires
                size_w <= MAX_CELL_SIZE,
                boost <= u32::MAX,
        ;
        assert((size_h as int) * (boost as int) <= 0x10_0000_0000_0000) by (nonlinear_arith)
            requires
                size_h <= MAX_CELL_SIZE,
                boost <= u32::MAX,
        ;
        assert((size_w as int) * (boost as int) >= 0 && (size_h as int) * (boost as int) >= 0)
            by (nonlinear_arith);
    }
    let lo: i64 = -((size_w as i64) * (boost as i64));
    let hi: i64 = (size_h as i64) * (boost as i64);
    lo <= dy && dy <= hi && lo <= dx && dx <= hi
}

impl Default for Food {
    /// Fresh food: absent, at the origin, the same cell size as a fresh
    /// snake, the score counter at one, and a speed multiplier of one.
    fn default() -> (f: Food)
        ensures
            f.wf(),
            f.x == 0,
            f.y == 0,
            f.size_w == 100,
            f.size_h == 100,
            !f.is_alive,
            f.score == 1,
            !f.is_special,
            f.speed_boost == 10,
    {
        Food {
            x: 0,
            y: 0,
            size_w: 100,
            size_h: 100,
            is_alive: false,
            score: 1,
            is_special: false,
            speed_boost: 10,
        }
    }
}

/// The score as shown on screen: the counter starts at one, so the display
/// reads one less.
pub fn display_score(food: &Food) -> (r: u32)
    requires
        food.wf(),
    ensures
        r == food.score - 1,
{
    food.score - 1
}

} // verus!
