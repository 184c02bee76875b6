//! Static obstacles: a fixed set of randomly placed cells, generated once
//! per session, with a per-frame proximity flag against the snake's head.

use vstd::prelude::*;

use crate::food::Food;
use crate::geom::{within_tol, Pos};
use crate::rng::rand_below;
use crate::snake::{Snake, MAX_CELL_SIZE};

verus! {

/// The obstacle set. The positions never change after generation; only the
/// hit flag is recomputed each frame.
pub struct Obstacle {
    pub pos_list: Vec<Pos>,
    pub is_hit: bool,
    pub size_w: u32,
    pub size_h: u32,
}

/// Whether the obstacle cell at `p` is close enough to the snake head to
/// count as hit: both raw coordinate differences must fall inside the
/// tolerance window scaled by the speed multiplier. Unlike the food check,
/// the differences are not rounded first; scaling them by ten clears the
/// tenths scale of the multiplier against the subunit scale of the sizes.
pub open spec fn hit_at(
    p: Pos,
    head_x: int,
    head_y: int,
    size_w: int,
    size_h: int,
    boost: int,
) -> bool {
    &&& within_tol((p.x - head_x) * 10, size_w, size_h, boost)
    &&& within_tol((p.y - head_y) * 10, size_w, size_h, boost)
}

/// Whether any obstacle cell is hit by the snake head.
pub open spec fn any_hit(o: Obstacle, snake: Snake, boost: int) -> bool {
    exists|i: int|
        0 <= i < o.pos_list@.len() && hit_at(
            #[trigger] o.pos_list@[i],
            snake.x as int,
            snake.y as int,
            o.size_w as int,
            o.size_h as int,
            boost,
        )
}

/// The full effect of one obstacle update: the cells and sizes are
/// untouched and the hit flag is recomputed against the snake head.
pub open spec fn obstacle_rel(pre: Obstacle, post: Obstacle, snake: Snake, boost: int) -> bool {
    &&& post.pos_list@ == pre.pos_list@
    &&& post.size_w == pre.size_w
    &&& post.size_h == pre.size_h
    &&& post.is_hit == any_hit(pre, snake, boost)
}

impl Obstacle {
    /// Well-formedness: positive bounded cell size and every cell inside
    /// the screen band.
    pub open spec fn wf(&self) -> bool {
        &&& 0 < self.size_w <= MAX_CELL_SIZE
        &&& 0 < self.size_h <= MAX_CELL_SIZE
        &&& forall|i: int|
            0 <= i < self.pos_list@.len() ==> {
                &&& 0 <= #[trigger] self.pos_list@[i].x <= u32::MAX as int
                &&& 0 <= self.pos_list@[i].y <= u32::MAX as int
            }
    }

    /// Generates one more than `object_count` obstacle cells uniformly over
    /// the screen (none for a negative count). The set is fixed for the
    /// whole session.
    pub fn generate_obstacles(
        object_count: i8,
        rng: &mut rand::rngs::ThreadRng,
        screen_w: u32,
        screen_h: u32,
    ) -> (r: Obstacle)
        requires
            screen_w >= 1,
            screen_h >= 1,
        ensures
            r.wf(),
            r.pos_list@.len() == if object_count >= 0 {
                object_count as int + 1
            } else {
                0
            },
            forall|i: int|
                0 <= i < r.pos_list@.len() ==> {
                    &&& 0 <= #[trigger] r.pos_list@[i].x < screen_w
                    &&& 0 <= r.pos_list@[i].y < screen_h
                },
            !r.is_hit,
            r.size_w == 100,
            r.size_h == 100,
    {
        let count: usize = if object_count >= 0 {
            (object_count as usize) + 1
        } else {
            0
        };
        let mut obs_list: Vec<Pos> = Vec::new();
        let mut i: usize = 0;
        while i < count
            invariant
                screen_w >= 1,
                screen_h >= 1,
                i <= count,
                obs_list@.len() == i,
                forall|j: int|
                    0 <= j < obs_list@.len() ==> {
                        &&& 0 <= #[trigger] obs_list@[j].x < screen_w
                        &&& 0 <= obs_list@[j].y < screen_h
                    },
            decreases count - i,
        {
            let y = rand_below(rng, screen_h);
            let x = rand_below(rng, screen_w);
            obs_list.push(Pos { x: x as i64, y: y as i64 });
            i = i + 1;
        }
        Obstacle { pos_list: obs_list, is_hit: false, size_w: 100, size_h: 100 }
    }

    /// One obstacle update: recompute the hit flag from the snake's head
    /// position and the current speed multiplier carried by the food.
    pub fn exist(&mut self, snake: &Snake, food: &Food)
        requires
            old(self).wf(),
            snake.wf(),
        ensures
            final(self).wf(),
            obstacle_rel(*old(self), *final(self), *snake, food.speed_boost as int),
    {
        proof {
            assert((self.size_w as int) * (food.speed_boost as int) <= 0x10_0000_0000_0000
                && (self.size_w as int) * (food.speed_boost as int) >= 0) by (nonlinear_arith)
                requires
                    self.size_w <= MAX_CELL_SIZE,
                    food.speed_boost <= u32::MAX,
            ;
            assert((self.size_h as int) * (food.speed_boost as int) <= 0x10_0000_0000_0000
                && (self.size_h as int) * (food.speed_boost as int) >= 0) by (nonlinear_arith)
                requires
                    self.size_h <= MAX_CELL_SIZE,
                    food.speed_boost <= u32::MAX,
            ;
        }
        let lo: i64 = -((self.size_w as i64) * (food.speed_boost as i64));
        let hi: i64 = (self.size_h as i64) * (food.speed_boost as i64);

        let mut hit = false;
        let mut i: usize = 0;
        while i < self.pos_list.len()
            invariant
                old(self).wf(),
                *self == *old(self),
                0 <= i <= self.pos_list@.len(),
                snake.wf(),
                lo == -((self.size_w as int) * (food.speed_boost as int)),
                hi == (self.size_h as int) * (food.speed_boost as int),
                hit == exists|j: int|
                    0 <= j < i && hit_at(
                        #[trigger] self.pos_list@[j],
                        snake.x as int,
                        snake.y as int,
                        self.size_w as int,
                        self.size_h as int,
                        food.speed_boost as int,
                    ),
            decreases self.pos_list@.len() - i,
        {
            let p = self.pos_list[i];
            let dx: i64 = (p.x - snake.x) * 10;
            let dy: i64 = (p.y - snake.y) * 10;
            if lo <= dx && dx <= hi && lo <= dy && dy <= hi {
                proof {
                    assert(hit_at(
                        self.pos_list@[i as int],
                        snake.x as int,
                        snake.y as int,
                        self.size_w as int,
                        self.size_h as int,
                        food.speed_boost as int,
                    ));
                }
                hit = true;
            }
            i = i + 1;
        }
        self.is_hit = hit;
    }
}

impl Default for Obstacle {
    /// An empty obstacle set with the standard cell size and no hit.
    fn default() -> (o: Obstacle)
        ensures
            o.wf(),
            o.pos_list@ == Seq::<Pos>::empty(),
            !o.is_hit,
            o.size_w == 100,
            o.size_h == 100,
    {
        Obstacle { pos_list: Vec::new(), is_hit: false, size_w: 100, size_h: 100 }
    }
}

} // verus!
