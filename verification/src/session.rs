//! One play-through: a snake, one food, and a fixed obstacle set, with the
//! per-frame update order and the termination condition.
//!
//! The frame loop outside the library draws the state, waits for the next
//! frame, polls the keyboard once into a [`KeySet`](crate::controls::KeySet)
//! snapshot, and then calls [`Session::tick`]; when `tick` reports the
//! session is over, a fresh session is started.

use vstd::prelude::*;

use crate::controls::KeySet;
use crate::food::{eat_step, food_rel, Food};
use crate::obstacle::{obstacle_rel, Obstacle};
use crate::snake::{lemma_trail_step, snake_rel, trail_next, Snake};

verus! {

/// How many obstacle cells beyond the first a fresh session generates.
pub const OBSTACLE_COUNT: i8 = 20;

/// The state of one session.
pub struct Session {
    pub snake: Snake,
    pub food: Food,
    pub obstacle: Obstacle,
}

impl Session {
    /// Well-formedness of every component.
    pub open spec fn wf(&self) -> bool {
        &&& self.snake.wf()
        &&& self.food.wf()
        &&& self.obstacle.wf()
    }

    /// Starts a fresh session: a default snake and food, and a newly
    /// generated obstacle set.
    pub fn new(rng: &mut rand::rngs::ThreadRng, screen_w: u32, screen_h: u32) -> (s: Session)
        requires
            screen_w >= 1,
            screen_h >= 1,
        ensures
            s.wf(),
            s.snake.x == 0 && s.snake.y == 0,
            s.snake.direction == crate::controls::Heading::Right,
            s.snake.positions@.len() == 0,
            s.snake.is_alive,
            !s.food.is_alive,
            s.food.score == 1,
            !s.food.is_special,
            s.food.speed_boost == 10,
            s.obstacle.pos_list@.len() == OBSTACLE_COUNT as int + 1,
            !s.obstacle.is_hit,
            s.snake.positions@.len() < s.food.score * 100,
    {
        Session {
            snake: Snake::default(),
            food: Food::default(),
            obstacle: Obstacle::generate_obstacles(OBSTACLE_COUNT, rng, screen_w, screen_h),
        }
    }

    /// One frame of the game, in the fixed order: update the food against
    /// the snake as it stood when the frame began, move the snake under
    /// the just-updated score and speed, recompute the obstacle hit flag
    /// against the moved snake, and report whether the session is over —
    /// which it is exactly when the snake has died or an obstacle is hit.
    pub fn tick(
        &mut self,
        keys: &KeySet,
        rng: &mut rand::rngs::ThreadRng,
        screen_w: u32,
        screen_h: u32,
    ) -> (done: bool)
        requires
            old(self).wf(),
            screen_w >= 1,
            screen_h >= 1,
        ensures
            final(self).wf(),
            food_rel(
                old(self).food,
                old(self).snake,
                final(self).food,
                screen_w as int,
                screen_h as int,
            ),
            snake_rel(
                old(self).snake,
                final(self).snake,
                *keys,
                final(self).food.score as int,
                final(self).food.speed_boost as int,
                screen_w as int,
                screen_h as int,
            ),
            obstacle_rel(
                old(self).obstacle,
                final(self).obstacle,
                final(self).snake,
                final(self).food.speed_boost as int,
            ),
            done == (!final(self).snake.is_alive || final(self).obstacle.is_hit),
    {
        self.food.food(&self.snake, rng, screen_w, screen_h);
        self.snake.snake(keys, self.food.score, self.food.speed_boost, screen_w, screen_h);
        self.obstacle.exist(&self.snake, &self.food);
        !self.snake.is_alive || self.obstacle.is_hit
    }
}

/// One food update never lowers the score.
pub proof fn lemma_score_never_drops(
    pre: Food,
    snake: Snake,
    post: Food,
    screen_w: int,
    screen_h: int,
)
    requires
        food_rel(pre, snake, post, screen_w, screen_h),
    ensures
        post.score >= pre.score,
{
    if pre.is_alive {
        assert(eat_step(pre, snake, pre.x as int, pre.y as int, post));
    } else if exists|p: crate::geom::Pos|
        {
            &&& 0 <= p.x < screen_w
            &&& 0 <= p.y < screen_h
            &&& !(#[trigger] snake.positions@.contains(p))
            &&& post.x == p.x
            &&& post.y == p.y
            &&& eat_step(pre, snake, p.x as int, p.y as int, post)
        } {
        let p = choose|p: crate::geom::Pos|
            {
                &&& 0 <= p.x < screen_w
                &&& 0 <= p.y < screen_h
                &&& !(#[trigger] snake.positions@.contains(p))
                &&& post.x == p.x
                &&& post.y == p.y
                &&& eat_step(pre, snake, p.x as int, p.y as int, post)
            };
        assert(eat_step(pre, snake, p.x as int, p.y as int, post));
    }
}

/// Frame-level trail bound: a trail that enters the frame under one
/// hundred cells per score point leaves it under the bound again, even
/// though the score itself may have just grown — the bound only ever
/// widens within a frame.
pub proof fn lemma_tick_trail_bound(
    pre: Session,
    post: Session,
    k: KeySet,
    screen_w: int,
    screen_h: int,
)
    requires
        food_rel(pre.food, pre.snake, post.food, screen_w, screen_h),
        snake_rel(
            pre.snake,
            post.snake,
            k,
            post.food.score as int,
            post.food.speed_boost as int,
            screen_w,
            screen_h,
        ),
        pre.snake.positions@.len() < pre.food.score * 100,
    ensures
        post.snake.positions@.len() < post.food.score * 100,
{
    lemma_score_never_drops(pre.food, pre.snake, post.food, screen_w, screen_h);
    lemma_trail_step(
        pre.snake.positions@,
        crate::snake::head_of(post.snake),
        post.food.score * 100,
    );
    assert(post.snake.positions@ == trail_next(
        pre.snake.positions@,
        crate::snake::head_of(post.snake),
        post.food.score * 100,
    ));
}

} // verus!
