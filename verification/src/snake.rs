//! The snake: heading, fixed-point position, trail, and the per-update
//! movement, wrap, self-collision and trail-eviction rules.

use vstd::prelude::*;

use crate::controls::{new_heading, next_heading, Heading, KeySet};
use crate::geom::{wrap, wrap_coord, Pos};

verus! {

/// The snake entity. Coordinates are subunits; `positions` is the trail of
/// cells the body occupies, oldest first, with the current head last after
/// every update.
pub struct Snake {
    pub x: i64,
    pub y: i64,
    /// The signed step magnitude, constant one; the heading gives the axis
    /// and the sign of each move.
    pub xy_diff: i8,
    pub positions: Vec<Pos>,
    pub direction: Heading,
    pub size_w: u32,
    pub size_h: u32,
    pub is_alive: bool,
}

/// The largest cell size the game admits, in subunits. Keeping sizes under
/// this bound keeps every tolerance product inside `i64`.
pub const MAX_CELL_SIZE: u32 = 1_000_000;

/// The head cell of a snake.
pub open spec fn head_of(s: Snake) -> Pos {
    Pos { x: s.x, y: s.y }
}

/// True when some trail cell sits exactly at `(x, y)`.
pub open spec fn trail_hit(trail: Seq<Pos>, x: int, y: int) -> bool {
    exists|i: int| 0 <= i < trail.len() && #[trigger] trail[i].x == x && trail[i].y == y
}

/// How far one update moves the snake along the x axis, in units of one
/// step: minus one leftwards, plus one rightwards, zero on the other axis.
pub open spec fn dx_of(h: Heading) -> int {
    match h {
        Heading::Left => -1,
        Heading::Right => 1,
        Heading::Up => 0,
        Heading::Down => 0,
    }
}

/// The y-axis counterpart of `dx_of`; the y axis grows downwards.
pub open spec fn dy_of(h: Heading) -> int {
    match h {
        Heading::Up => -1,
        Heading::Down => 1,
        Heading::Left => 0,
        Heading::Right => 0,
    }
}

/// How far one update moves the snake, in subunits: the signed step
/// magnitude times the speed multiplier.
pub open spec fn step_of(s: Snake, boost: int) -> int {
    s.xy_diff * boost
}

/// The x coordinate after one update: move along the new heading by one
/// step scaled by the speed multiplier, then wrap at the screen edges.
pub open spec fn next_x(s: Snake, k: KeySet, boost: int, screen_w: int) -> int {
    wrap_coord(
        s.x + dx_of(new_heading(s.direction, k)) * step_of(s, boost),
        screen_w,
        s.size_w as int,
    )
}

/// The y coordinate after one update.
pub open spec fn next_y(s: Snake, k: KeySet, boost: int, screen_h: int) -> int {
    wrap_coord(
        s.y + dy_of(new_heading(s.direction, k)) * step_of(s, boost),
        screen_h,
        s.size_h as int,
    )
}

/// Whether the snake is still alive after one update: it stays alive
/// exactly when it was alive and the new head does not land on the trail.
/// Death is terminal; nothing ever sets the flag back.
pub open spec fn next_alive(s: Snake, k: KeySet, boost: int, screen_w: int, screen_h: int) -> bool {
    s.is_alive && !trail_hit(
        s.positions@,
        next_x(s, k, boost, screen_w),
        next_y(s, k, boost, screen_h),
    )
}

/// The trail after one update: the new head is appended, and once the
/// length reaches `bound` the oldest cell is evicted, so exactly one cell
/// is appended and at most one removed per update.
pub open spec fn trail_next(trail: Seq<Pos>, head: Pos, bound: int) -> Seq<Pos> {
    let grown = trail.push(head);
    if grown.len() >= bound {
        grown.remove(0)
    } else {
        grown
    }
}

/// The full effect of one snake update on every field.
pub open spec fn snake_rel(
    pre: Snake,
    post: Snake,
    k: KeySet,
    score: int,
    boost: int,
    screen_w: int,
    screen_h: int,
) -> bool {
    &&& post.direction == new_heading(pre.direction, k)
    &&& post.x as int == next_x(pre, k, boost, screen_w)
    &&& post.y as int == next_y(pre, k, boost, screen_h)
    &&& post.is_alive == next_alive(pre, k, boost, screen_w, screen_h)
    &&& post.positions@ == trail_next(pre.positions@, head_of(post), score * 100)
    &&& post.xy_diff == pre.xy_diff
    &&& post.size_w == pre.size_w
    &&& post.size_h == pre.size_h
}

impl Snake {
    /// Well-formedness: unit step, positive bounded cell size, and a
    /// position inside the wrapped band around the screen.
    pub open spec fn wf(&self) -> bool {
        &&& self.xy_diff == 1
        &&& 0 < self.size_w <= MAX_CELL_SIZE
        &&& 0 < self.size_h <= MAX_CELL_SIZE
        &&& -(self.size_w as int) <= self.x <= u32::MAX as int
        &&& -(self.size_h as int) <= self.y <= u32::MAX as int
    }

    /// One snake update: honour the pressed keys, move one step scaled by
    /// the speed multiplier, wrap at the screen edges, die on an exact
    /// self-collision, append the new head, and evict the oldest trail
    /// cell once the trail has reached one hundred cells per score point.
    /// The score counter starts at one and never drops, so the eviction
    /// bound is at least one hundred and the new head always stays in the
    /// trail as its last cell.
    pub fn snake(
        &mut self,
        keys: &KeySet,
        score: u32,
        speed_boost: u32,
        screen_w: u32,
        screen_h: u32,
    )
        requires
            old(self).wf(),
            score >= 1,
        ensures
            final(self).wf(),
            snake_rel(
                *old(self),
                *final(self),
                *keys,
                score as int,
                speed_boost as int,
                screen_w as int,
                screen_h as int,
            ),
    {
        let h = next_heading(self.direction, keys);
        self.direction = h;

        let step: i64 = (self.xy_diff as i64) * (speed_boost as i64);
        proof {
            assert(step == speed_boost as int) by (nonlinear_arith)
                requires
                    self.xy_diff == 1,
                    step == (self.xy_diff as int) * (speed_boost as int),
            ;
        }
        match h {
            Heading::Left => { self.x = self.x - step },
            Heading::Right => { self.x = self.x + step },
            Heading::Up => { self.y = self.y - step },
            Heading::Down => { self.y = self.y + step },
        }

        proof {
            let so = step_of(*old(self), speed_boost as int);
            assert(0 * so == 0 && (-1) * so == -so && 1 * so == so) by (nonlinear_arith);
        }
        self.x = wrap(self.x, screen_w, self.size_w);
        self.y = wrap(self.y, screen_h, self.size_h);

        let head = Pos { x: self.x, y: self.y };
        if trail_contains(&self.positions, head) {
            self.is_alive = false;
        }
        proof {
            lemma_trail_hit_iff_contains(self.positions@, head);
        }

        self.positions.push(head);

        let bound: u64 = (score as u64) * 100;
        if (self.positions.len() as u64) >= bound {
            self.positions.remove(0);
        }
    }
}

impl Default for Snake {
    /// A fresh snake: at the origin, heading right, unit step, an empty
    /// trail, one-unit-square body cells, alive.
    fn default() -> (s: Snake)
        ensures
            s.wf(),
            s.x == 0,
            s.y == 0,
            s.xy_diff == 1,
            s.positions@ == Seq::<Pos>::empty(),
            s.direction == Heading::Right,
            s.size_w == 100,
            s.size_h == 100,
            s.is_alive,
    {
        Snake {
            x: 0,
            y: 0,
            xy_diff: 1,
            positions: Vec::new(),
            direction: Heading::Right,
            size_w: 100,
            size_h: 100,
            is_alive: true,
        }
    }
}

/// Whether `p` occurs in the trail, by a linear scan with exact equality.
pub fn trail_contains(trail: &Vec<Pos>, p: Pos) -> (r: bool)
    ensures
        r == trail@.contains(p),
{
    let mut i: usize = 0;
    while i < trail.len()
        invariant
            0 <= i <= trail@.len(),
            forall|j: int| 0 <= j < i ==> trail@[j] != p,
        decreases trail@.len() - i,
    {
        if trail[i] == p {
            assert(trail@.contains(p)) by {
                assert(trail@[i as int] == p);
            }
            return true;
        }
        i = i + 1;
    }
    assert(!trail@.contains(p));
    false
}

/// A cell sits at `(p.x, p.y)` exactly when the trail contains `p`.
proof fn lemma_trail_hit_iff_contains(trail: Seq<Pos>, p: Pos)
    ensures
        trail_hit(trail, p.x as int, p.y as int) <==> trail.contains(p),
{
    if trail_hit(trail, p.x as int, p.y as int) {
        let i = choose|i: int|
            0 <= i < trail.len() && #[trigger] trail[i].x == p.x && trail[i].y == p.y;
        assert(trail[i] == p);
        assert(trail.contains(p));
    }
    if trail.contains(p) {
        let i = choose|i: int| 0 <= i < trail.len() && trail[i] == p;
        assert(trail[i].x == p.x && trail[i].y == p.y);
    }
}

/// Death is terminal: a snake that enters an update dead leaves it dead,
/// whatever the keys, speed and screen are.
pub proof fn lemma_death_is_terminal(
    pre: Snake,
    post: Snake,
    k: KeySet,
    score: int,
    boost: int,
    screen_w: int,
    screen_h: int,
)
    requires
        snake_rel(pre, post, k, score, boost, screen_w, screen_h),
        !pre.is_alive,
    ensures
        !post.is_alive,
{
}

/// Trail growth law: each update appends exactly one cell and removes at
/// most one, a trail under the bound stays under the bound, and the new
/// head ends up as the last cell of the trail.
pub proof fn lemma_trail_step(trail: Seq<Pos>, head: Pos, bound: int)
    ensures
        trail.len() + 1 >= bound ==> trail_next(trail, head, bound).len() == trail.len(),
        trail.len() + 1 < bound ==> trail_next(trail, head, bound).len() == trail.len() + 1,
        trail.len() < bound ==> trail_next(trail, head, bound).len() < bound,
        bound >= 2 ==> trail_next(trail, head, bound).last() == head,
{
}

/// Self-collision law: when the freshly computed head position already lies
/// on the trail, the update leaves the snake dead, and the trail still
/// changes only by the one append and possible eviction that every update
/// makes.
pub proof fn lemma_self_collision(
    pre: Snake,
    post: Snake,
    k: KeySet,
    score: int,
    boost: int,
    screen_w: int,
    screen_h: int,
)
    requires
        snake_rel(pre, post, k, score, boost, screen_w, screen_h),
        trail_hit(pre.positions@, next_x(pre, k, boost, screen_w), next_y(pre, k, boost, screen_h)),
    ensures
        !post.is_alive,
        post.positions@ == trail_next(pre.positions@, head_of(post), score * 100),
{
}

} // verus!
