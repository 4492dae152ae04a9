//! State and update rules of the pong-style bouncing-ball demo: a ball with a
//! velocity, two static paddles, and a fixed-tick update that reflects the
//! velocity off the playground walls and then moves the ball. The two facts
//! the module proves about a tick are that a bounce flips exactly the sign of
//! the corresponding velocity component, and that however many ticks pass the
//! ball never leaves the playground.

use vstd::prelude::*;

use crate::geom::Playground;

verus! {

/// The magnitude of a velocity component.
pub open spec fn mag(v: int) -> int {
    if v < 0 {
        -v
    } else {
        v
    }
}

/// The moving ball: centre, radius, and one velocity component per axis.
#[derive(Clone, Copy, PartialEq, Eq, Structural, Debug)]
pub struct Ball {
    pub x: i64,
    pub y: i64,
    pub radius: i64,
    pub vx: i64,
    pub vy: i64,
}

/// A static paddle rectangle, anchored at its lower-left corner.
#[derive(Clone, Copy, PartialEq, Eq, Structural, Debug)]
pub struct Paddle {
    pub x: i64,
    pub y: i64,
    pub width: i64,
    pub height: i64,
}

impl Ball {
    /// The ball sits entirely inside the playground.
    pub open spec fn in_bounds(self, pg: Playground) -> bool {
        &&& pg.left <= self.x - self.radius
        &&& self.x + self.radius <= pg.right
        &&& pg.bottom <= self.y - self.radius
        &&& self.y + self.radius <= pg.top
    }

    /// A well-formed ball is inside the playground and slow enough that
    /// reflecting it off one wall cannot push it through the opposite one:
    /// its diameter plus twice its speed fits in the playground on each axis.
    pub open spec fn wf(self, pg: Playground) -> bool {
        &&& 0 <= self.radius
        &&& self.in_bounds(pg)
        &&& 2 * self.radius + 2 * mag(self.vx as int) <= pg.spec_width()
        &&& 2 * self.radius + 2 * mag(self.vy as int) <= pg.spec_height()
    }
}

/// Whether moving the ball by its current horizontal velocity would carry an
/// edge of it past the left or right wall; when it would, the tick bounces,
/// that is, flips `vx` instead.
pub open spec fn bounces_x(pg: Playground, b: Ball) -> bool {
    b.x + b.vx - b.radius < pg.left || b.x + b.vx + b.radius > pg.right
}

/// The vertical counterpart of `bounces_x`, against the bottom and top walls.
pub open spec fn bounces_y(pg: Playground, b: Ball) -> bool {
    b.y + b.vy - b.radius < pg.bottom || b.y + b.vy + b.radius > pg.top
}

/// One tick of the ball: each velocity component is sign-flipped exactly when
/// its axis bounces, and the position then advances by the new velocity.
pub open spec fn spec_tick(pg: Playground, b: Ball) -> Ball {
    let vx = if bounces_x(pg, b) { -b.vx } else { b.vx as int };
    let vy = if bounces_y(pg, b) { -b.vy } else { b.vy as int };
    Ball {
        x: (b.x + vx) as i64,
        y: (b.y + vy) as i64,
        radius: b.radius,
        vx: vx as i64,
        vy: vy as i64,
    }
}

/// The ball after `n` ticks.
pub open spec fn spec_tick_n(pg: Playground, b: Ball, n: nat) -> Ball
    decreases n,
{
    if n == 0 {
        b
    } else {
        spec_tick(pg, spec_tick_n(pg, b, (n - 1) as nat))
    }
}

/// One tick keeps the ball well formed: still inside the playground, radius
/// and speed unchanged in magnitude.
pub proof fn lemma_tick_preserves_wf(pg: Playground, b: Ball)
    requires
        pg.wf(),
        b.wf(pg),
    ensures
        spec_tick(pg, b).wf(pg),
        spec_tick(pg, b).radius == b.radius,
        mag(spec_tick(pg, b).vx as int) == mag(b.vx as int),
        mag(spec_tick(pg, b).vy as int) == mag(b.vy as int),
{
    let post = spec_tick(pg, b);
    if bounces_x(pg, b) {
        if b.x + b.vx - b.radius < pg.left {
            assert(b.vx < 0);
            assert(post.x + post.radius <= pg.right);
        } else {
            assert(b.vx > 0);
            assert(pg.left <= post.x - post.radius);
        }
    }
    if bounces_y(pg, b) {
        if b.y + b.vy - b.radius < pg.bottom {
            assert(b.vy < 0);
            assert(post.y + post.radius <= pg.top);
        } else {
            assert(b.vy > 0);
            assert(pg.bottom <= post.y - post.radius);
        }
    }
}

/// However many ticks pass, a non-accelerating bouncing ball stays inside
/// the playground.
pub proof fn lemma_ball_stays_in_bounds(pg: Playground, b: Ball, n: nat)
    requires
        pg.wf(),
        b.wf(pg),
    ensures
        spec_tick_n(pg, b, n).wf(pg),
        spec_tick_n(pg, b, n).in_bounds(pg),
    decreases n,
{
    if n > 0 {
        lemma_ball_stays_in_bounds(pg, b, (n - 1) as nat);
        lemma_tick_preserves_wf(pg, spec_tick_n(pg, b, (n - 1) as nat));
    }
}

/// The whole state of the pong demo.
#[derive(Clone, Copy, PartialEq, Eq, Structural, Debug)]
pub struct PongApp {
    pub playground: Playground,
    pub ball: Ball,
    pub left_paddle: Paddle,
    pub right_paddle: Paddle,
    pub tick_count: u64,
}

impl PongApp {
    /// A well-formed demo: ordered playground edges and a well-formed ball.
    /// The paddles are static decoration and need no constraint.
    pub open spec fn wf(self) -> bool {
        &&& self.playground.wf()
        &&& self.ball.wf(self.playground)
    }

    /// The starting state: a 200 by 100 playground, the ball at its centre
    /// moving diagonally one cell per tick, and one paddle at each side.
    pub fn new() -> (r: PongApp)
        ensures
            r.playground == (Playground { left: 0, bottom: 0, right: 200, top: 100 }),
            r.ball == (Ball { x: 100, y: 50, radius: 5, vx: 1, vy: 1 }),
            r.left_paddle == (Paddle { x: 5, y: 40, width: 2, height: 20 }),
            r.right_paddle == (Paddle { x: 193, y: 40, width: 2, height: 20 }),
            r.tick_count == 0,
            r.wf(),
    {
        PongApp {
            playground: Playground { left: 0, bottom: 0, right: 200, top: 100 },
            ball: Ball { x: 100, y: 50, radius: 5, vx: 1, vy: 1 },
            left_paddle: Paddle { x: 5, y: 40, width: 2, height: 20 },
            right_paddle: Paddle { x: 193, y: 40, width: 2, height: 20 },
            tick_count: 0,
        }
    }

    /// One fixed-interval tick: bounce, move, count. A bounce on an axis
    /// flips exactly the sign of that velocity component; without a bounce
    /// the component is kept; the position advances by the new velocity; and
    /// the ball is still inside the playground afterwards.
    pub fn on_tick(&mut self)
        requires
            old(self).wf(),
            old(self).tick_count < u64::MAX,
        ensures
            final(self).ball == spec_tick(old(self).playground, old(self).ball),
            bounces_x(old(self).playground, old(self).ball)
                ==> final(self).ball.vx == -old(self).ball.vx,
            !bounces_x(old(self).playground, old(self).ball)
                ==> final(self).ball.vx == old(self).ball.vx,
            bounces_y(old(self).playground, old(self).ball)
                ==> final(self).ball.vy == -old(self).ball.vy,
            !bounces_y(old(self).playground, old(self).ball)
                ==> final(self).ball.vy == old(self).ball.vy,
            final(self).ball.x == old(self).ball.x + final(self).ball.vx,
            final(self).ball.y == old(self).ball.y + final(self).ball.vy,
            final(self).wf(),
            final(self).ball.in_bounds(final(self).playground),
            final(self).tick_count == old(self).tick_count + 1,
            final(self).playground == old(self).playground,
            final(self).left_paddle == old(self).left_paddle,
            final(self).right_paddle == old(self).right_paddle,
    {
        proof {
            lemma_tick_preserves_wf(self.playground, self.ball);
        }
        let pg = self.playground;
        let b = self.ball;
        if b.x + b.vx - b.radius < pg.left || b.x + b.vx + b.radius > pg.right {
            self.ball.vx = -b.vx;
        }
        if b.y + b.vy - b.radius < pg.bottom || b.y + b.vy + b.radius > pg.top {
            self.ball.vy = -b.vy;
        }
        self.ball.x = self.ball.x + self.ball.vx;
        self.ball.y = self.ball.y + self.ball.vy;
        self.tick_count = self.tick_count + 1;
    }

    /// Runs `n` ticks in a row; the ball ends where `n` applications of the
    /// one-tick rule put it, and it never leaves the playground on the way.
    pub fn advance(&mut self, n: u64)
        requires
            old(self).wf(),
            old(self).tick_count + n <= u64::MAX,
        ensures
            final(self).ball == spec_tick_n(old(self).playground, old(self).ball, n as nat),
            final(self).wf(),
            final(self).tick_count == old(self).tick_count + n,
            final(self).playground == old(self).playground,
            final(self).left_paddle == old(self).left_paddle,
            final(self).right_paddle == old(self).right_paddle,
    {
        let mut i: u64 = 0;
        while i < n
            invariant
                i <= n,
                self.wf(),
                old(self).tick_count + n <= u64::MAX,
                self.tick_count == old(self).tick_count + i,
                self.ball == spec_tick_n(old(self).playground, old(self).ball, i as nat),
                self.playground == old(self).playground,
                self.left_paddle == old(self).left_paddle,
                self.right_paddle == old(self).right_paddle,
            decreases n - i,
        {
            self.on_tick();
            i = i + 1;
        }
    }
}

} // verus!
