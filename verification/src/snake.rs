//! State and update rules of the snake sketch: a head the player steers one
//! cell at a time, a (still empty) body, one piece of food, and a tick
//! counter. Drawing and event polling stay outside; this module is the whole
//! of what a tick or a key press does to the state.

use vstd::prelude::*;

use crate::geom::{Playground, Pos};
use crate::input::{InputEvent, KeyKind};

verus! {

/// Where the head ends up when a character key is pressed: `w`/`s` move it one
/// cell up/down, `d`/`a` one cell right/left, and every other key leaves it
/// where it is.
pub open spec fn moved_head(head: Pos, code: char) -> (int, int) {
    if code == 'w' {
        (head.x as int, head.y + 1)
    } else if code == 's' {
        (head.x as int, head.y - 1)
    } else if code == 'd' {
        (head.x + 1, head.y as int)
    } else if code == 'a' {
        (head.x - 1, head.y as int)
    } else {
        (head.x as int, head.y as int)
    }
}

/// Where the head ends up after an arbitrary input event: only a key press
/// moves it.
pub open spec fn head_after_event(pre: SnakeApp, ev: InputEvent) -> (int, int) {
    match ev {
        InputEvent::Key(k) => if k.kind == KeyKind::Press {
            moved_head(pre.head, k.code)
        } else {
            (pre.head.x as int, pre.head.y as int)
        },
        InputEvent::Other => (pre.head.x as int, pre.head.y as int),
    }
}

/// Everything of the snake state except the head is the same in `pre` and
/// `post`: input never touches the playground, the body, the food or the
/// tick counter.
pub open spec fn same_but_head(pre: SnakeApp, post: SnakeApp) -> bool {
    &&& post.playground == pre.playground
    &&& post.body@ == pre.body@
    &&& post.food == pre.food
    &&& post.tick_count == pre.tick_count
}

/// The whole state of the snake sketch.
pub struct SnakeApp {
    pub playground: Playground,
    pub head: Pos,
    pub body: Vec<Pos>,
    pub food: Pos,
    pub tick_count: u64,
}

impl SnakeApp {
    /// The starting state: a 200 by 100 playground anchored at the origin,
    /// the head at its centre, an empty body, food near the lower-left
    /// corner, and the tick counter at zero.
    pub fn new() -> (r: SnakeApp)
        ensures
            r.playground == (Playground { left: 0, bottom: 0, right: 200, top: 100 }),
            r.playground.wf(),
            r.head == (Pos { x: 100, y: 50 }),
            r.body@ == Seq::<Pos>::empty(),
            r.food == (Pos { x: 10, y: 10 }),
            r.tick_count == 0,
    {
        SnakeApp {
            playground: Playground { left: 0, bottom: 0, right: 200, top: 100 },
            head: Pos { x: 100, y: 50 },
            body: Vec::new(),
            food: Pos { x: 10, y: 10 },
            tick_count: 0,
        }
    }

    /// Applies one pressed character key to the head; any key other than
    /// `w`, `s`, `d`, `a` changes nothing.
    pub fn handle_key_event(&mut self, code: char)
        requires
            i64::MIN <= moved_head(old(self).head, code).0 <= i64::MAX,
            i64::MIN <= moved_head(old(self).head, code).1 <= i64::MAX,
        ensures
            final(self).head.x == moved_head(old(self).head, code).0,
            final(self).head.y == moved_head(old(self).head, code).1,
            same_but_head(*old(self), *final(self)),
    {
        if code == 'w' {
            self.head.y = self.head.y + 1;
        } else if code == 's' {
            self.head.y = self.head.y - 1;
        } else if code == 'd' {
            self.head.x = self.head.x + 1;
        } else if code == 'a' {
            self.head.x = self.head.x - 1;
        }
    }

    /// Applies one input event: a key press steers the head, and everything
    /// else — releases, repeats, non-key events — is ignored.
    pub fn handle_event(&mut self, ev: InputEvent)
        requires
            i64::MIN <= head_after_event(*old(self), ev).0 <= i64::MAX,
            i64::MIN <= head_after_event(*old(self), ev).1 <= i64::MAX,
        ensures
            final(self).head.x == head_after_event(*old(self), ev).0,
            final(self).head.y == head_after_event(*old(self), ev).1,
            same_but_head(*old(self), *final(self)),
    {
        match ev {
            InputEvent::Key(k) => {
                if k.kind == KeyKind::Press {
                    self.handle_key_event(k.code);
                }
            },
            InputEvent::Other => {},
        }
    }

    /// One fixed-interval tick: the counter advances by exactly one and the
    /// rest of the state is untouched.
    pub fn on_tick(&mut self)
        requires
            old(self).tick_count < u64::MAX,
        ensures
            final(self).tick_count == old(self).tick_count + 1,
            final(self).head == old(self).head,
            final(self).playground == old(self).playground,
            final(self).body@ == old(self).body@,
            final(self).food == old(self).food,
    {
        self.tick_count = self.tick_count + 1;
    }
}

} // verus!
