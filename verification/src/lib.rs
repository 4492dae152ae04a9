//! Verified game-state logic for small terminal arcade prototypes: a snake
//! sketch and a pong-style bouncing-ball demo. The library holds the state
//! records, the fixed-tick update rules (bounce reflection and containment),
//! and the keyboard decision logic; terminal rendering and event polling live
//! outside it.

pub mod geom;
pub mod input;
pub mod pong;
pub mod snake;
