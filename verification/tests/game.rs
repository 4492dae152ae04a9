use clisnake::geom::{Playground, Pos};
use clisnake::input::{InputEvent, KeyInput, KeyKind};
use clisnake::pong::{Ball, Paddle, PongApp};
use clisnake::snake::SnakeApp;

fn key(code: char, kind: KeyKind) -> InputEvent {
    InputEvent::Key(KeyInput { code, kind })
}

#[test]
fn snake_initial_state() {
    let app = SnakeApp::new();
    assert_eq!(
        app.playground,
        Playground { left: 0, bottom: 0, right: 200, top: 100 }
    );
    assert_eq!(app.head, Pos { x: 100, y: 50 });
    assert!(app.body.is_empty());
    assert_eq!(app.food, Pos { x: 10, y: 10 });
    assert_eq!(app.tick_count, 0);
}

#[test]
fn snake_key_moves_head() {
    let mut app = SnakeApp::new();
    app.handle_key_event('w');
    assert_eq!(app.head, Pos { x: 100, y: 51 });
    app.handle_key_event('s');
    assert_eq!(app.head, Pos { x: 100, y: 50 });
    app.handle_key_event('d');
    assert_eq!(app.head, Pos { x: 101, y: 50 });
    app.handle_key_event('a');
    assert_eq!(app.head, Pos { x: 100, y: 50 });
    app.handle_key_event('x');
    assert_eq!(app.head, Pos { x: 100, y: 50 });
    assert_eq!(app.food, Pos { x: 10, y: 10 });
    assert_eq!(app.tick_count, 0);
}

#[test]
fn snake_reacts_to_presses_only() {
    let mut app = SnakeApp::new();
    app.handle_event(key('w', KeyKind::Release));
    assert_eq!(app.head, Pos { x: 100, y: 50 });
    app.handle_event(key('w', KeyKind::Repeat));
    assert_eq!(app.head, Pos { x: 100, y: 50 });
    app.handle_event(InputEvent::Other);
    assert_eq!(app.head, Pos { x: 100, y: 50 });
    app.handle_event(key('w', KeyKind::Press));
    assert_eq!(app.head, Pos { x: 100, y: 51 });
    app.handle_event(key('z', KeyKind::Press));
    assert_eq!(app.head, Pos { x: 100, y: 51 });
}

#[test]
fn snake_tick_counts() {
    let mut app = SnakeApp::new();
    app.on_tick();
    app.on_tick();
    assert_eq!(app.tick_count, 2);
    assert_eq!(app.head, Pos { x: 100, y: 50 });
}

#[test]
fn quit_on_q_whatever_the_kind() {
    assert!(clisnake::input::should_quit(&key('q', KeyKind::Press)));
    assert!(clisnake::input::should_quit(&key('q', KeyKind::Release)));
    assert!(!clisnake::input::should_quit(&key('w', KeyKind::Press)));
    assert!(!clisnake::input::should_quit(&InputEvent::Other));
}

#[test]
fn playground_dimensions() {
    let pg = Playground::new(0, 0, 200, 100);
    assert_eq!(pg.width(), 200);
    assert_eq!(pg.height(), 100);
}

#[test]
fn pong_initial_state() {
    let app = PongApp::new();
    assert_eq!(
        app.playground,
        Playground { left: 0, bottom: 0, right: 200, top: 100 }
    );
    assert_eq!(app.ball, Ball { x: 100, y: 50, radius: 5, vx: 1, vy: 1 });
    assert_eq!(app.left_paddle, Paddle { x: 5, y: 40, width: 2, height: 20 });
    assert_eq!(app.right_paddle, Paddle { x: 193, y: 40, width: 2, height: 20 });
    assert_eq!(app.tick_count, 0);
}

#[test]
fn ball_advances_without_bounce() {
    let mut app = PongApp::new();
    app.on_tick();
    assert_eq!(app.ball, Ball { x: 101, y: 51, radius: 5, vx: 1, vy: 1 });
    assert_eq!(app.tick_count, 1);
}

#[test]
fn bounce_flips_vx_sign() {
    let mut app = PongApp::new();
    app.ball = Ball { x: 195, y: 50, radius: 5, vx: 1, vy: 0 };
    app.on_tick();
    assert_eq!(app.ball.vx, -1);
    assert_eq!(app.ball.x, 194);
    assert_eq!(app.ball.y, 50);
    assert_eq!(app.ball.vy, 0);
}

#[test]
fn bounce_flips_vy_sign() {
    let mut app = PongApp::new();
    app.ball = Ball { x: 100, y: 5, radius: 5, vx: 0, vy: -1 };
    app.on_tick();
    assert_eq!(app.ball.vy, 1);
    assert_eq!(app.ball.y, 6);
    assert_eq!(app.ball.x, 100);
    assert_eq!(app.ball.vx, 0);
}

#[test]
fn corner_bounce_flips_both_signs() {
    let mut app = PongApp::new();
    app.ball = Ball { x: 195, y: 95, radius: 5, vx: 1, vy: 1 };
    app.on_tick();
    assert_eq!(app.ball, Ball { x: 194, y: 94, radius: 5, vx: -1, vy: -1 });
}

#[test]
fn ball_stays_in_bounds_many_ticks() {
    let mut app = PongApp::new();
    app.ball = Ball { x: 100, y: 50, radius: 5, vx: 3, vy: 7 };
    for _ in 0..10_000 {
        app.on_tick();
        let b = app.ball;
        let pg = app.playground;
        assert!(pg.left <= b.x - b.radius);
        assert!(b.x + b.radius <= pg.right);
        assert!(pg.bottom <= b.y - b.radius);
        assert!(b.y + b.radius <= pg.top);
        assert_eq!(b.vx.abs(), 3);
        assert_eq!(b.vy.abs(), 7);
    }
    assert_eq!(app.tick_count, 10_000);
}

#[test]
fn advance_matches_repeated_ticks() {
    let mut a = PongApp::new();
    let mut b = PongApp::new();
    a.advance(250);
    for _ in 0..250 {
        b.on_tick();
    }
    assert_eq!(a, b);
}
