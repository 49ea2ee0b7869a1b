use sprite_walk::direction::Direction;
use sprite_walk::game::direction_of_key;
use sprite_walk::game::GameLoop;
use sprite_walk::game::InputEvent;
use sprite_walk::game::Key;
use sprite_walk::game::TICKS_PER_SECOND;
use sprite_walk::game::TICK_NANOSECONDS;
use sprite_walk::geometry::Point;
use sprite_walk::geometry::Rect;
use sprite_walk::player::PlayerState;
use sprite_walk::player::Velocity;
use sprite_walk::render::Color;
use sprite_walk::render::DrawCall;

fn down(key: Key) -> InputEvent {
    InputEvent::KeyDown { key }
}

fn up(key: Key) -> InputEvent {
    InputEvent::KeyUp { key, repeat: false }
}

#[test]
fn tick_length() {
    assert_eq!(TICKS_PER_SECOND, 60);
    assert_eq!(TICK_NANOSECONDS, 1_000_000_000 / 60);
}

#[test]
fn keys_and_their_directions() {
    assert_eq!(direction_of_key(Key::Up), Some(Direction::Up));
    assert_eq!(direction_of_key(Key::Down), Some(Direction::Down));
    assert_eq!(direction_of_key(Key::Left), Some(Direction::Left));
    assert_eq!(direction_of_key(Key::Right), Some(Direction::Right));
    assert_eq!(direction_of_key(Key::Escape), None);
    assert_eq!(direction_of_key(Key::Other), None);
}

#[test]
fn game_starts_running_with_nothing_held() {
    let game = GameLoop::new();
    assert!(game.is_running());
    assert_eq!(game.queue().slots(), vec![None, None, None, None]);
    assert_eq!(*game.player(), PlayerState::new());
    assert_eq!(game.background(), Color { r: 0, g: 64, b: 255 });
}

#[test]
fn key_events_press_and_release() {
    let mut game = GameLoop::new();
    game.handle_event(down(Key::Left));
    game.handle_event(down(Key::Up));
    assert_eq!(game.queue().slots(), vec![Some(Direction::Up), Some(Direction::Left), None, None]);
    game.handle_event(up(Key::Left));
    assert_eq!(game.queue().slots(), vec![Some(Direction::Up), None, None, None]);
    game.handle_event(up(Key::Up));
    assert_eq!(game.queue().slots(), vec![None, None, None, None]);
    assert!(game.is_running());
}

#[test]
fn repeated_key_up_is_ignored() {
    let mut game = GameLoop::new();
    game.handle_event(down(Key::Right));
    game.handle_event(InputEvent::KeyUp { key: Key::Right, repeat: true });
    assert_eq!(game.queue().slots(), vec![Some(Direction::Right), None, None, None]);
    game.handle_event(InputEvent::KeyUp { key: Key::Right, repeat: false });
    assert_eq!(game.queue().slots(), vec![None, None, None, None]);
}

#[test]
fn other_events_change_nothing() {
    let mut game = GameLoop::new();
    game.handle_event(down(Key::Down));
    game.handle_event(InputEvent::Other);
    game.handle_event(down(Key::Other));
    game.handle_event(up(Key::Other));
    game.handle_event(up(Key::Escape));
    game.handle_event(up(Key::Left));
    assert!(game.is_running());
    assert_eq!(game.queue().slots(), vec![Some(Direction::Down), None, None, None]);
    assert_eq!(*game.player(), PlayerState::new());
}

#[test]
fn quit_ends_the_loop() {
    let mut game = GameLoop::new();
    game.handle_event(InputEvent::Quit);
    assert!(!game.is_running());
}

#[test]
fn escape_ends_the_loop() {
    let mut game = GameLoop::new();
    game.handle_event(down(Key::Escape));
    assert!(!game.is_running());
}

#[test]
fn nothing_happens_after_the_end() {
    let mut game = GameLoop::new();
    game.handle_events(&vec![down(Key::Left), InputEvent::Quit, down(Key::Up), up(Key::Left)]);
    assert!(!game.is_running());
    assert_eq!(game.queue().slots(), vec![Some(Direction::Left), None, None, None]);
    game.handle_event(down(Key::Down));
    game.tick();
    assert_eq!(game.queue().slots(), vec![Some(Direction::Left), None, None, None]);
    assert_eq!(*game.player(), PlayerState::new());
    assert_eq!(game.background(), Color { r: 0, g: 64, b: 255 });
    assert_eq!(game.frame(&vec![down(Key::Right)], 800, 600), None);
    assert_eq!(*game.player(), PlayerState::new());
}

#[test]
fn events_are_taken_in_order() {
    let mut game = GameLoop::new();
    game.handle_events(&vec![down(Key::Right), down(Key::Up), up(Key::Right), down(Key::Left)]);
    assert_eq!(game.queue().slots(), vec![Some(Direction::Left), Some(Direction::Up), None, None]);
    game.handle_events(&vec![]);
    assert_eq!(game.queue().slots(), vec![Some(Direction::Left), Some(Direction::Up), None, None]);
}

#[test]
fn tick_moves_counter_and_player() {
    let mut game = GameLoop::new();
    game.handle_event(down(Key::Down));
    game.tick();
    assert_eq!(game.background(), Color { r: 1, g: 64, b: 254 });
    assert_eq!(game.player().position, Point { x: 0, y: 5 });
    assert_eq!(game.player().velocity, Velocity { x: 0, y: 5 });
    assert_eq!(game.player().direction, Direction::Down);
    game.tick();
    assert_eq!(game.background(), Color { r: 2, g: 64, b: 253 });
    assert_eq!(game.player().position, Point { x: 0, y: 10 });
}

#[test]
fn counter_wraps_after_255() {
    let mut game = GameLoop::new();
    let mut tick: u32 = 0;
    while tick < 255 {
        game.tick();
        tick += 1;
    }
    assert_eq!(game.background(), Color { r: 255, g: 64, b: 0 });
    game.tick();
    assert_eq!(game.background(), Color { r: 0, g: 64, b: 255 });
    game.tick();
    assert_eq!(game.background(), Color { r: 1, g: 64, b: 254 });
}

#[test]
fn frame_takes_events_ticks_and_draws() {
    let mut game = GameLoop::new();
    let call = game.frame(&vec![down(Key::Right)], 800, 600);
    assert_eq!(
        call,
        Some(DrawCall {
            background: Color { r: 1, g: 64, b: 254 },
            source: Rect { x: 0, y: 72, width: 26, height: 36 },
            destination: Rect { x: 392, y: 282, width: 26, height: 36 },
        })
    );
    let call = game.frame(&vec![down(Key::Up)], 800, 600);
    assert_eq!(
        call,
        Some(DrawCall {
            background: Color { r: 2, g: 64, b: 253 },
            source: Rect { x: 0, y: 108, width: 26, height: 36 },
            destination: Rect { x: 392, y: 277, width: 26, height: 36 },
        })
    );
    assert_eq!(game.player().position, Point { x: 5, y: -5 });
}

#[test]
fn frame_that_ends_the_loop_draws_nothing() {
    let mut game = GameLoop::new();
    game.frame(&vec![down(Key::Right)], 800, 600);
    let before = *game.player();
    assert_eq!(game.frame(&vec![down(Key::Left), down(Key::Escape)], 800, 600), None);
    assert!(!game.is_running());
    assert_eq!(*game.player(), before);
    assert_eq!(game.background(), Color { r: 1, g: 64, b: 254 });
    assert_eq!(game.queue().slots(), vec![Some(Direction::Left), Some(Direction::Right), None, None]);
}
