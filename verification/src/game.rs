//! The frame loop as a state machine: what an input event does to the game,
//! what a tick does to it, and what one pass of the loop amounts to.

use vstd::prelude::*;
use crate::direction::Direction;
use crate::input::pressed;
use crate::input::queue_wf;
use crate::input::released;
use crate::input::vacant_queue;
use crate::input::InputQueue;
use crate::input::lemma_press_keeps_queue_valid;
use crate::input::lemma_release_keeps_queue_valid;
use crate::player::update_player;
use crate::player::PlayerState;
use crate::render::background;
use crate::render::background_color;
use crate::render::draw_call;
use crate::render::render;
use crate::render::Color;
use crate::render::DrawCall;

verus! {

/// Number of ticks in a second.
pub const TICKS_PER_SECOND: u32 = 60;

/// Length of a tick in nanoseconds.
pub const TICK_NANOSECONDS: u32 = 1_000_000_000 / TICKS_PER_SECOND;

/// A key of the keyboard, as far as the game tells keys apart.
#[derive(Debug, Clone, Copy, PartialEq, Eq, Structural)]
pub enum Key {
    Up,
    Down,
    Left,
    Right,
    Escape,
    Other,
}

/// What the input source reports.
#[derive(Debug, Clone, Copy, PartialEq, Eq, Structural)]
pub enum InputEvent {
    /// The window was asked to close.
    Quit,
    /// A key went down, or is held and repeats.
    KeyDown { key: Key },
    /// A key went up; `repeat` is set where the report comes from a held key.
    KeyUp { key: Key, repeat: bool },
    /// Anything else.
    Other,
}

/// Whether the loop goes on.
#[derive(Debug, Clone, Copy, PartialEq, Eq, Structural)]
pub enum LoopState {
    Running,
    Terminated,
}

/// The direction that `key` stands for.
pub open spec fn key_direction(key: Key) -> Option<Direction> {
    match key {
        Key::Up => Some(Direction::Up),
        Key::Down => Some(Direction::Down),
        Key::Left => Some(Direction::Left),
        Key::Right => Some(Direction::Right),
        Key::Escape => None,
        Key::Other => None,
    }
}

/// The game as a value: the slots of the queue, the player, the counter of
/// ticks that colors the background, and the state of the loop.
pub struct GameModel {
    pub slots: Seq<Option<Direction>>,
    pub player: PlayerState,
    pub counter: u8,
    pub state: LoopState,
}

impl GameModel {
    /// The game before the first event.
    pub open spec fn initial() -> GameModel {
        GameModel {
            slots: vacant_queue(),
            player: PlayerState::initial(),
            counter: 0,
            state: LoopState::Running,
        }
    }

    /// The queue and the player are valid.
    pub open spec fn wf(self) -> bool {
        &&& queue_wf(self.slots)
        &&& self.player.wf()
    }

    /// The game after `event`. A request to quit and a press of Escape end the
    /// loop. A press of a direction key presses the direction, and a release
    /// that is no repeat releases it. Nothing else has an effect, and nothing
    /// has one once the loop has ended.
    pub open spec fn handled(self, event: InputEvent) -> GameModel {
        if self.state == LoopState::Terminated {
            self
        } else {
            match event {
                InputEvent::Quit => GameModel { state: LoopState::Terminated, ..self },
                InputEvent::KeyDown { key: Key::Escape } => GameModel {
                    state: LoopState::Terminated,
                    ..self
                },
                InputEvent::KeyDown { key } => match key_direction(key) {
                    Some(direction) => GameModel { slots: pressed(self.slots, direction), ..self },
                    None => self,
                },
                InputEvent::KeyUp { key, repeat } => match key_direction(key) {
                    Some(direction) if !repeat => GameModel {
                        slots: released(self.slots, direction),
                        ..self
                    },
                    _ => self,
                },
                InputEvent::Other => self,
            }
        }
    }

    /// The game after all of `events`, first to last.
    pub open spec fn drained(self, events: Seq<InputEvent>) -> GameModel
        decreases events.len(),
    {
        if events.len() == 0 {
            self
        } else {
            self.handled(events[0]).drained(events.drop_first())
        }
    }

    /// The game one tick later: the counter moves on, from 255 back to 0, and
    /// the player is updated. A loop that has ended does not tick.
    pub open spec fn ticked(self) -> GameModel {
        if self.state == LoopState::Terminated {
            self
        } else {
            GameModel {
                counter: ((self.counter + 1) % 256) as u8,
                player: self.player.updated(self.slots),
                ..self
            }
        }
    }

    /// The game after one pass of the loop over `events`.
    pub open spec fn advanced(self, events: Seq<InputEvent>) -> GameModel {
        self.drained(events).ticked()
    }
}

/// Looks up the direction that `key` stands for.
pub fn direction_of_key(key: Key) -> (direction: Option<Direction>)
    ensures
        direction == key_direction(key),
{
    match key {
        Key::Up => Some(Direction::Up),
        Key::Down => Some(Direction::Down),
        Key::Left => Some(Direction::Left),
        Key::Right => Some(Direction::Right),
        Key::Escape => None,
        Key::Other => None,
    }
}

/// The game: the held directions, the player, and the loop that drives both.
#[derive(Debug)]
pub struct GameLoop {
    queue: InputQueue,
    player: PlayerState,
    counter: u8,
    state: LoopState,
}

impl View for GameLoop {
    type V = GameModel;

    closed spec fn view(&self) -> GameModel {
        GameModel {
            slots: self.queue@,
            player: self.player,
            counter: self.counter,
            state: self.state,
        }
    }
}

impl GameLoop {
    /// The queue and the player are valid.
    pub open spec fn wf(&self) -> bool {
        self@.wf()
    }

    /// Makes the game before the first event: nothing held, the player as it
    /// is first shown, the loop running.
    pub fn new() -> (game: GameLoop)
        ensures
            game@ == GameModel::initial(),
            game.wf(),
    {
        GameLoop {
            queue: InputQueue::new(),
            player: PlayerState::new(),
            counter: 0,
            state: LoopState::Running,
        }
    }

    /// Tells whether the loop goes on.
    pub fn is_running(&self) -> (running: bool)
        ensures
            running == (self@.state == LoopState::Running),
    {
        match self.state {
            LoopState::Running => true,
            LoopState::Terminated => false,
        }
    }

    /// The queue of held directions.
    pub fn queue(&self) -> (queue: &InputQueue)
        ensures
            queue@ == self@.slots,
    {
        &self.queue
    }

    /// The player.
    pub fn player(&self) -> (player: &PlayerState)
        ensures
            *player == self@.player,
    {
        &self.player
    }

    /// The color of the background in this tick.
    pub fn background(&self) -> (color: Color)
        ensures
            color == background(self@.counter),
    {
        background_color(self.counter)
    }

    /// Takes in one event.
    pub fn handle_event(&mut self, event: InputEvent)
        requires
            old(self).wf(),
        ensures
            final(self)@ == old(self)@.handled(event),
            final(self).wf(),
    {
        proof {
            lemma_handled_keeps_game_valid(self@, event);
        }
        if !self.is_running() {
            return ;
        }
        match event {
            InputEvent::Quit => {
                self.state = LoopState::Terminated;
            },
            InputEvent::KeyDown { key } => {
                match key {
                    Key::Escape => {
                        self.state = LoopState::Terminated;
                    },
                    _ => {
                        match direction_of_key(key) {
                            Some(direction) => {
                                self.queue.press(direction);
                            },
                            None => {},
                        }
                    },
                }
            },
            InputEvent::KeyUp { key, repeat } => {
                if !repeat {
                    match direction_of_key(key) {
                        Some(direction) => {
                            self.queue.release(direction);
                        },
                        None => {},
                    }
                }
            },
            InputEvent::Other => {},
        }
    }

    /// Takes in the events of one pass of the loop, first to last, and stops
    /// at the one that ends the loop.
    pub fn handle_events(&mut self, events: &Vec<InputEvent>)
        requires
            old(self).wf(),
        ensures
            final(self)@ == old(self)@.drained(events@),
            final(self).wf(),
    {
        let ghost start = self@;
        let mut i: usize = 0;
        assert(events@.subrange(0, events@.len() as int) =~= events@);
        while i < events.len() && self.is_running()
            invariant
                i <= events@.len(),
                self.wf(),
                self@.drained(events@.subrange(i as int, events@.len() as int)) == start.drained(
                    events@,
                ),
            decreases events@.len() - i,
        {
            proof {
                let rest = events@.subrange(i as int, events@.len() as int);
                assert(rest[0] == events@[i as int]);
                assert(rest.drop_first() =~= events@.subrange(i + 1, events@.len() as int));
            }
            self.handle_event(events[i]);
            i += 1;
        }
        proof {
            let rest = events@.subrange(i as int, events@.len() as int);
            if i < events@.len() {
                lemma_terminated_is_final(self@, rest);
            }
        }
    }

    /// Moves the game on by one tick.
    pub fn tick(&mut self)
        requires
            old(self).wf(),
        ensures
            final(self)@ == old(self)@.ticked(),
            final(self).wf(),
    {
        if self.is_running() {
            self.counter = if self.counter == 255 {
                0
            } else {
                self.counter + 1
            };
            update_player(&self.queue, &mut self.player);
        }
    }

    /// Makes one pass of the loop: takes in `events`, and unless they end the
    /// loop, ticks and works out what to draw on a screen of the given size.
    /// Returns `None` where the loop has ended.
    pub fn frame(&mut self, events: &Vec<InputEvent>, output_width: u32, output_height: u32) -> (call:
        Option<DrawCall>)
        requires
            old(self).wf(),
        ensures
            final(self)@ == old(self)@.advanced(events@),
            final(self).wf(),
            call == frame_call(old(self)@, events@, output_width, output_height),
            call is Some <==> final(self)@.state == LoopState::Running,
    {
        self.handle_events(events);
        if self.is_running() {
            self.tick();
            Some(render(self.background(), &self.player, output_width, output_height))
        } else {
            None
        }
    }
}

/// What one pass of the loop over `events` draws on a screen of the given
/// size: the player after the tick over the background of that tick, or
/// nothing where the loop has ended.
pub open spec fn frame_call(
    game: GameModel,
    events: Seq<InputEvent>,
    output_width: u32,
    output_height: u32,
) -> Option<DrawCall> {
    let next = game.advanced(events);
    if next.state == LoopState::Running {
        Some(draw_call(background(next.counter), next.player, output_width, output_height))
    } else {
        None
    }
}

/// An event turns a valid game into a valid game, and touches neither the
/// player nor the counter.
pub proof fn lemma_handled_keeps_game_valid(game: GameModel, event: InputEvent)
    requires
        game.wf(),
    ensures
        game.handled(event).wf(),
        game.handled(event).player == game.player,
        game.handled(event).counter == game.counter,
{
    match event {
        InputEvent::KeyDown { key } => {
            if key_direction(key) is Some {
                lemma_press_keeps_queue_valid(game.slots, key_direction(key).unwrap());
            }
        },
        InputEvent::KeyUp { key, repeat } => {
            if key_direction(key) is Some {
                lemma_release_keeps_queue_valid(game.slots, key_direction(key).unwrap());
            }
        },
        _ => {},
    }
}

/// Once the loop has ended the game is final: neither events nor ticks change
/// it.
pub proof fn lemma_terminated_is_final(game: GameModel, events: Seq<InputEvent>)
    requires
        game.state == LoopState::Terminated,
    ensures
        game.drained(events) == game,
        game.ticked() == game,
        game.advanced(events) == game,
    decreases events.len(),
{
    if events.len() > 0 {
        lemma_terminated_is_final(game, events.drop_first());
    }
}

/// Every game that events and ticks lead to from a valid game is valid.
pub proof fn lemma_advanced_keeps_game_valid(game: GameModel, events: Seq<InputEvent>)
    requires
        game.wf(),
    ensures
        game.drained(events).wf(),
        game.ticked().wf(),
        game.advanced(events).wf(),
    decreases events.len(),
{
    if events.len() > 0 {
        lemma_handled_keeps_game_valid(game, events[0]);
        lemma_advanced_keeps_game_valid(game.handled(events[0]), events.drop_first());
    }
}

} // verus!
