//! The player and the update that one tick applies to it.

use vstd::prelude::*;
use crate::direction::Direction;
use crate::direction::SPRITESHEET_ROWS;
use crate::geometry::Point;
use crate::geometry::Rect;
use crate::geometry::MAX_COORDINATE;
use crate::geometry::MIN_COORDINATE;
use crate::input::holds;
use crate::input::InputQueue;

verus! {

/// Distance in pixels that the player covers in one tick.
pub const PLAYER_MOVEMENT_SPEED: i32 = 5;

/// Number of frames in the walking animation of each direction.
pub const FRAMES_PER_DIRECTION: i32 = 3;

/// Width in pixels of one frame of the sprite sheet.
pub const SPRITE_WIDTH: u32 = 26;

/// Height in pixels of one frame of the sprite sheet.
pub const SPRITE_HEIGHT: u32 = 36;

/// Displacement per tick along each axis; `y` grows downward.
#[derive(Debug, Clone, Copy, PartialEq, Eq, Structural)]
pub struct Velocity {
    pub x: i32,
    pub y: i32,
}

/// The velocity of a player who stands still.
pub open spec fn at_rest() -> Velocity {
    Velocity { x: 0, y: 0 }
}

/// The velocity of a player who walks in `direction`.
pub open spec fn velocity_toward(direction: Direction) -> Velocity {
    match direction {
        Direction::Up => Velocity { x: 0, y: (-PLAYER_MOVEMENT_SPEED) as i32 },
        Direction::Down => Velocity { x: 0, y: PLAYER_MOVEMENT_SPEED },
        Direction::Left => Velocity { x: (-PLAYER_MOVEMENT_SPEED) as i32, y: 0 },
        Direction::Right => Velocity { x: PLAYER_MOVEMENT_SPEED, y: 0 },
    }
}

/// The velocity that the queue asks for. The direction in slot 0 sets it, and
/// none sets it to rest. Then each axis on which both directions are held, in
/// whatever slots, is set to 0.
pub open spec fn resolved_velocity(slots: Seq<Option<Direction>>) -> Velocity {
    let intended = match slots[0] {
        Some(direction) => velocity_toward(direction),
        None => at_rest(),
    };
    Velocity {
        x: if holds(slots, Direction::Left) && holds(slots, Direction::Right) {
            0
        } else {
            intended.x
        },
        y: if holds(slots, Direction::Up) && holds(slots, Direction::Down) {
            0
        } else {
            intended.y
        },
    }
}

/// The direction that the player faces after a tick: the one in slot 0, or
/// the one faced before where slot 0 is vacant.
pub open spec fn resolved_facing(slots: Seq<Option<Direction>>, facing: Direction) -> Direction {
    match slots[0] {
        Some(direction) => direction,
        None => facing,
    }
}

/// The frame of the animation after a tick. It moves on by one, and from the
/// last frame back to the first, only where the player moves along both axes
/// at once.
pub open spec fn next_frame(frame: int, velocity: Velocity) -> int {
    if velocity.x != 0 && velocity.y != 0 {
        (frame + 1) % (FRAMES_PER_DIRECTION as int)
    } else {
        frame
    }
}

/// Whether every frame of the sheet that starts at `sprite` has a corner that
/// can be computed in `i32`.
pub open spec fn sheet_fits(sprite: Rect) -> bool {
    &&& sprite.x + sprite.width * (FRAMES_PER_DIRECTION - 1) <= i32::MAX
    &&& sprite.height * (SPRITESHEET_ROWS - 1) <= i32::MAX
    &&& sprite.y + sprite.height * (SPRITESHEET_ROWS - 1) <= i32::MAX
}

/// Looks up the velocity of a player who walks in `direction`.
pub fn direction_velocity(direction: Direction) -> (velocity: Velocity)
    ensures
        velocity == velocity_toward(direction),
{
    match direction {
        Direction::Up => Velocity { x: 0, y: -PLAYER_MOVEMENT_SPEED },
        Direction::Down => Velocity { x: 0, y: PLAYER_MOVEMENT_SPEED },
        Direction::Left => Velocity { x: -PLAYER_MOVEMENT_SPEED, y: 0 },
        Direction::Right => Velocity { x: PLAYER_MOVEMENT_SPEED, y: 0 },
    }
}

/// The player: where it stands, how it moves, and what is drawn for it.
#[derive(Debug, Clone, Copy, PartialEq, Eq, Structural)]
pub struct PlayerState {
    /// Where the player stands, relative to the middle of the screen.
    pub position: Point,
    /// The first frame of the first row of the sprite sheet.
    pub sprite: Rect,
    /// How far the player moved in the last tick.
    pub velocity: Velocity,
    /// The direction that the player faces.
    pub direction: Direction,
    /// The frame of the walking animation that is shown.
    pub current_frame: i32,
}

impl PlayerState {
    /// The frame is one of the animation, and the sprite is a rectangle whose
    /// sheet fits.
    pub open spec fn wf(self) -> bool {
        &&& 0 <= self.current_frame < FRAMES_PER_DIRECTION
        &&& self.sprite.wf()
        &&& sheet_fits(self.sprite)
    }

    /// The player as it is first shown: at the origin, at rest, facing right,
    /// on the first frame.
    pub open spec fn initial() -> PlayerState {
        PlayerState {
            position: Point { x: 0, y: 0 },
            sprite: Rect { x: 0, y: 0, width: SPRITE_WIDTH, height: SPRITE_HEIGHT },
            velocity: at_rest(),
            direction: Direction::Right,
            current_frame: 0,
        }
    }

    /// The player one tick later, under the held directions `slots`.
    pub open spec fn updated(self, slots: Seq<Option<Direction>>) -> PlayerState {
        let velocity = resolved_velocity(slots);
        PlayerState {
            position: Point::clamped(self.position.x + velocity.x, self.position.y + velocity.y),
            sprite: self.sprite,
            velocity,
            direction: resolved_facing(slots, self.direction),
            current_frame: next_frame(self.current_frame as int, velocity) as i32,
        }
    }

    /// Tells whether the player is valid.
    pub fn is_valid(&self) -> (valid: bool)
        ensures
            valid == self.wf(),
    {
        let x: i64 = self.sprite.x as i64;
        let y: i64 = self.sprite.y as i64;
        let width: i64 = self.sprite.width as i64;
        let height: i64 = self.sprite.height as i64;
        let last_column: i64 = (FRAMES_PER_DIRECTION - 1) as i64;
        let last_row: i64 = (SPRITESHEET_ROWS - 1) as i64;
        let limit: i64 = i32::MAX as i64;
        assert(0 <= width * last_column <= 2 * u32::MAX) by (nonlinear_arith)
            requires
                0 <= width <= u32::MAX,
                last_column == 2,
        ;
        assert(0 <= height * last_row <= 3 * u32::MAX) by (nonlinear_arith)
            requires
                0 <= height <= u32::MAX,
                last_row == 3,
        ;
        0 <= self.current_frame && self.current_frame < FRAMES_PER_DIRECTION
            && self.sprite.is_valid() && x + width * last_column <= limit && height * last_row
            <= limit && y + height * last_row <= limit
    }

    /// Makes the player as it is first shown.
    pub fn new() -> (player: PlayerState)
        ensures
            player == PlayerState::initial(),
            player.wf(),
    {
        PlayerState {
            position: Point::new(0, 0),
            sprite: Rect::new(0, 0, SPRITE_WIDTH, SPRITE_HEIGHT),
            velocity: Velocity { x: 0, y: 0 },
            direction: Direction::Right,
            current_frame: 0,
        }
    }
}

/// Moves the player by one tick. The queue sets velocity and facing, the
/// animation moves on where the player moves along both axes, and the
/// position moves by the velocity, clamped to the range of coordinates.
pub fn update_player(queue: &InputQueue, player: &mut PlayerState)
    requires
        queue.wf(),
        old(player).wf(),
    ensures
        *final(player) == old(player).updated(queue@),
        final(player).wf(),
        final(player).velocity == resolved_velocity(queue@),
        holds(queue@, Direction::Up) && holds(queue@, Direction::Down)
            ==> final(player).velocity.y == 0,
        holds(queue@, Direction::Left) && holds(queue@, Direction::Right)
            ==> final(player).velocity.x == 0,
        queue@[0] is None ==> final(player).direction == old(player).direction,
        queue@[0] is Some ==> Some(final(player).direction) == queue@[0],
        final(player).current_frame == old(player).current_frame,
{
    match queue.active_direction() {
        Some(direction) => {
            player.velocity = direction_velocity(direction);
            player.direction = direction;
        },
        None => {
            player.velocity = Velocity { x: 0, y: 0 };
        },
    }
    if queue.contains(Direction::Up) && queue.contains(Direction::Down) {
        player.velocity.y = 0;
    }
    if queue.contains(Direction::Left) && queue.contains(Direction::Right) {
        player.velocity.x = 0;
    }
    if player.velocity.x != 0 && player.velocity.y != 0 {
        player.current_frame = (player.current_frame + 1) % FRAMES_PER_DIRECTION;
    }
    player.position = player.position.offset(player.velocity.x, player.velocity.y);
}

/// Opposing keys cancel: while both directions of an axis are held, in
/// whatever slots, the player does not move along that axis.
pub proof fn lemma_opposing_keys_cancel(player: PlayerState, slots: Seq<Option<Direction>>)
    ensures
        holds(slots, Direction::Up) && holds(slots, Direction::Down) ==> player.updated(
            slots,
        ).velocity.y == 0,
        holds(slots, Direction::Left) && holds(slots, Direction::Right) ==> player.updated(
            slots,
        ).velocity.x == 0,
{
}

/// Facing persists: where no direction is active the player keeps facing the
/// way it faced, and it rests.
pub proof fn lemma_facing_persists(player: PlayerState, slots: Seq<Option<Direction>>)
    requires
        slots[0] is None,
    ensures
        player.updated(slots).direction == player.direction,
        player.updated(slots).velocity == at_rest(),
{
}

/// The player walks in the active direction at full speed, unless the
/// opposite direction is held too: then it rests.
pub proof fn lemma_velocity_follows_active_direction(
    slots: Seq<Option<Direction>>,
    direction: Direction,
)
    requires
        slots.len() > 0,
        slots[0] == Some(direction),
    ensures
        resolved_velocity(slots) == if holds(slots, direction.opposite()) {
            at_rest()
        } else {
            velocity_toward(direction)
        },
{
    assert(holds(slots, direction));
}

/// The player never moves along both axes at once, and along one axis it
/// moves by the movement speed or not at all.
pub proof fn lemma_velocity_is_along_one_axis(slots: Seq<Option<Direction>>)
    ensures
        resolved_velocity(slots).x == 0 || resolved_velocity(slots).y == 0,
        resolved_velocity(slots).x == 0 || resolved_velocity(slots).x == PLAYER_MOVEMENT_SPEED
            || resolved_velocity(slots).x == -PLAYER_MOVEMENT_SPEED,
        resolved_velocity(slots).y == 0 || resolved_velocity(slots).y == PLAYER_MOVEMENT_SPEED
            || resolved_velocity(slots).y == -PLAYER_MOVEMENT_SPEED,
{
}

/// The animation stands still: it moves on only where the player moves along
/// both axes, and no queue makes the player do so.
pub proof fn lemma_frame_never_advances(player: PlayerState, slots: Seq<Option<Direction>>)
    ensures
        player.updated(slots).current_frame == player.current_frame,
{
    lemma_velocity_is_along_one_axis(slots);
}

/// Away from the edges of the range of coordinates, the position moves by
/// exactly the velocity.
pub proof fn lemma_position_moves_by_velocity(player: PlayerState, slots: Seq<Option<Direction>>)
    requires
        MIN_COORDINATE + PLAYER_MOVEMENT_SPEED <= player.position.x <= MAX_COORDINATE
            - PLAYER_MOVEMENT_SPEED,
        MIN_COORDINATE + PLAYER_MOVEMENT_SPEED <= player.position.y <= MAX_COORDINATE
            - PLAYER_MOVEMENT_SPEED,
    ensures
        player.updated(slots).position.x == player.position.x + player.updated(slots).velocity.x,
        player.updated(slots).position.y == player.position.y + player.updated(slots).velocity.y,
{
    lemma_velocity_is_along_one_axis(slots);
}

} // verus!
