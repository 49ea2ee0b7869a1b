//! What to draw for a player: the frame of the sprite sheet to copy, the place
//! on the screen to copy it to, and the color behind it.

use vstd::prelude::*;
use crate::direction::direction_spritesheet_row;
use crate::direction::spritesheet_row;
use crate::direction::Direction;
use crate::direction::SPRITESHEET_ROWS;
use crate::geometry::Point;
use crate::geometry::Rect;
use crate::geometry::MAX_COORDINATE;
use crate::geometry::MAX_SIZE;
use crate::geometry::MIN_COORDINATE;
use crate::player::sheet_fits;
use crate::player::PlayerState;
use crate::player::FRAMES_PER_DIRECTION;

verus! {

/// The green part of every background color.
pub const BACKGROUND_GREEN: u8 = 64;

/// A color by its red, green and blue parts.
#[derive(Debug, Clone, Copy, PartialEq, Eq, Structural)]
pub struct Color {
    pub r: u8,
    pub g: u8,
    pub b: u8,
}

/// One frame to put on the screen: clear to `background`, then copy `source`
/// of the sprite sheet to `destination` of the screen.
#[derive(Debug, Clone, Copy, PartialEq, Eq, Structural)]
pub struct DrawCall {
    pub background: Color,
    pub source: Rect,
    pub destination: Rect,
}

/// The background after `counter` ticks: red rises with the counter while
/// blue falls.
pub open spec fn background(counter: u8) -> Color {
    Color { r: counter, g: BACKGROUND_GREEN, b: (255 - counter) as u8 }
}

/// The frame of the sheet for `frame` of the animation of `direction`. Frames
/// of one direction lie side by side in a row, and the rows of the
/// directions lie below one another, all of the size of `sprite`, which is the
/// first frame of the first row.
pub open spec fn frame_region(sprite: Rect, frame: int, direction: Direction) -> Rect {
    Rect::clamped(
        sprite.x + sprite.width * frame,
        sprite.y + sprite.height * spritesheet_row(direction),
        sprite.width as int,
        sprite.height as int,
    )
}

/// The middle of a screen of the given size.
pub open spec fn screen_middle(output_width: u32, output_height: u32) -> Point {
    Point::clamped(output_width as int / 2, output_height as int / 2)
}

/// The place on a screen of the given size where a sprite of `width` by
/// `height` is drawn for a player at `position`: centered on the position,
/// which counts from the middle of the screen.
pub open spec fn screen_region(
    position: Point,
    width: u32,
    height: u32,
    output_width: u32,
    output_height: u32,
) -> Rect {
    let middle = screen_middle(output_width, output_height);
    Rect::centered(
        Point::clamped(position.x + middle.x, position.y + middle.y),
        width as int,
        height as int,
    )
}

/// All that is drawn for `player` on a screen of the given size.
pub open spec fn draw_call(
    color: Color,
    player: PlayerState,
    output_width: u32,
    output_height: u32,
) -> DrawCall {
    DrawCall {
        background: color,
        source: frame_region(player.sprite, player.current_frame as int, player.direction),
        destination: screen_region(
            player.position,
            player.sprite.width,
            player.sprite.height,
            output_width,
            output_height,
        ),
    }
}

/// Makes the background color for the tick that `counter` counts.
pub fn background_color(counter: u8) -> (color: Color)
    ensures
        color == background(counter),
        color.r + color.b == 255,
{
    Color { r: counter, g: BACKGROUND_GREEN, b: 255 - counter }
}

/// Picks the frame of the sprite sheet that shows `frame` of the animation of
/// `direction`.
pub fn sprite_frame(sprite: Rect, frame: i32, direction: Direction) -> (region: Rect)
    requires
        sprite.wf(),
        sheet_fits(sprite),
        0 <= frame < FRAMES_PER_DIRECTION,
    ensures
        region == frame_region(sprite, frame as int, direction),
        region.wf(),
        region.width == sprite.width,
        region.height == sprite.height,
{
    let frame_width: i32 = sprite.width as i32;
    let frame_height: i32 = sprite.height as i32;
    let row: i32 = direction_spritesheet_row(direction);
    assert(0 <= frame_width * frame <= frame_width * (FRAMES_PER_DIRECTION - 1))
        by (nonlinear_arith)
        requires
            0 <= frame <= FRAMES_PER_DIRECTION - 1,
            0 <= frame_width,
    ;
    assert(0 <= frame_height * row <= frame_height * (SPRITESHEET_ROWS - 1)) by (nonlinear_arith)
        requires
            0 <= row <= SPRITESHEET_ROWS - 1,
            0 <= frame_height,
    ;
    Rect::new(
        sprite.x + frame_width * frame,
        sprite.y + frame_height * row,
        sprite.width,
        sprite.height,
    )
}

/// Places a sprite of `width` by `height` on a screen of the given size, for
/// a player at `position`.
pub fn screen_rect(
    position: Point,
    width: u32,
    height: u32,
    output_width: u32,
    output_height: u32,
) -> (region: Rect)
    ensures
        region == screen_region(position, width, height, output_width, output_height),
        region.wf(),
{
    let middle = Point::new((output_width / 2) as i32, (output_height / 2) as i32);
    let center = position.offset(middle.x, middle.y);
    Rect::from_center(center, width, height)
}

/// Works out what to draw for `player` on a screen of `output_width` by
/// `output_height` pixels, over a background of `color`.
pub fn render(color: Color, player: &PlayerState, output_width: u32, output_height: u32) -> (call:
    DrawCall)
    requires
        player.wf(),
    ensures
        call == draw_call(color, *player, output_width, output_height),
        call.source.wf(),
        call.destination.wf(),
{
    DrawCall {
        background: color,
        source: sprite_frame(player.sprite, player.current_frame, player.direction),
        destination: screen_rect(
            player.position,
            player.sprite.width,
            player.sprite.height,
            output_width,
            output_height,
        ),
    }
}

/// Away from the edges of the range of coordinates nothing is clamped: the
/// sprite is drawn with its middle at the position, counted from the middle of
/// the screen, each half rounded down.
pub proof fn lemma_sprite_is_centered_on_position(
    position: Point,
    width: u32,
    height: u32,
    output_width: u32,
    output_height: u32,
)
    requires
        1 <= width <= MAX_SIZE,
        1 <= height <= MAX_SIZE,
        output_width <= i32::MAX,
        output_height <= i32::MAX,
        MIN_COORDINATE + width / 2 <= position.x + output_width / 2 <= MAX_COORDINATE,
        MIN_COORDINATE + height / 2 <= position.y + output_height / 2 <= MAX_COORDINATE,
    ensures
        screen_region(position, width, height, output_width, output_height) == (Rect {
            x: (position.x + output_width / 2 - width / 2) as i32,
            y: (position.y + output_height / 2 - height / 2) as i32,
            width,
            height,
        }),
{
}

/// Within the sheet nothing is clamped: the frame lies `frame` widths to the
/// right of the sprite and as many heights below it as the row of the
/// direction says.
pub proof fn lemma_frame_lies_in_its_row_and_column(sprite: Rect, frame: int, direction: Direction)
    requires
        sprite.wf(),
        0 <= frame < FRAMES_PER_DIRECTION,
        sprite.x + sprite.width * frame <= MAX_COORDINATE,
        sprite.y + sprite.height * spritesheet_row(direction) <= MAX_COORDINATE,
    ensures
        frame_region(sprite, frame, direction) == (Rect {
            x: (sprite.x + sprite.width * frame) as i32,
            y: (sprite.y + sprite.height * spritesheet_row(direction)) as i32,
            width: sprite.width,
            height: sprite.height,
        }),
{
    assert(0 <= sprite.width * frame) by (nonlinear_arith)
        requires
            0 <= frame,
            0 <= sprite.width,
    ;
    assert(0 <= sprite.height * spritesheet_row(direction)) by (nonlinear_arith)
        requires
            0 <= spritesheet_row(direction),
            0 <= sprite.height,
    ;
}

} // verus!
