//! Geometry and colour primitives, and the dimensions they are measured in.
//!
//! Positions are whole pixels on a rectangular field whose origin is the top
//! left corner. Colours are four channels in hundredths of full intensity.
//! Neither type carries any game rule.

use vstd::prelude::*;

verus! {

/// Frames drawn per second.
pub const FPS: u64 = 60;

/// Simulation ticks, and network polls, per second.
pub const TICK_RATE_FREQ: u64 = 120;

/// Edge length of one grid cell, in pixels. A snake advances by this much per move.
pub const SNAKE_SIZE: i32 = 20;

/// Simulation ticks between two moves of a snake.
pub const SNAKE_TICKS_PER_MOVE: u32 = 20;

/// Width of the field, in pixels.
pub const SCREEN_WIDTH: i32 = 800;

/// Height of the field, in pixels.
pub const SCREEN_HEIGHT: i32 = 600;

/// Number of players a match is played with. No more can be registered.
pub const PLAYER_COUNT_MAX: usize = 2;

/// A position on the field, in whole pixels.
#[derive(Clone, Copy, PartialEq, Eq, Structural, Debug)]
pub struct MyVec2 {
    pub x: i32,
    pub y: i32,
}

impl MyVec2 {
    /// The position `x` pixels from the left and `y` pixels from the top.
    pub fn new(x: i32, y: i32) -> (v: Self)
        ensures
            v == (MyVec2 { x, y }),
    {
        Self { x, y }
    }

    /// The position lies on the field.
    pub open spec fn in_bounds(self) -> bool {
        0 <= self.x < SCREEN_WIDTH && 0 <= self.y < SCREEN_HEIGHT
    }

    /// Both coordinates are whole multiples of the cell size.
    pub open spec fn grid_aligned(self) -> bool {
        self.x as int % SNAKE_SIZE as int == 0 && self.y as int % SNAKE_SIZE as int == 0
    }
}

/// An RGBA colour. Each channel is given in hundredths of full intensity,
/// from 0 to 100. Game logic only carries a colour along.
#[derive(Clone, Copy, PartialEq, Eq, Structural, Debug)]
pub struct MyColor {
    pub r: u8,
    pub g: u8,
    pub b: u8,
    pub a: u8,
}

/// Colour of the first player's snake.
pub open spec fn pink() -> MyColor {
    MyColor { r: 100, g: 43, b: 76, a: 100 }
}

/// Colour of the second player's snake.
pub open spec fn green() -> MyColor {
    MyColor { r: 0, g: 89, b: 19, a: 100 }
}

/// Colour of the fruit.
pub open spec fn yellow() -> MyColor {
    MyColor { r: 99, g: 98, b: 0, a: 100 }
}

/// The colour a player's snake gets, by the player's index in name order.
pub open spec fn player_color_spec(index: int) -> MyColor {
    if index == 0 {
        pink()
    } else {
        green()
    }
}

/// The colour of the snake of the player at `index`.
pub fn player_color(index: usize) -> (c: MyColor)
    requires
        index < PLAYER_COUNT_MAX,
    ensures
        c == player_color_spec(index as int),
{
    if index == 0 {
        MyColor { r: 100, g: 43, b: 76, a: 100 }
    } else {
        MyColor { r: 0, g: 89, b: 19, a: 100 }
    }
}

/// The colour the fruit is drawn in.
pub fn fruit_color() -> (c: MyColor)
    ensures
        c == yellow(),
{
    MyColor { r: 99, g: 98, b: 0, a: 100 }
}

} // verus!
