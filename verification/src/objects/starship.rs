use vstd::prelude::*;

use crate::draw::{white, Color, Drawable, Position, Size};
use crate::game::Direction;
use crate::objects::enemy::Enemy;

verus! {

/// How far the starship travels per frame, in pixels.
pub const STARSHIP_MOVE_SPEED: u32 = 1;

/// Vertical gap between the starship and the bottom of the window.
pub const STARSHIP_BOTTOM_MARGIN: u32 = 30;

/// The player's ship: horizontally mobile, vertically fixed.
pub struct Starship {
    pub size: Size,
    pub color: Color,
    pub position: Position,
    pub move_speed: u32,
}

/// The one horizontal move rule of the starship: step by `speed` in
/// `direction`, then clamp into `[1, screen_width - ship_width]`.
pub open spec fn clamped_move(
    x: int,
    direction: Direction,
    speed: int,
    screen_width: int,
    ship_width: int,
) -> int {
    let moved = match direction {
        Direction::Left => x - speed,
        Direction::Right => x + speed,
    };
    let max_x = screen_width - ship_width;
    if moved < 1 {
        1
    } else if moved > max_x {
        max_x
    } else {
        moved
    }
}

impl Drawable for Starship {
    open spec fn spec_size(&self) -> Size {
        self.size
    }

    open spec fn spec_position(&self) -> Position {
        self.position
    }

    fn get_size(&self) -> (s: &Size) {
        &self.size
    }

    fn get_position(&self) -> (p: &Position) {
        &self.position
    }
}

impl Starship {
    /// Builds the starship centered horizontally, near the bottom of
    /// the window.
    pub fn config(window_size: &Size, height: u32, width: u32) -> (ship: Starship)
        requires
            window_size.height >= height + STARSHIP_BOTTOM_MARGIN,
            window_size.width >= width,
        ensures
            ship.size == (Size { height, width }),
            ship.position.x == (window_size.width - width) / 2,
            ship.position.y == window_size.height - height - STARSHIP_BOTTOM_MARGIN,
            ship.move_speed == STARSHIP_MOVE_SPEED,
            ship.color == white(),
    {
        let size = Size::set(height, width);
        let position_y = window_size.height - size.height - STARSHIP_BOTTOM_MARGIN;
        let position_x = (window_size.width - size.width) / 2;

        Starship {
            size,
            color: Color { r: 255, g: 255, b: 255, a: 255 },
            position: Position::set(position_x, position_y),
            move_speed: STARSHIP_MOVE_SPEED,
        }
    }

    /// Steps the ship one move in `direction` and clamps it into the
    /// screen. The clamp is the only boundary enforcement the player
    /// gets: after every call, `1 <= x <= screen_width - width`.
    pub fn move_starship(&mut self, direction: Direction, screen_width: u32)
        requires
            old(self).size.width < screen_width,
        ensures
            final(self).position.x == clamped_move(
                old(self).position.x as int,
                direction,
                old(self).move_speed as int,
                screen_width as int,
                old(self).size.width as int,
            ),
            1 <= final(self).position.x <= screen_width - old(self).size.width,
            final(self).position.y == old(self).position.y,
            final(self).size == old(self).size,
            final(self).color == old(self).color,
            final(self).move_speed == old(self).move_speed,
    {
        let max_x = screen_width - self.size.width;
        let moved: u32 = match direction {
            Direction::Left => {
                if self.position.x >= self.move_speed {
                    self.position.x - self.move_speed
                } else {
                    0
                }
            },
            Direction::Right => {
                if self.position.x <= u32::MAX - self.move_speed {
                    self.position.x + self.move_speed
                } else {
                    u32::MAX
                }
            },
        };
        self.position.x = if moved < 1 {
            1
        } else if moved > max_x {
            max_x
        } else {
            moved
        };
    }

    /// True iff the enemy's lower edge has reached or passed the
    /// starship's vertical line; horizontal overlap is ignored.
    pub open spec fn spec_collides_with(self, enemy: Enemy) -> bool {
        enemy.position.y + enemy.size.height >= self.position.y
    }

    pub fn check_collision(&self, enemy: &Enemy) -> (hit: bool)
        ensures
            hit == self.spec_collides_with(*enemy),
    {
        enemy.position.y as u64 + enemy.size.height as u64 >= self.position.y as u64
    }
}

} // verus!
