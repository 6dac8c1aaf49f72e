use vstd::prelude::*;

use crate::draw::{white, Color, Drawable, Position, Size};

verus! {

/// One member of the enemy formation.
#[derive(Clone, Copy)]
pub struct Enemy {
    pub color: Color,
    pub position: Position,
    pub size: Size,
}

impl Drawable for Enemy {
    open spec fn spec_size(&self) -> Size {
        self.size
    }

    open spec fn spec_position(&self) -> Position {
        self.position
    }

    fn get_size(&self) -> (s: &Size) {
        &self.size
    }

    fn get_position(&self) -> (p: &Position) {
        &self.position
    }
}

impl Enemy {
    pub fn new(width: u32, height: u32, x: u32, y: u32) -> (e: Enemy)
        ensures
            e.position == (Position { x, y }),
            e.size == (Size { height, width }),
            e.color == white(),
    {
        Enemy {
            position: Position::set(x, y),
            color: Color { r: 255, g: 255, b: 255, a: 255 },
            size: Size::set(height, width),
        }
    }

    /// The hit test between this enemy and a bullet: the bullet
    /// overlaps horizontally, and the bullet's leading (top) edge
    /// `y + height` lies within the enemy's vertical extent. The
    /// bullet's trailing edge is deliberately not examined.
    pub open spec fn spec_is_hit(self, bullet_size: Size, bullet_position: Position) -> bool {
        &&& bullet_position.x + bullet_size.width >= self.position.x
        &&& bullet_position.x <= self.position.x + self.size.width
        &&& bullet_position.y + bullet_size.height >= self.position.y
        &&& bullet_position.y + bullet_size.height <= self.position.y + self.size.height
    }

    pub fn is_hit(&self, bullet_size: &Size, bullet_position: &Position) -> (hit: bool)
        ensures
            hit == self.spec_is_hit(*bullet_size, *bullet_position),
    {
        bullet_position.x as u64 + bullet_size.width as u64 >= self.position.x as u64
            && bullet_position.x as u64 <= self.position.x as u64 + self.size.width as u64
            && bullet_position.y as u64 + bullet_size.height as u64 >= self.position.y as u64
            && bullet_position.y as u64 + bullet_size.height as u64
                <= self.position.y as u64 + self.size.height as u64
    }

    /// Relocates the enemy; the formation manager drives this in
    /// lockstep for every member.
    pub fn update(&mut self, x: u32, y: u32)
        ensures
            final(self).position == (Position { x, y }),
            final(self).size == old(self).size,
            final(self).color == old(self).color,
    {
        self.position.x = x;
        self.position.y = y;
    }
}

} // verus!
