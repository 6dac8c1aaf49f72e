use vstd::prelude::*;

use crate::draw::{white, Color, Drawable, Position, Size};

verus! {

/// Shared configuration of every bullet: speed in pixels per frame
/// and a square size.
#[derive(Clone, Copy)]
pub struct BulletConfig {
    pub speed: u32,
    pub size: Size,
}

impl BulletConfig {
    pub fn new(speed: u32, size: u32) -> (config: BulletConfig)
        ensures
            config.speed == speed,
            config.size == (Size { height: size, width: size }),
    {
        BulletConfig { speed, size: Size::set(size, size) }
    }

    pub fn get_size(&self) -> (s: &Size)
        ensures
            *s == self.size,
    {
        &self.size
    }
}

/// Where a bullet's y lands after one upward step of `speed` pixels,
/// stopping at 0 instead of crossing it.
pub open spec fn advanced_y(y: int, speed: int) -> int {
    if y - speed < 0 {
        0
    } else {
        y - speed
    }
}

/// A bullet's y after `k` frames of upward travel.
pub open spec fn y_after_updates(y0: int, speed: int, k: nat) -> int
    decreases k,
{
    if k == 0 {
        y0
    } else {
        advanced_y(y_after_updates(y0, speed, (k - 1) as nat), speed)
    }
}

/// After `k` frames a bullet stands at `y0 - k*speed`, floored at 0;
/// it has left the screen (`y < 1`) exactly from the
/// `ceil(y0 / speed)`-th frame on, and stays gone.
pub proof fn lemma_bullet_lifecycle(y0: int, speed: int, k: nat)
    requires
        1 <= speed,
        1 <= y0,
    ensures
        y_after_updates(y0, speed, k) == (if y0 - k * speed >= 0 {
            y0 - k * speed
        } else {
            0
        }),
        y_after_updates(y0, speed, k) < 1 <==> k >= (y0 + speed - 1) / speed,
    decreases k,
{
    let n = (y0 + speed - 1) / speed;
    vstd::arithmetic::div_mod::lemma_fundamental_div_mod(y0 + speed - 1, speed);
    if k == 0 {
        assert(speed * n <= y0 + speed - 1);
        assert(n >= 1) by (nonlinear_arith)
            requires
                speed >= 1,
                y0 >= 1,
                speed * n + ((y0 + speed - 1) % speed) == y0 + speed - 1,
                0 <= (y0 + speed - 1) % speed < speed,
        ;
    } else {
        lemma_bullet_lifecycle(y0, speed, (k - 1) as nat);
        assert(k * speed == (k - 1) * speed + speed) by (nonlinear_arith);
        if y_after_updates(y0, speed, k) < 1 {
            assert(y0 - k * speed <= 0);
            assert(k >= n) by (nonlinear_arith)
                requires
                    speed >= 1,
                    k >= 1,
                    y0 - k * speed <= 0,
                    speed * n + ((y0 + speed - 1) % speed) == y0 + speed - 1,
                    0 <= (y0 + speed - 1) % speed < speed,
            ;
        }
        if k >= n {
            assert(y0 - k * speed <= 0) by (nonlinear_arith)
                requires
                    speed >= 1,
                    k >= n,
                    speed * n + ((y0 + speed - 1) % speed) == y0 + speed - 1,
                    0 <= (y0 + speed - 1) % speed < speed,
            ;
        }
    }
}

/// A projectile fired by the starship, moving straight up.
#[derive(Clone, Copy)]
pub struct Bullet {
    pub position: Position,
    pub color: Color,
    pub config: BulletConfig,
}

impl Drawable for Bullet {
    open spec fn spec_size(&self) -> Size {
        self.config.size
    }

    open spec fn spec_position(&self) -> Position {
        self.position
    }

    fn get_size(&self) -> (s: &Size) {
        &self.config.size
    }

    fn get_position(&self) -> (p: &Position) {
        &self.position
    }
}

impl Bullet {
    pub fn new(position: Position, config: BulletConfig) -> (b: Bullet)
        ensures
            b.position == position,
            b.config.speed == config.speed,
            b.config.size == config.size,
            b.color == white(),
    {
        Bullet { position, config, color: Color { r: 255, g: 255, b: 255, a: 255 } }
    }

    /// A bullet lives only while `y >= 1`; below that it has left the
    /// top of the screen and is pruned.
    pub open spec fn spec_is_off_screen(self) -> bool {
        self.position.y < 1
    }

    pub fn is_off_screen(&self) -> (off: bool)
        ensures
            off == self.spec_is_off_screen(),
    {
        self.position.y < 1
    }

    /// Advances the bullet one frame upward (decreasing y), stopping
    /// at 0 rather than wrapping past the screen top.
    pub fn update(&mut self)
        ensures
            final(self).position.y == advanced_y(
                old(self).position.y as int,
                old(self).config.speed as int,
            ),
            final(self).position.x == old(self).position.x,
            final(self).config == old(self).config,
            final(self).color == old(self).color,
    {
        if self.position.y >= self.config.speed {
            self.position.y = self.position.y - self.config.speed;
        } else {
            self.position.y = 0;
        }
    }
}

} // verus!
