use vstd::prelude::*;

use crate::draw::{white, Position, Size};
use crate::game::Direction;
use crate::objects::enemy::Enemy;
use crate::objects::starship::Starship;

verus! {

/// Number of rows in the initial enemy grid.
pub const LAYERS: u32 = 5;

/// Horizontal and vertical gap between grid cells, in pixels.
pub const SPACE_BETWEEN_ENEMIES: u32 = 30;

/// Height of every enemy, in pixels.
pub const ENEMY_HEIGHT: u32 = 20;

/// How far the whole formation drops on a direction flip, in pixels.
pub const STEP_DOWN: u32 = 10;

/// Layout parameters of the initial enemy grid.
pub struct EnemiesConfig {
    pub number: u32,
    pub width: u32,
    pub space_between: u32,
    pub layers: u32,
}

impl EnemiesConfig {
    pub fn new(number: u32, width: u32) -> (config: EnemiesConfig)
        ensures
            config.number == number,
            config.width == width,
            config.space_between == SPACE_BETWEEN_ENEMIES,
            config.layers == LAYERS,
    {
        EnemiesConfig {
            number,
            width,
            space_between: SPACE_BETWEEN_ENEMIES,
            layers: LAYERS,
        }
    }
}

/// Width the grid needs: one cell plus one gap per column.
pub open spec fn total_grid_width(config: EnemiesConfig) -> int {
    (config.width + config.space_between) * config.number
}

/// The enemy the grid places at slot `i`, row-major, rows starting at
/// 1, the whole grid centered horizontally in the window.
pub open spec fn grid_enemy(config: EnemiesConfig, window_width: int, i: int) -> Enemy {
    let cell = config.width + config.space_between;
    let row = i / (config.number as int) + 1;
    let col = i % (config.number as int);
    let initial = (window_width - total_grid_width(config)) / 2;
    Enemy {
        color: white(),
        position: Position {
            x: (initial + cell * col) as u32,
            y: (row * (ENEMY_HEIGHT + config.space_between)) as u32,
        },
        size: Size { height: ENEMY_HEIGHT, width: config.width },
    }
}

/// True iff some enemy touches the window's horizontal border: its
/// right edge at or past the window width, or its x left of 1.
pub open spec fn formation_hits_edge(enemies: Seq<Enemy>, window_width: int) -> bool {
    exists|i: int|
        0 <= i < enemies.len() && (enemies[i].position.x + enemies[i].size.width >= window_width
            || enemies[i].position.x < 1)
}

/// One horizontal formation step, saturating at the type's bounds.
pub open spec fn moved_x(x: int, direction: Direction) -> int {
    match direction {
        Direction::Left => if x >= 1 { x - 1 } else { 0 },
        Direction::Right => if x + 1 <= u32::MAX { x + 1 } else { u32::MAX as int },
    }
}

/// The vertical step-down applied on a bounce frame.
pub open spec fn moved_y(y: int, down: bool) -> int {
    if down {
        if y + STEP_DOWN <= u32::MAX { y + STEP_DOWN } else { u32::MAX as int }
    } else {
        y
    }
}

/// Where one enemy stands after a formation step in `direction`,
/// dropped by the step-down when `down` holds.
pub open spec fn stepped_enemy(e: Enemy, direction: Direction, down: bool) -> Enemy {
    Enemy {
        color: e.color,
        position: Position {
            x: moved_x(e.position.x as int, direction) as u32,
            y: moved_y(e.position.y as int, down) as u32,
        },
        size: e.size,
    }
}

/// The sweep direction after a frame's edge check: flipped exactly
/// when some enemy touches a horizontal border.
pub open spec fn formation_direction(
    enemies: Seq<Enemy>,
    direction: Direction,
    window_width: int,
) -> Direction {
    if formation_hits_edge(enemies, window_width) {
        direction.spec_opposite()
    } else {
        direction
    }
}

/// The whole formation after one lockstep step.
pub open spec fn stepped_formation(enemies: Seq<Enemy>, direction: Direction, down: bool) -> Seq<
    Enemy,
> {
    enemies.map(|i: int, e: Enemy| stepped_enemy(e, direction, down))
}

/// The formation bounce: an enemy touching a horizontal border makes
/// the very next step flip the sweep direction and drop the whole
/// formation by the step-down in that same step; and as long as the
/// stepped formation touches no border, the following step keeps the
/// new direction and does not drop again.
pub proof fn lemma_formation_bounce(
    enemies: Seq<Enemy>,
    direction: Direction,
    window_width: int,
    edge_idx: int,
)
    requires
        0 <= edge_idx < enemies.len(),
        enemies[edge_idx].position.x + enemies[edge_idx].size.width >= window_width
            || enemies[edge_idx].position.x < 1,
    ensures
        formation_direction(enemies, direction, window_width) == direction.spec_opposite(),
        forall|i: int|
            0 <= i < enemies.len() && enemies[i].position.y + STEP_DOWN <= u32::MAX
                ==> #[trigger] stepped_formation(
                enemies,
                direction.spec_opposite(),
                true,
            )[i].position.y == enemies[i].position.y + STEP_DOWN,
        ({
            let after = stepped_formation(enemies, direction.spec_opposite(), true);
            !formation_hits_edge(after, window_width) ==> {
                &&& formation_direction(after, direction.spec_opposite(), window_width)
                    == direction.spec_opposite()
                &&& forall|i: int|
                    0 <= i < after.len() ==> #[trigger] stepped_formation(
                        after,
                        direction.spec_opposite(),
                        false,
                    )[i].position.y == after[i].position.y
            }
        }),
{
    assert(formation_hits_edge(enemies, window_width));
}

/// Index of the first enemy, in iteration order, that the bullet
/// bounds hit; `None` when it hits none.
pub open spec fn first_hit_index(
    bullet_size: Size,
    bullet_position: Position,
    enemies: Seq<Enemy>,
) -> Option<int>
    decreases enemies.len(),
{
    if enemies.len() == 0 {
        None
    } else if enemies[0].spec_is_hit(bullet_size, bullet_position) {
        Some(0int)
    } else {
        match first_hit_index(bullet_size, bullet_position, enemies.drop_first()) {
            None => None,
            Some(j) => Some(j + 1),
        }
    }
}

/// `first_hit_index` returns exactly the least hit index, and `None`
/// exactly when no enemy is hit.
pub proof fn lemma_first_hit_index(bullet_size: Size, bullet_position: Position, enemies: Seq<Enemy>)
    ensures
        match first_hit_index(bullet_size, bullet_position, enemies) {
            None => forall|k: int|
                0 <= k < enemies.len() ==> !enemies[k].spec_is_hit(bullet_size, bullet_position),
            Some(j) => 0 <= j < enemies.len()
                && enemies[j].spec_is_hit(bullet_size, bullet_position)
                && forall|k: int| 0 <= k < j ==> !enemies[k].spec_is_hit(bullet_size, bullet_position),
        },
    decreases enemies.len(),
{
    if enemies.len() > 0 && !enemies[0].spec_is_hit(bullet_size, bullet_position) {
        lemma_first_hit_index(bullet_size, bullet_position, enemies.drop_first());
        assert(forall|k: int|
            1 <= k < enemies.len() ==> enemies[k] == enemies.drop_first()[k - 1]);
    }
}

/// The live enemy formation and its shared sweep direction.
pub struct EnemyManager {
    pub enemies: Vec<Enemy>,
    pub direction: Direction,
}

impl EnemyManager {
    /// The direction after this frame's edge check.
    pub open spec fn spec_new_direction(self, window_width: int) -> Direction {
        formation_direction(self.enemies@, self.direction, window_width)
    }

    /// Builds the initial grid, or `None` when the grid is wider than
    /// the window: no partial grid is ever produced.
    pub fn new(config: EnemiesConfig, window_width: u32) -> (m: Option<EnemyManager>)
        requires
            config.layers as int * (ENEMY_HEIGHT as int + config.space_between as int)
                <= u32::MAX as int,
        ensures
            m is None <==> total_grid_width(config) > window_width,
            m matches Some(mgr) ==> {
                &&& mgr.enemies@.len() == config.layers as int * config.number as int
                &&& forall|i: int|
                    0 <= i < mgr.enemies@.len() ==> mgr.enemies@[i] == grid_enemy(
                        config,
                        window_width as int,
                        i,
                    )
                &&& mgr.direction == Direction::Right
            },
    {
        match Self::generate_enemies(&config, window_width) {
            None => None,
            Some(enemies) => Some(EnemyManager { enemies, direction: Direction::Right }),
        }
    }

    fn generate_enemies(config: &EnemiesConfig, window_width: u32) -> (r: Option<Vec<Enemy>>)
        requires
            config.layers as int * (ENEMY_HEIGHT as int + config.space_between as int)
                <= u32::MAX as int,
        ensures
            r is None <==> total_grid_width(*config) > window_width,
            r matches Some(enemies) ==> {
                &&& enemies@.len() == config.layers as int * config.number as int
                &&& forall|i: int|
                    0 <= i < enemies@.len() ==> enemies@[i] == grid_enemy(
                        *config,
                        window_width as int,
                        i,
                    )
            },
    {
        let cell: u64 = config.width as u64 + config.space_between as u64;
        proof {
            assert(cell as int * config.number as int <= u64::MAX as int * u32::MAX as int)
                by (nonlinear_arith)
                requires
                    0 <= cell <= u64::MAX as int,
                    0 <= config.number <= u32::MAX as int,
            ;
            assert(config.layers as int * config.number as int
                <= u32::MAX as int * u32::MAX as int) by (nonlinear_arith)
                requires
                    0 <= config.layers <= u32::MAX as int,
                    0 <= config.number <= u32::MAX as int,
            ;
        }
        let total_window_width: u128 = cell as u128 * config.number as u128;

        if total_window_width > window_width as u128 {
            return None;
        }

        let total_width: u64 = total_window_width as u64;
        let initial_position: u64 = (window_width as u64 - total_width) / 2;
        let total_enemies: u64 = config.layers as u64 * config.number as u64;
        let row_height: u64 = ENEMY_HEIGHT as u64 + config.space_between as u64;

        let mut enemies: Vec<Enemy> = Vec::new();
        let mut i: u64 = 0;
        while i < total_enemies
            invariant
                total_enemies == config.layers as int * config.number as int,
                cell == config.width as int + config.space_between as int,
                row_height == ENEMY_HEIGHT as int + config.space_between as int,
                total_width == total_grid_width(*config),
                total_width <= window_width,
                initial_position == (window_width as int - total_grid_width(*config)) / 2,
                config.layers as int * row_height as int <= u32::MAX as int,
                i <= total_enemies,
                enemies@.len() == i,
                forall|j: int|
                    0 <= j < i ==> enemies@[j] == grid_enemy(*config, window_width as int, j),
            decreases total_enemies - i,
        {
            let n: u64 = config.number as u64;
            proof {
                assert(n > 0) by (nonlinear_arith)
                    requires
                        i < total_enemies,
                        total_enemies == config.layers as int * n,
                        i >= 0,
                        n >= 0,
                ;
            }
            let row: u64 = i / n + 1;
            let col: u64 = i % n;
            proof {
                assert(col < n && row <= config.layers as int) by (nonlinear_arith)
                    requires
                        n > 0,
                        0 <= i < total_enemies,
                        total_enemies == config.layers as int * n,
                        col == i as int % n as int,
                        row == i as int / n as int + 1,
                ;
                assert(cell as int * col as int <= total_grid_width(*config) - cell)
                    by (nonlinear_arith)
                    requires
                        0 <= col < n,
                        cell >= 0,
                        total_grid_width(*config) == cell as int * n as int,
                ;
                assert(initial_position as int <= window_width as int - total_width as int) by {
                    assert((window_width as int - total_width as int) / 2
                        <= window_width as int - total_width as int);
                };
                assert(row as int * row_height as int <= config.layers as int * row_height as int)
                    by (nonlinear_arith)
                    requires
                        0 <= row <= config.layers as int,
                        row_height >= 0,
                ;
            }
            let position_x: u64 = initial_position + cell * col;
            let position_y: u64 = row * row_height;
            let enemy = Enemy::new(config.width, ENEMY_HEIGHT, position_x as u32, position_y as u32);
            enemies.push(enemy);
            proof {
                let k = i as int;
                let g = grid_enemy(*config, window_width as int, k);
                assert(enemies@[k].position.x == g.position.x);
                assert(enemies@[k].position.y == g.position.y);
                assert(enemies@[k] == g);
            }
            i = i + 1;
        }
        Some(enemies)
    }

    /// One formation frame: if any enemy touches a horizontal border,
    /// flip the sweep direction and mark the frame a step-down frame;
    /// then move every enemy one pixel in the (possibly new)
    /// direction, plus the step-down when marked. The whole formation
    /// moves in lockstep.
    pub fn update(&mut self, window_size: &Size)
        ensures
            final(self).direction == old(self).spec_new_direction(window_size.width as int),
            final(self).enemies@.len() == old(self).enemies@.len(),
            forall|i: int|
                0 <= i < old(self).enemies@.len() ==> final(self).enemies@[i] == stepped_enemy(
                    old(self).enemies@[i],
                    old(self).spec_new_direction(window_size.width as int),
                    formation_hits_edge(old(self).enemies@, window_size.width as int),
                ),
    {
        let ghost s = self.enemies@;
        let mut move_down = false;
        let mut i: usize = 0;
        while i < self.enemies.len()
            invariant
                self.enemies@ == s,
                i <= s.len(),
                move_down == exists|j: int|
                    0 <= j < i && (s[j].position.x + s[j].size.width >= window_size.width
                        || s[j].position.x < 1),
            decreases self.enemies.len() - i,
        {
            let e = &self.enemies[i];
            let at_edge = e.position.x as u64 + e.size.width as u64 >= window_size.width as u64
                || e.position.x < 1;
            proof {
                if at_edge {
                    assert(s[i as int].position.x + s[i as int].size.width >= window_size.width
                        || s[i as int].position.x < 1);
                } else if move_down {
                    let j = choose|j: int|
                        0 <= j < i && (s[j].position.x + s[j].size.width >= window_size.width
                            || s[j].position.x < 1);
                    assert(0 <= j < i + 1 && (s[j].position.x + s[j].size.width
                        >= window_size.width || s[j].position.x < 1));
                } else {
                    assert forall|j: int| 0 <= j < i + 1 implies !(s[j].position.x
                        + s[j].size.width >= window_size.width || s[j].position.x < 1) by {
                        if j < i as int {
                            assert(!(s[j].position.x + s[j].size.width >= window_size.width
                                || s[j].position.x < 1));
                        }
                    }
                }
            }
            if at_edge {
                move_down = true;
            }
            i = i + 1;
        }
        assert(move_down == formation_hits_edge(s, window_size.width as int));

        if move_down {
            self.direction = self.direction.opposite();
        }
        let direction = self.direction;
        let ghost new_dir = old(self).spec_new_direction(window_size.width as int);
        assert(direction == new_dir);

        let mut out: Vec<Enemy> = Vec::new();
        let mut i: usize = 0;
        while i < self.enemies.len()
            invariant
                self.enemies@ == s,
                direction == new_dir,
                move_down == formation_hits_edge(s, window_size.width as int),
                i <= s.len(),
                out@.len() == i,
                forall|j: int| 0 <= j < i ==> out@[j] == stepped_enemy(s[j], new_dir, move_down),
            decreases self.enemies.len() - i,
        {
            let e = self.enemies[i];
            let new_x: u32 = match direction {
                Direction::Left => if e.position.x >= 1 {
                    e.position.x - 1
                } else {
                    0
                },
                Direction::Right => if e.position.x <= u32::MAX - 1 {
                    e.position.x + 1
                } else {
                    u32::MAX
                },
            };
            let new_y: u32 = if move_down {
                if e.position.y <= u32::MAX - STEP_DOWN {
                    e.position.y + STEP_DOWN
                } else {
                    u32::MAX
                }
            } else {
                e.position.y
            };
            out.push(Enemy { color: e.color, position: Position::set(new_x, new_y), size: e.size });
            i = i + 1;
        }
        self.enemies = out;
    }

    /// Removes the enemy at `index`, keeping the others in order.
    pub fn remove_enemy(&mut self, index: usize)
        requires
            index < old(self).enemies@.len(),
        ensures
            final(self).enemies@ == old(self).enemies@.remove(index as int),
            final(self).direction == old(self).direction,
    {
        self.enemies.remove(index);
    }

    /// Index of the first live enemy the given bullet bounds hit.
    pub fn first_hit(&self, bullet_size: &Size, bullet_position: &Position) -> (r: Option<usize>)
        ensures
            match r {
                None => first_hit_index(*bullet_size, *bullet_position, self.enemies@) is None,
                Some(j) => first_hit_index(*bullet_size, *bullet_position, self.enemies@)
                    == Some(j as int),
            },
    {
        let mut i: usize = 0;
        while i < self.enemies.len()
            invariant
                i <= self.enemies@.len(),
                forall|k: int|
                    0 <= k < i ==> !self.enemies@[k].spec_is_hit(*bullet_size, *bullet_position),
            decreases self.enemies.len() - i,
        {
            if self.enemies[i].is_hit(bullet_size, bullet_position) {
                proof {
                    lemma_first_hit_index(*bullet_size, *bullet_position, self.enemies@);
                }
                return Some(i);
            }
            i = i + 1;
        }
        proof {
            lemma_first_hit_index(*bullet_size, *bullet_position, self.enemies@);
        }
        None
    }

    /// True iff any live enemy has reached the starship's vertical
    /// line.
    pub fn check_collision_with_starship(&self, starship: &Starship) -> (hit: bool)
        ensures
            hit == exists|i: int|
                0 <= i < self.enemies@.len() && starship.spec_collides_with(self.enemies@[i]),
    {
        let mut i: usize = 0;
        while i < self.enemies.len()
            invariant
                i <= self.enemies@.len(),
                forall|k: int|
                    0 <= k < i ==> !starship.spec_collides_with(self.enemies@[k]),
            decreases self.enemies.len() - i,
        {
            if starship.check_collision(&self.enemies[i]) {
                assert(starship.spec_collides_with(self.enemies@[i as int]));
                return true;
            }
            i = i + 1;
        }
        false
    }

    /// How many enemies are still alive; zero means the player won.
    pub fn remaining_enemies(&self) -> (count: usize)
        ensures
            count == self.enemies@.len(),
    {
        self.enemies.len()
    }
}

} // verus!
