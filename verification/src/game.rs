use vstd::prelude::*;

use crate::draw::{
    black, game_over_chars, game_over_text, score_chars, score_line, white, win_chars, win_text,
    Color, DrawCmd, Position, Size,
};
use crate::input_manager::{InputManager, Key};
use crate::managers::bullets::{
    advance_prune, bullet_start_x, collide, lemma_collide_len, BulletManager,
};
use crate::managers::enemies::{
    formation_hits_edge, grid_enemy, stepped_formation, total_grid_width, EnemiesConfig,
    EnemyManager, LAYERS, SPACE_BETWEEN_ENEMIES,
};
use crate::objects::bullet::{Bullet, BulletConfig};
use crate::objects::enemy::Enemy;
use crate::objects::starship::{
    clamped_move, Starship, STARSHIP_BOTTOM_MARGIN, STARSHIP_MOVE_SPEED,
};

verus! {

/// The two kinds of raw keyboard notification the shell forwards.
#[derive(Clone, Copy, Debug, PartialEq, Eq, Structural)]
pub enum KeyboardEvents {
    PressEvent,
    ReleaseEvent,
}

/// Horizontal movement direction, shared by the starship and the
/// enemy formation sweep.
#[derive(Clone, Copy, Debug, PartialEq, Eq, Structural)]
pub enum Direction {
    Left,
    Right,
}

impl Direction {
    pub open spec fn spec_opposite(self) -> Direction {
        match self {
            Direction::Left => Direction::Right,
            Direction::Right => Direction::Left,
        }
    }

    pub fn opposite(&self) -> (d: Direction)
        ensures
            d == self.spec_opposite(),
    {
        match self {
            Direction::Left => Direction::Right,
            Direction::Right => Direction::Left,
        }
    }
}

/// The game's finite state machine: `Playing` is initial, the other
/// two are terminal within a session.
#[derive(Clone, Copy, Debug, PartialEq, Eq, Structural)]
pub enum GameState {
    Win,
    Playing,
    GameOver,
}

pub const STARSHIP_HEIGHT: u32 = 20;

pub const STARSHIP_WIDTH: u32 = 50;

pub const BULLET_SPEED: u32 = 2;

pub const BULLET_SIZE: u32 = 10;

pub const ENEMY_COLUMNS: u32 = 8;

pub const ENEMY_WIDTH: u32 = 50;

/// Points awarded for each destroyed enemy.
pub const SCORE_PER_ENEMY: i32 = 100;

pub const SCORE_FONT_SIZE: u32 = 24;

pub const BANNER_FONT_SIZE: u32 = 40;

/// Distance of the score line from the window's top-right corner.
pub const SCORE_MARGIN: u32 = 40;

/// The top-level orchestrator: owns every entity, the score and the
/// state machine, and runs the per-frame update sequence.
pub struct Game {
    pub state: GameState,
    pub window_size: Size,
    pub color: Color,
    pub starship: Starship,
    pub input_manager: InputManager,
    pub bullets_manager: BulletManager,
    pub enemies_manager: EnemyManager,
    pub score: i32,
}

/// The grid configuration every game is built with.
pub open spec fn spec_enemies_config() -> EnemiesConfig {
    EnemiesConfig {
        number: ENEMY_COLUMNS,
        width: ENEMY_WIDTH,
        space_between: SPACE_BETWEEN_ENEMIES,
        layers: LAYERS,
    }
}

/// A window can host the game when the enemy grid fits its width and
/// the starship fits above its bottom margin.
pub open spec fn window_supports_game(width: int, height: int) -> bool {
    &&& total_grid_width(spec_enemies_config()) <= width
    &&& height >= STARSHIP_HEIGHT as int + STARSHIP_BOTTOM_MARGIN as int
}

/// The bullet one fire command spawns.
pub open spec fn spec_fired_bullet(g: Game) -> Bullet {
    Bullet {
        position: Position {
            x: bullet_start_x(g.starship, g.bullets_manager.config) as u32,
            y: g.starship.position.y,
        },
        color: white(),
        config: g.bullets_manager.config,
    }
}

/// The starship after this frame's held-key movement: a left step if
/// the left key is held, then a right step if the right key is held,
/// each clamped to the screen.
pub open spec fn spec_ship_after_input(g: Game) -> Starship {
    let s = g.starship;
    let w = g.window_size.width as int;
    let x1 = if g.input_manager.spec_is_held(Key::Left) {
        clamped_move(s.position.x as int, Direction::Left, s.move_speed as int, w, s.size.width as int)
    } else {
        s.position.x as int
    };
    let x2 = if g.input_manager.spec_is_held(Key::Right) {
        clamped_move(x1, Direction::Right, s.move_speed as int, w, s.size.width as int)
    } else {
        x1
    };
    Starship {
        size: s.size,
        color: s.color,
        position: Position { x: x2 as u32, y: s.position.y },
        move_speed: s.move_speed,
    }
}

/// The enemy formation after this frame's sweep step.
pub open spec fn spec_stepped_enemies(g: Game) -> Seq<Enemy> {
    stepped_formation(
        g.enemies_manager.enemies@,
        g.enemies_manager.spec_new_direction(g.window_size.width as int),
        formation_hits_edge(g.enemies_manager.enemies@, g.window_size.width as int),
    )
}

/// This frame's bullet/enemy collision outcome: surviving bullets,
/// surviving enemies, and hits scored.
pub open spec fn spec_frame_collide(g: Game) -> (Seq<Bullet>, Seq<Enemy>, int) {
    collide(advance_prune(g.bullets_manager.bullets@), spec_stepped_enemies(g))
}

/// Whether an enemy reaches the starship's line this frame, after
/// both have moved.
pub open spec fn spec_ship_hit(g: Game) -> bool {
    exists|i: int|
        0 <= i < spec_stepped_enemies(g).len() && spec_ship_after_input(g).spec_collides_with(
            spec_stepped_enemies(g)[i],
        )
}

/// The state one `update` of a playing game ends in: defeat beats
/// victory, and victory requires the collision pass to have cleared
/// the formation.
pub open spec fn spec_next_state(g: Game) -> GameState {
    if spec_ship_hit(g) {
        GameState::GameOver
    } else if spec_frame_collide(g).1.len() == 0 {
        GameState::Win
    } else {
        GameState::Playing
    }
}

/// The drawing instruction for one bullet.
pub open spec fn bullet_cmd(b: Bullet) -> DrawCmd {
    DrawCmd::Block { color: b.color, position: b.position, size: b.config.size }
}

/// The drawing instruction for one enemy.
pub open spec fn enemy_cmd(e: Enemy) -> DrawCmd {
    DrawCmd::Block { color: e.color, position: e.position, size: e.size }
}

/// The drawing instruction for the starship.
pub open spec fn ship_cmd(s: Starship) -> DrawCmd {
    DrawCmd::Block { color: s.color, position: s.position, size: s.size }
}

/// Whether `cmd` draws exactly the given text at the given place.
pub open spec fn text_cmd_is(
    cmd: DrawCmd,
    color: Color,
    position: Position,
    text: Seq<char>,
    font_size: u32,
) -> bool {
    match cmd {
        DrawCmd::Text { color: c, position: p, text: t, font_size: f } => c == color && p
            == position && t@ == text && f == font_size,
        _ => false,
    }
}

/// Where the score line is drawn: right-aligned under the top edge.
pub open spec fn score_position(g: Game, text_width: int) -> Position {
    Position {
        x: (g.window_size.width - text_width - SCORE_MARGIN) as u32,
        y: SCORE_MARGIN,
    }
}

/// Where a banner is drawn: horizontally centered at half the window
/// height.
pub open spec fn banner_position(g: Game, text_width: int) -> Position {
    Position {
        x: ((g.window_size.width - text_width) / 2) as u32,
        y: (g.window_size.height / 2) as u32,
    }
}

/// A playing frame ends in victory exactly when no enemy reached the
/// starship and the collision pass cleared the formation: the win is
/// declared on the update that removes the last enemy, never earlier.
pub proof fn lemma_win_condition(g: Game)
    ensures
        spec_next_state(g) == GameState::Win <==> (!spec_ship_hit(g) && spec_frame_collide(
            g,
        ).1.len() == 0),
{
}

/// An enemy whose lower edge reaches the starship's line after this
/// frame's movement forces defeat on this very frame, whatever the
/// collision pass does afterwards.
pub proof fn lemma_game_over_trigger(g: Game, i: int)
    requires
        0 <= i < spec_stepped_enemies(g).len(),
        spec_stepped_enemies(g)[i].position.y + spec_stepped_enemies(g)[i].size.height
            >= spec_ship_after_input(g).position.y,
    ensures
        spec_next_state(g) == GameState::GameOver,
{
    assert(spec_ship_hit(g));
}

impl Game {
    /// The internal consistency every game value keeps: the starship
    /// inside the screen, a bullet no wider than the ship, and room
    /// left in the score for every live enemy.
    pub open spec fn wf(self) -> bool {
        &&& self.starship.size.width < self.window_size.width
        &&& 1 <= self.starship.position.x
        &&& self.starship.position.x + self.starship.size.width <= self.window_size.width
        &&& self.starship.move_speed == STARSHIP_MOVE_SPEED
        &&& self.bullets_manager.config.size.width <= self.starship.size.width
        &&& 0 <= self.score
        &&& self.score + SCORE_PER_ENEMY * self.enemies_manager.enemies@.len() <= i32::MAX
    }

    /// Builds the initial game for a window of the given pixel size,
    /// or `None` when the window cannot host it — most notably when
    /// the enemy grid is wider than the window.
    pub fn new(width: u32, height: u32) -> (game: Option<Game>)
        ensures
            game is Some <==> window_supports_game(width as int, height as int),
            game matches Some(g) ==> {
                &&& g.wf()
                &&& g.state == GameState::Playing
                &&& g.score == 0
                &&& g.window_size == (Size { height, width })
                &&& g.color == black()
                &&& g.starship.size == (Size { height: STARSHIP_HEIGHT, width: STARSHIP_WIDTH })
                &&& g.starship.position.x == (width - STARSHIP_WIDTH) / 2
                &&& g.starship.position.y == height - STARSHIP_HEIGHT - STARSHIP_BOTTOM_MARGIN
                &&& g.bullets_manager.bullets@.len() == 0
                &&& g.bullets_manager.config == (BulletConfig {
                    speed: BULLET_SPEED,
                    size: (Size { height: BULLET_SIZE, width: BULLET_SIZE }),
                })
                &&& g.enemies_manager.direction == Direction::Right
                &&& g.enemies_manager.enemies@.len() == LAYERS as int * ENEMY_COLUMNS as int
                &&& forall|i: int|
                    0 <= i < g.enemies_manager.enemies@.len()
                        ==> g.enemies_manager.enemies@[i] == grid_enemy(
                        spec_enemies_config(),
                        width as int,
                        i,
                    )
                &&& forall|k: Key| !g.input_manager.spec_is_held(k)
            },
    {
        let window_size = Size::set(height, width);
        let enemies_config = EnemiesConfig::new(ENEMY_COLUMNS, ENEMY_WIDTH);
        let enemies_manager = match EnemyManager::new(enemies_config, width) {
            None => {
                return None;
            },
            Some(m) => m,
        };
        if height < STARSHIP_HEIGHT + STARSHIP_BOTTOM_MARGIN {
            return None;
        }
        let starship = Starship::config(&window_size, STARSHIP_HEIGHT, STARSHIP_WIDTH);
        let bullet_config = BulletConfig::new(BULLET_SPEED, BULLET_SIZE);

        let game = Game {
            window_size,
            color: Color { r: 0, g: 0, b: 0, a: 255 },
            starship,
            input_manager: InputManager::new(),
            bullets_manager: BulletManager::new(bullet_config),
            enemies_manager,
            score: 0,
            state: GameState::Playing,
        };
        proof {
            assert(game.starship.position.x >= 1);
            assert((width as int - STARSHIP_WIDTH as int) / 2 <= width - STARSHIP_WIDTH);
        }
        Some(game)
    }

    pub fn get_window_size(&self) -> (s: &Size)
        ensures
            *s == self.window_size,
    {
        &self.window_size
    }

    pub fn get_color(&self) -> (c: Color)
        ensures
            c == self.color,
    {
        self.color
    }

    pub fn get_score(&self) -> (score: i32)
        ensures
            score == self.score,
    {
        self.score
    }

    pub fn get_state(&self) -> (state: GameState)
        ensures
            state == self.state,
    {
        self.state
    }

    /// Feeds one raw keyboard notification into the held-key tracker,
    /// and fires one bullet on each press of the space key — presses
    /// are edge-triggered, so holding the key does not auto-fire.
    pub fn handle_event(&mut self, key: Key, event: KeyboardEvents)
        requires
            old(self).wf(),
        ensures
            final(self).wf(),
            forall|k: Key|
                final(self).input_manager.spec_is_held(k) == match event {
                    KeyboardEvents::PressEvent => old(self).input_manager.spec_is_held(k) || k
                        == key,
                    KeyboardEvents::ReleaseEvent => old(self).input_manager.spec_is_held(k) && k
                        != key,
                },
            (event == KeyboardEvents::PressEvent && key == Key::Space)
                ==> final(self).bullets_manager.bullets@ == old(
                self,
            ).bullets_manager.bullets@.push(spec_fired_bullet(*old(self))),
            !(event == KeyboardEvents::PressEvent && key == Key::Space)
                ==> final(self).bullets_manager.bullets@ == old(self).bullets_manager.bullets@,
            final(self).state == old(self).state,
            final(self).score == old(self).score,
            final(self).window_size == old(self).window_size,
            final(self).color == old(self).color,
            final(self).starship == old(self).starship,
            final(self).bullets_manager.config == old(self).bullets_manager.config,
            final(self).enemies_manager.enemies@ == old(self).enemies_manager.enemies@,
            final(self).enemies_manager.direction == old(self).enemies_manager.direction,
    {
        self.input_manager.handle_event(key, event);

        let fire = match event {
            KeyboardEvents::PressEvent => key == Key::Space,
            KeyboardEvents::ReleaseEvent => false,
        };
        if fire {
            proof {
                let s = self.starship;
                let c = self.bullets_manager.config;
                assert(c.size.width as int / 2 <= s.size.width as int / 2);
                assert(bullet_start_x(s, c) >= 0);
                assert(s.position.x + s.size.width as int / 2 <= u32::MAX);
            }
            self.bullets_manager.fire(&self.starship);
        }
    }

    /// Applies this frame's held-key movement to the starship.
    fn handle_starship_movement(&mut self)
        requires
            old(self).starship.size.width < old(self).window_size.width,
        ensures
            final(self).starship == spec_ship_after_input(*old(self)),
            final(self).state == old(self).state,
            final(self).score == old(self).score,
            final(self).window_size == old(self).window_size,
            final(self).color == old(self).color,
            final(self).input_manager == old(self).input_manager,
            final(self).bullets_manager == old(self).bullets_manager,
            final(self).enemies_manager == old(self).enemies_manager,
    {
        let screen_width = self.window_size.width;

        if self.input_manager.is_key_pressed(Key::Left) {
            self.starship.move_starship(Direction::Left, screen_width);
        }
        if self.input_manager.is_key_pressed(Key::Right) {
            self.starship.move_starship(Direction::Right, screen_width);
        }
    }

    /// Runs the bullet/enemy collision pass and adds the points the
    /// hits earned.
    fn handle_bullet_collisions(&mut self)
        requires
            0 <= old(self).score,
            old(self).score + SCORE_PER_ENEMY * old(self).enemies_manager.enemies@.len()
                <= i32::MAX,
        ensures
            final(self).bullets_manager.bullets@ == collide(
                old(self).bullets_manager.bullets@,
                old(self).enemies_manager.enemies@,
            ).0,
            final(self).enemies_manager.enemies@ == collide(
                old(self).bullets_manager.bullets@,
                old(self).enemies_manager.enemies@,
            ).1,
            final(self).score == old(self).score + SCORE_PER_ENEMY * collide(
                old(self).bullets_manager.bullets@,
                old(self).enemies_manager.enemies@,
            ).2,
            0 <= final(self).score,
            final(self).score + SCORE_PER_ENEMY * final(self).enemies_manager.enemies@.len()
                <= i32::MAX,
            final(self).state == old(self).state,
            final(self).window_size == old(self).window_size,
            final(self).color == old(self).color,
            final(self).starship == old(self).starship,
            final(self).input_manager == old(self).input_manager,
            final(self).bullets_manager.config == old(self).bullets_manager.config,
            final(self).enemies_manager.direction == old(self).enemies_manager.direction,
    {
        proof {
            lemma_collide_len(self.bullets_manager.bullets@, self.enemies_manager.enemies@);
        }
        let hits = self.bullets_manager.check_collisions(&mut self.enemies_manager);
        let gained: i32 = SCORE_PER_ENEMY * (hits as i32);
        self.score = self.score + gained;
    }

    /// Declares victory when the formation is empty, unless defeat
    /// already struck.
    fn handle_win(&mut self)
        ensures
            final(self).state == (if final(self).enemies_manager.enemies@.len() == 0 && old(
                self,
            ).state != GameState::GameOver {
                GameState::Win
            } else {
                old(self).state
            }),
            final(self).score == old(self).score,
            final(self).window_size == old(self).window_size,
            final(self).color == old(self).color,
            final(self).starship == old(self).starship,
            final(self).input_manager == old(self).input_manager,
            final(self).bullets_manager == old(self).bullets_manager,
            final(self).enemies_manager == old(self).enemies_manager,
    {
        if self.enemies_manager.remaining_enemies() == 0 {
            match self.state {
                GameState::GameOver => {},
                _ => {
                    self.state = GameState::Win;
                },
            }
        }
    }

    /// One frame of simulation, in the fixed order: starship
    /// movement, formation sweep, bullet travel and pruning,
    /// starship/enemy defeat check, bullet/enemy collision scoring,
    /// victory check. In a terminal state the frame changes nothing.
    pub fn update(&mut self)
        requires
            old(self).wf(),
        ensures
            final(self).wf(),
            final(self).window_size == old(self).window_size,
            final(self).color == old(self).color,
            final(self).input_manager == old(self).input_manager,
            final(self).bullets_manager.config == old(self).bullets_manager.config,
            old(self).state != GameState::Playing ==> {
                &&& final(self).state == old(self).state
                &&& final(self).score == old(self).score
                &&& final(self).starship == old(self).starship
                &&& final(self).bullets_manager.bullets@ == old(self).bullets_manager.bullets@
                &&& final(self).enemies_manager.enemies@ == old(self).enemies_manager.enemies@
                &&& final(self).enemies_manager.direction == old(self).enemies_manager.direction
            },
            old(self).state == GameState::Playing ==> {
                &&& final(self).starship == spec_ship_after_input(*old(self))
                &&& final(self).enemies_manager.direction == old(
                    self,
                ).enemies_manager.spec_new_direction(old(self).window_size.width as int)
                &&& final(self).bullets_manager.bullets@ == spec_frame_collide(*old(self)).0
                &&& final(self).enemies_manager.enemies@ == spec_frame_collide(*old(self)).1
                &&& final(self).score == old(self).score + SCORE_PER_ENEMY * spec_frame_collide(
                    *old(self),
                ).2
                &&& final(self).state == spec_next_state(*old(self))
            },
    {
        match self.state {
            GameState::Playing => {},
            _ => {
                return ;
            },
        }

        self.handle_starship_movement();

        self.enemies_manager.update(&self.window_size);
        proof {
            assert(self.enemies_manager.enemies@ =~= spec_stepped_enemies(*old(self)));
        }

        self.bullets_manager.update();

        if self.enemies_manager.check_collision_with_starship(&self.starship) {
            self.state = GameState::GameOver;
        }
        proof {
            assert((self.state == GameState::GameOver) == spec_ship_hit(*old(self)));
        }

        self.handle_bullet_collisions();
        self.handle_win();
    }

    /// The drawing instructions for the current frame, given the
    /// measured pixel widths of the score line and of the current
    /// banner. Playing: score, bullets, enemies, starship. Defeat:
    /// the banner alone. Victory: score, then the banner.
    pub fn draw(&self, score_text_width: u32, banner_text_width: u32) -> (cmds: Vec<DrawCmd>)
        requires
            0 <= self.score,
            score_text_width + SCORE_MARGIN <= self.window_size.width,
            banner_text_width <= self.window_size.width,
        ensures
            self.state == GameState::Playing ==> {
                let bs = self.bullets_manager.bullets@;
                let es = self.enemies_manager.enemies@;
                &&& cmds@.len() == 2 + bs.len() + es.len()
                &&& text_cmd_is(
                    cmds@[0],
                    white(),
                    score_position(*self, score_text_width as int),
                    score_line(self.score as int),
                    SCORE_FONT_SIZE,
                )
                &&& forall|i: int| 0 <= i < bs.len() ==> cmds@[1 + i] == bullet_cmd(bs[i])
                &&& forall|i: int|
                    0 <= i < es.len() ==> cmds@[1 + bs.len() + i] == enemy_cmd(es[i])
                &&& cmds@[1 + bs.len() as int + es.len() as int] == ship_cmd(self.starship)
            },
            self.state == GameState::GameOver ==> {
                &&& cmds@.len() == 1
                &&& text_cmd_is(
                    cmds@[0],
                    white(),
                    banner_position(*self, banner_text_width as int),
                    game_over_text(),
                    BANNER_FONT_SIZE,
                )
            },
            self.state == GameState::Win ==> {
                &&& cmds@.len() == 2
                &&& text_cmd_is(
                    cmds@[0],
                    white(),
                    score_position(*self, score_text_width as int),
                    score_line(self.score as int),
                    SCORE_FONT_SIZE,
                )
                &&& text_cmd_is(
                    cmds@[1],
                    white(),
                    banner_position(*self, banner_text_width as int),
                    win_text(),
                    BANNER_FONT_SIZE,
                )
            },
    {
        let mut cmds: Vec<DrawCmd> = Vec::new();
        match self.state {
            GameState::Playing => {
                cmds.push(self.score_cmd(score_text_width));
                let ghost bs = self.bullets_manager.bullets@;
                let ghost es = self.enemies_manager.enemies@;
                let mut i: usize = 0;
                while i < self.bullets_manager.bullets.len()
                    invariant
                        self.bullets_manager.bullets@ == bs,
                        i <= bs.len(),
                        cmds@.len() == 1 + i,
                        text_cmd_is(
                            cmds@[0],
                            white(),
                            score_position(*self, score_text_width as int),
                            score_line(self.score as int),
                            SCORE_FONT_SIZE,
                        ),
                        forall|j: int| 0 <= j < i ==> cmds@[1 + j] == bullet_cmd(bs[j]),
                    decreases bs.len() - i,
                {
                    let b = self.bullets_manager.bullets[i];
                    cmds.push(DrawCmd::Block {
                        color: b.color,
                        position: b.position,
                        size: b.config.size,
                    });
                    i = i + 1;
                }
                let mut i: usize = 0;
                while i < self.enemies_manager.enemies.len()
                    invariant
                        self.bullets_manager.bullets@ == bs,
                        self.enemies_manager.enemies@ == es,
                        i <= es.len(),
                        cmds@.len() == 1 + bs.len() + i,
                        text_cmd_is(
                            cmds@[0],
                            white(),
                            score_position(*self, score_text_width as int),
                            score_line(self.score as int),
                            SCORE_FONT_SIZE,
                        ),
                        forall|j: int| 0 <= j < bs.len() ==> cmds@[1 + j] == bullet_cmd(bs[j]),
                        forall|j: int| 0 <= j < i ==> cmds@[1 + bs.len() + j] == enemy_cmd(es[j]),
                    decreases es.len() - i,
                {
                    let e = self.enemies_manager.enemies[i];
                    cmds.push(DrawCmd::Block { color: e.color, position: e.position, size: e.size });
                    i = i + 1;
                }
                cmds.push(DrawCmd::Block {
                    color: self.starship.color,
                    position: self.starship.position,
                    size: self.starship.size,
                });
            },
            GameState::GameOver => {
                let text = game_over_chars();
                cmds.push(DrawCmd::Text {
                    color: Color { r: 255, g: 255, b: 255, a: 255 },
                    position: self.banner_cmd_position(banner_text_width),
                    text,
                    font_size: BANNER_FONT_SIZE,
                });
            },
            GameState::Win => {
                cmds.push(self.score_cmd(score_text_width));
                let text = win_chars();
                cmds.push(DrawCmd::Text {
                    color: Color { r: 255, g: 255, b: 255, a: 255 },
                    position: self.banner_cmd_position(banner_text_width),
                    text,
                    font_size: BANNER_FONT_SIZE,
                });
            },
        }
        cmds
    }

    fn score_cmd(&self, score_text_width: u32) -> (cmd: DrawCmd)
        requires
            0 <= self.score,
            score_text_width + SCORE_MARGIN <= self.window_size.width,
        ensures
            text_cmd_is(
                cmd,
                white(),
                score_position(*self, score_text_width as int),
                score_line(self.score as int),
                SCORE_FONT_SIZE,
            ),
    {
        let text = score_chars(self.score as u32);
        DrawCmd::Text {
            color: Color { r: 255, g: 255, b: 255, a: 255 },
            position: Position::set(
                self.window_size.width - score_text_width - SCORE_MARGIN,
                SCORE_MARGIN,
            ),
            text,
            font_size: SCORE_FONT_SIZE,
        }
    }

    fn banner_cmd_position(&self, banner_text_width: u32) -> (p: Position)
        requires
            banner_text_width <= self.window_size.width,
        ensures
            p == banner_position(*self, banner_text_width as int),
    {
        Position::set(
            (self.window_size.width - banner_text_width) / 2,
            self.window_size.height / 2,
        )
    }
}

} // verus!
