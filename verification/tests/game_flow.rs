use space_invaders::draw::{Color, DrawCmd, Position};
use space_invaders::game::{Game, GameState, KeyboardEvents};
use space_invaders::input_manager::{InputManager, Key};
use space_invaders::objects::bullet::{Bullet, BulletConfig};
use space_invaders::objects::enemy::Enemy;

#[test]
fn new_game_rejects_windows_the_grid_cannot_fit() {
    assert!(Game::new(639, 600).is_none());
    assert!(Game::new(840, 49).is_none());
    assert!(Game::new(640, 50).is_some());
}

#[test]
fn new_game_initial_state() {
    let game = Game::new(840, 600).unwrap();
    assert!(matches!(game.get_state(), GameState::Playing));
    assert_eq!(game.get_score(), 0);
    assert_eq!(game.get_window_size().width, 840);
    assert_eq!(game.get_window_size().height, 600);
    assert_eq!(game.get_color(), Color { r: 0, g: 0, b: 0, a: 255 });
    assert_eq!(game.starship.position.x, 395);
    assert_eq!(game.starship.position.y, 550);
    assert_eq!(game.bullets_manager.bullets.len(), 0);
    assert_eq!(game.enemies_manager.enemies.len(), 40);
}

#[test]
fn space_press_fires_one_bullet_per_press() {
    let mut game = Game::new(840, 600).unwrap();
    game.handle_event(Key::Space, KeyboardEvents::PressEvent);
    assert_eq!(game.bullets_manager.bullets.len(), 1);
    // Holding the key (no new press) fires nothing; a release fires
    // nothing; a second press fires a second bullet.
    game.handle_event(Key::Space, KeyboardEvents::ReleaseEvent);
    assert_eq!(game.bullets_manager.bullets.len(), 1);
    game.handle_event(Key::Left, KeyboardEvents::PressEvent);
    assert_eq!(game.bullets_manager.bullets.len(), 1);
    game.handle_event(Key::Space, KeyboardEvents::PressEvent);
    assert_eq!(game.bullets_manager.bullets.len(), 2);
}

#[test]
fn held_keys_move_the_starship_each_frame() {
    let mut game = Game::new(840, 600).unwrap();
    game.handle_event(Key::Left, KeyboardEvents::PressEvent);
    game.update();
    assert_eq!(game.starship.position.x, 394);
    game.update();
    assert_eq!(game.starship.position.x, 393);
    game.handle_event(Key::Left, KeyboardEvents::ReleaseEvent);
    game.update();
    assert_eq!(game.starship.position.x, 393);
    game.handle_event(Key::Right, KeyboardEvents::PressEvent);
    game.update();
    assert_eq!(game.starship.position.x, 394);
}

#[test]
fn destroying_the_last_enemy_wins_and_scores_100() {
    let mut game = Game::new(840, 600).unwrap();
    game.enemies_manager.enemies = vec![Enemy::new(50, 20, 300, 100)];
    game.bullets_manager.bullets = vec![Bullet::new(
        Position::set(310, 112),
        BulletConfig::new(2, 10),
    )];
    game.update();
    assert_eq!(game.get_score(), 100);
    assert_eq!(game.enemies_manager.enemies.len(), 0);
    assert_eq!(game.bullets_manager.bullets.len(), 0);
    assert!(matches!(game.get_state(), GameState::Win));
}

#[test]
fn win_is_never_declared_while_enemies_remain() {
    let mut game = Game::new(840, 600).unwrap();
    game.enemies_manager.enemies = vec![
        Enemy::new(50, 20, 300, 100),
        Enemy::new(50, 20, 500, 100),
    ];
    game.bullets_manager.bullets = vec![Bullet::new(
        Position::set(310, 112),
        BulletConfig::new(2, 10),
    )];
    game.update();
    assert_eq!(game.get_score(), 100);
    assert_eq!(game.enemies_manager.enemies.len(), 1);
    assert!(matches!(game.get_state(), GameState::Playing));
    // The empty formation wins only on the next update that sees it.
    game.enemies_manager.enemies = vec![];
    assert!(matches!(game.get_state(), GameState::Playing));
    game.update();
    assert!(matches!(game.get_state(), GameState::Win));
}

#[test]
fn enemy_reaching_the_starship_line_ends_the_game() {
    let mut game = Game::new(840, 600).unwrap();
    // Lower edge 530 + 20 == 550 == starship y: at the line counts.
    game.enemies_manager.enemies = vec![Enemy::new(50, 20, 300, 530)];
    game.update();
    assert!(matches!(game.get_state(), GameState::GameOver));
    // Terminal: the state never reverts and the frame changes nothing.
    let x = game.enemies_manager.enemies[0].position.x;
    game.update();
    assert!(matches!(game.get_state(), GameState::GameOver));
    assert_eq!(game.enemies_manager.enemies[0].position.x, x);
}

#[test]
fn defeat_beats_victory_when_both_land_on_one_frame() {
    let mut game = Game::new(840, 600).unwrap();
    game.enemies_manager.enemies = vec![Enemy::new(50, 20, 300, 531)];
    game.bullets_manager.bullets = vec![Bullet::new(
        Position::set(310, 543),
        BulletConfig::new(2, 10),
    )];
    game.update();
    // The collision pass still ran and scored this frame...
    assert_eq!(game.get_score(), 100);
    assert_eq!(game.enemies_manager.enemies.len(), 0);
    // ...but the starship collision, found first, decides the state.
    assert!(matches!(game.get_state(), GameState::GameOver));
}

#[test]
fn enemy_above_the_line_does_not_end_the_game() {
    let mut game = Game::new(840, 600).unwrap();
    game.enemies_manager.enemies = vec![Enemy::new(50, 20, 300, 529)];
    game.update();
    // Lower edge 549 < 550: still playing.
    assert!(matches!(game.get_state(), GameState::Playing));
}

#[test]
fn long_session_keeps_the_clamp_and_descends_to_defeat() {
    let mut game = Game::new(840, 600).unwrap();
    game.handle_event(Key::Left, KeyboardEvents::PressEvent);
    for _ in 0..20000 {
        game.update();
        assert!(game.starship.position.x >= 1);
        assert!(game.starship.position.x <= 790);
    }
    // With nobody shooting, the formation descends to the starship.
    assert!(matches!(game.get_state(), GameState::GameOver));
    assert_eq!(game.get_score(), 0);
    assert_eq!(game.enemies_manager.enemies.len(), 40);
}

#[test]
fn input_manager_tracks_held_keys() {
    let mut input = InputManager::new();
    assert!(!input.is_key_pressed(Key::Left));
    input.key_pressed(Key::Left);
    input.key_pressed(Key::Left);
    assert!(input.is_key_pressed(Key::Left));
    assert!(!input.is_key_pressed(Key::Right));
    input.key_pressed(Key::Other(42));
    assert!(input.is_key_pressed(Key::Other(42)));
    assert!(!input.is_key_pressed(Key::Other(41)));
    input.key_released(Key::Left);
    assert!(!input.is_key_pressed(Key::Left));
    input.key_released(Key::Left);
    assert!(!input.is_key_pressed(Key::Left));
    assert!(input.is_key_pressed(Key::Other(42)));
}

#[test]
fn gameplay_draw_lists_score_bullets_enemies_then_ship() {
    let mut game = Game::new(840, 600).unwrap();
    game.handle_event(Key::Space, KeyboardEvents::PressEvent);
    let cmds = game.draw(60, 200);
    // 1 score text + 1 bullet + 40 enemies + 1 starship.
    assert_eq!(cmds.len(), 43);
    match &cmds[0] {
        DrawCmd::Text { position, text, font_size, .. } => {
            assert_eq!(position.x, 840 - 60 - 40);
            assert_eq!(position.y, 40);
            assert_eq!(*font_size, 24);
            assert_eq!(text.iter().collect::<String>(), "score 0");
        }
        _ => panic!("expected the score text first"),
    }
    match &cmds[42] {
        DrawCmd::Block { position, size, .. } => {
            assert_eq!(position.x, 395);
            assert_eq!(position.y, 550);
            assert_eq!(size.width, 50);
        }
        _ => panic!("expected the starship block last"),
    }
}

#[test]
fn game_over_draws_only_the_centered_banner() {
    let mut game = Game::new(840, 600).unwrap();
    game.enemies_manager.enemies = vec![Enemy::new(50, 20, 300, 530)];
    game.update();
    let cmds = game.draw(60, 200);
    assert_eq!(cmds.len(), 1);
    match &cmds[0] {
        DrawCmd::Text { position, text, font_size, .. } => {
            assert_eq!(position.x, (840 - 200) / 2);
            assert_eq!(position.y, 300);
            assert_eq!(*font_size, 40);
            assert_eq!(text.iter().collect::<String>(), "Game Over");
        }
        _ => panic!("expected a banner"),
    }
}

#[test]
fn win_draws_score_then_banner() {
    let mut game = Game::new(840, 600).unwrap();
    game.enemies_manager.enemies = vec![];
    game.update();
    assert!(matches!(game.get_state(), GameState::Win));
    let cmds = game.draw(60, 200);
    assert_eq!(cmds.len(), 2);
    match &cmds[1] {
        DrawCmd::Text { text, .. } => {
            assert_eq!(text.iter().collect::<String>(), "You Win!");
        }
        _ => panic!("expected the banner second"),
    }
}
