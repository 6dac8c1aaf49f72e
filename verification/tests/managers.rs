use space_invaders::draw::Size;
use space_invaders::game::Direction;
use space_invaders::managers::bullets::BulletManager;
use space_invaders::managers::enemies::{EnemiesConfig, EnemyManager};
use space_invaders::objects::bullet::BulletConfig;
use space_invaders::objects::starship::Starship;

#[test]
fn grid_too_wide_yields_no_manager_at_all() {
    // 9 columns need (50 + 30) * 9 = 720 pixels; 640 is too narrow.
    let manager = EnemyManager::new(EnemiesConfig::new(9, 50), 640);
    assert!(manager.is_none());
}

#[test]
fn grid_that_just_fits_is_fully_built() {
    // 8 columns need exactly 640 pixels.
    let manager = EnemyManager::new(EnemiesConfig::new(8, 50), 640).unwrap();
    assert_eq!(manager.remaining_enemies(), 40);
}

#[test]
fn grid_layout_is_row_major_and_centered() {
    let manager = EnemyManager::new(EnemiesConfig::new(8, 50), 840).unwrap();
    assert_eq!(manager.remaining_enemies(), 40);
    // initial x = (840 - 640) / 2 = 100; row height = 20 + 30 = 50.
    assert_eq!(manager.enemies[0].position.x, 100);
    assert_eq!(manager.enemies[0].position.y, 50);
    // slot 12: row 12 / 8 + 1 = 2, column 4.
    assert_eq!(manager.enemies[12].position.x, 100 + 80 * 4);
    assert_eq!(manager.enemies[12].position.y, 100);
    // last slot: row 5, column 7.
    assert_eq!(manager.enemies[39].position.x, 100 + 80 * 7);
    assert_eq!(manager.enemies[39].position.y, 250);
    assert_eq!(manager.enemies[0].size.width, 50);
    assert_eq!(manager.enemies[0].size.height, 20);
    assert!(matches!(manager.direction, Direction::Right));
}

#[test]
fn formation_bounces_and_steps_down_in_one_update() {
    let window = Size::set(600, 842);
    let mut manager = EnemyManager::new(EnemiesConfig::new(8, 50), 842).unwrap();
    let mut flipped = false;
    for _ in 0..2000 {
        let x_before = manager.enemies[0].position.x;
        let y_before = manager.enemies[0].position.y;
        manager.update(&window);
        if matches!(manager.direction, Direction::Left) {
            // The flip happened in this very update: the formation also
            // dropped 10 pixels and already moved in the new direction.
            assert_eq!(manager.enemies[0].position.y, y_before + 10);
            assert_eq!(manager.enemies[0].position.x, x_before - 1);
            flipped = true;
            break;
        }
        assert_eq!(manager.enemies[0].position.y, y_before);
        assert_eq!(manager.enemies[0].position.x, x_before + 1);
    }
    assert!(flipped);

    // The next update keeps the new direction and does not drop again.
    let x_before = manager.enemies[0].position.x;
    let y_before = manager.enemies[0].position.y;
    manager.update(&window);
    assert!(matches!(manager.direction, Direction::Left));
    assert_eq!(manager.enemies[0].position.y, y_before);
    assert_eq!(manager.enemies[0].position.x, x_before - 1);
}

#[test]
fn whole_formation_moves_in_lockstep() {
    let window = Size::set(600, 842);
    let mut manager = EnemyManager::new(EnemiesConfig::new(8, 50), 842).unwrap();
    let before: Vec<(u32, u32)> = manager
        .enemies
        .iter()
        .map(|e| (e.position.x, e.position.y))
        .collect();
    manager.update(&window);
    for (i, (x, y)) in before.iter().enumerate() {
        assert_eq!(manager.enemies[i].position.x, x + 1);
        assert_eq!(manager.enemies[i].position.y, *y);
    }
}

#[test]
fn single_bullet_scores_exactly_one_enemy() {
    // Bullet spans x in [315, 325] with leading edge at y 60: of the
    // forty enemies it overlaps only row 1, column 4 at x 320, y 50.
    let mut enemies = EnemyManager::new(EnemiesConfig::new(8, 50), 640).unwrap();
    let ship = Starship::config(&Size::set(100, 640), 20, 50);
    let mut bullets = BulletManager::new(BulletConfig::new(2, 10));
    bullets.fire(&ship);
    assert_eq!(bullets.bullets[0].position.x, 315);
    assert_eq!(bullets.bullets[0].position.y, 50);

    let hits = bullets.check_collisions(&mut enemies);
    assert_eq!(hits, 1);
    assert_eq!(bullets.bullets.len(), 0);
    assert_eq!(enemies.remaining_enemies(), 39);
    // The enemy that stood at x 320 in row 1 is the one removed.
    assert_eq!(enemies.enemies[3].position.x, 240);
    assert_eq!(enemies.enemies[4].position.x, 400);
}

#[test]
fn collision_pass_without_overlap_changes_nothing() {
    let mut enemies = EnemyManager::new(EnemiesConfig::new(8, 50), 640).unwrap();
    let ship = Starship::config(&Size::set(600, 640), 20, 50);
    let mut bullets = BulletManager::new(BulletConfig::new(2, 10));
    bullets.fire(&ship);
    let hits = bullets.check_collisions(&mut enemies);
    assert_eq!(hits, 0);
    assert_eq!(bullets.bullets.len(), 1);
    assert_eq!(enemies.remaining_enemies(), 40);
}
