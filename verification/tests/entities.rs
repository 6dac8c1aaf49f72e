use space_invaders::draw::{decimal_chars, score_chars, Position, Size};
use space_invaders::game::Direction;
use space_invaders::managers::bullets::BulletManager;
use space_invaders::objects::bullet::BulletConfig;
use space_invaders::objects::enemy::Enemy;
use space_invaders::objects::starship::Starship;

#[test]
fn starship_starts_centered_near_bottom() {
    let window = Size::set(600, 840);
    let ship = Starship::config(&window, 20, 50);
    assert_eq!(ship.position.x, 395);
    assert_eq!(ship.position.y, 550);
    assert_eq!(ship.size.width, 50);
    assert_eq!(ship.size.height, 20);
}

#[test]
fn starship_clamps_to_left_bound() {
    let window = Size::set(600, 840);
    let mut ship = Starship::config(&window, 20, 50);
    for _ in 0..500 {
        ship.move_starship(Direction::Left, 840);
        assert!(ship.position.x >= 1);
        assert!(ship.position.x <= 840 - 50);
    }
    assert_eq!(ship.position.x, 1);
}

#[test]
fn starship_clamps_to_right_bound() {
    let window = Size::set(600, 840);
    let mut ship = Starship::config(&window, 20, 50);
    for _ in 0..500 {
        ship.move_starship(Direction::Right, 840);
        assert!(ship.position.x >= 1);
        assert!(ship.position.x <= 840 - 50);
    }
    assert_eq!(ship.position.x, 790);
}

#[test]
fn starship_clamp_holds_over_mixed_moves() {
    let window = Size::set(600, 840);
    let mut ship = Starship::config(&window, 20, 50);
    for i in 0..1000 {
        let dir = if i % 3 == 0 { Direction::Right } else { Direction::Left };
        ship.move_starship(dir, 840);
        assert!(1 <= ship.position.x && ship.position.x <= 790);
    }
}

#[test]
fn starship_collision_is_vertical_only() {
    let window = Size::set(600, 840);
    let ship = Starship::config(&window, 20, 50);
    // ship.position.y == 550; the horizontal distance must not matter.
    let at_line = Enemy::new(50, 20, 0, 530);
    assert!(ship.check_collision(&at_line));
    let below_line = Enemy::new(50, 20, 395, 531);
    assert!(ship.check_collision(&below_line));
    let above_line = Enemy::new(50, 20, 395, 529);
    assert!(!ship.check_collision(&above_line));
}

#[test]
fn bullet_exits_after_exactly_ceil_y0_over_speed_updates() {
    // Even starting height: y0 = 550, speed 2 -> gone on update 275.
    let window = Size::set(600, 840);
    let ship = Starship::config(&window, 20, 50);
    let mut manager = BulletManager::new(BulletConfig::new(2, 10));
    manager.fire(&ship);
    for _ in 0..274 {
        manager.update();
        assert_eq!(manager.bullets.len(), 1);
    }
    manager.update();
    assert_eq!(manager.bullets.len(), 0);
    // Never resurrected.
    for _ in 0..10 {
        manager.update();
        assert_eq!(manager.bullets.len(), 0);
    }
}

#[test]
fn bullet_exit_rounds_up_on_odd_heights() {
    // y0 = 51, speed 2 -> ceil(51 / 2) = 26 updates.
    let window = Size::set(101, 840);
    let ship = Starship::config(&window, 20, 50);
    assert_eq!(ship.position.y, 51);
    let mut manager = BulletManager::new(BulletConfig::new(2, 10));
    manager.fire(&ship);
    assert_eq!(manager.bullets[0].position.y, 51);
    for _ in 0..25 {
        manager.update();
        assert_eq!(manager.bullets.len(), 1);
    }
    assert_eq!(manager.bullets[0].position.y, 1);
    manager.update();
    assert_eq!(manager.bullets.len(), 0);
}

#[test]
fn fired_bullet_is_centered_on_the_starship() {
    let window = Size::set(600, 840);
    let ship = Starship::config(&window, 20, 50);
    let mut manager = BulletManager::new(BulletConfig::new(2, 10));
    manager.fire(&ship);
    // x = 395 + 50/2 - 10/2
    assert_eq!(manager.bullets[0].position.x, 415);
    assert_eq!(manager.bullets[0].position.y, 550);
}

#[test]
fn enemy_hit_test_horizontal_edges() {
    let enemy = Enemy::new(50, 20, 100, 100);
    let size = Size::set(10, 10);
    // Leading edge at y + 10 = 110, inside [100, 120].
    assert!(enemy.is_hit(&size, &Position::set(90, 100)));
    assert!(!enemy.is_hit(&size, &Position::set(89, 100)));
    assert!(enemy.is_hit(&size, &Position::set(150, 100)));
    assert!(!enemy.is_hit(&size, &Position::set(151, 100)));
}

#[test]
fn enemy_hit_test_vertical_edges() {
    let enemy = Enemy::new(50, 20, 100, 100);
    let size = Size::set(10, 10);
    assert!(enemy.is_hit(&size, &Position::set(120, 90)));
    assert!(!enemy.is_hit(&size, &Position::set(120, 89)));
    assert!(enemy.is_hit(&size, &Position::set(120, 110)));
    assert!(!enemy.is_hit(&size, &Position::set(120, 111)));
}

#[test]
fn decimal_rendering_is_exact() {
    assert_eq!(decimal_chars(0), vec!['0']);
    assert_eq!(decimal_chars(7), vec!['7']);
    assert_eq!(decimal_chars(10), vec!['1', '0']);
    assert_eq!(decimal_chars(300), vec!['3', '0', '0']);
    assert_eq!(
        decimal_chars(4294967295),
        "4294967295".chars().collect::<Vec<char>>()
    );
}

#[test]
fn score_line_has_label_and_digits() {
    assert_eq!(score_chars(300), "score 300".chars().collect::<Vec<char>>());
    assert_eq!(score_chars(0), "score 0".chars().collect::<Vec<char>>());
}
