use std::time::Duration;

use stabman::components::bullet::Bullet;
use stabman::components::bullet::BulletOwner;
use stabman::components::orientation::facing_of;
use stabman::components::orientation::facing_sign;
use stabman::components::orientation::Facing;
use stabman::components::orientation::Flipped;
use stabman::components::orientation::SidesTouching;
use stabman::components::player::health::damaged_health;
use stabman::components::player::health::Health;
use stabman::components::player::Player;
use stabman::components::player::QuickTurnaround;
use stabman::components::player::SettingsPlayer;

fn settings(health: u32, max_health: u32) -> SettingsPlayer {
    SettingsPlayer {
        quick_turnaround: QuickTurnaround::ResetVelocity,
        air_quick_turnaround: QuickTurnaround::No,
        decrease_x_velocity_in_air: false,
        health,
        max_health,
        damage: 2,
    }
}

#[test]
fn bullet_builder_keeps_every_part() {
    let bullet = Bullet::new()
        .owner(BulletOwner::Enemy)
        .damage(3)
        .lifetime(Duration::from_millis(500))
        .knockback((1.5f32, -2.0f32))
        .facing(Facing::Left)
        .build();
    assert!(bullet.owner == BulletOwner::Enemy);
    assert_eq!(bullet.damage, 3);
    assert_eq!(bullet.lifetime, Duration::from_millis(500));
    assert_eq!(bullet.knockback, Some((1.5f32, -2.0f32)));
    assert_eq!(bullet.facing, Some(Facing::Left));
}

#[test]
fn bullet_builder_later_setting_wins_and_optional_parts_stay_unset() {
    let bullet = Bullet::<(f32, f32)>::new()
        .damage(1)
        .owner(BulletOwner::Player)
        .damage(7)
        .lifetime(Duration::from_secs(2))
        .build();
    assert!(bullet.owner == BulletOwner::Player);
    assert_eq!(bullet.damage, 7);
    assert_eq!(bullet.knockback, None);
    assert_eq!(bullet.facing, None);
}

#[test]
fn new_player_has_no_items_and_no_control() {
    let player = Player::new(settings(6, 10));
    assert_eq!(player.health, 6);
    assert_eq!(player.max_health, 10);
    assert_eq!(player.damage, 2);
    assert!(!player.in_control);
    assert!(!player.is_attacking);
    assert!(!player.has_extra_jump());
    assert!(!player.has_dash());
    assert_eq!(player.quick_turnaround, QuickTurnaround::ResetVelocity);
    assert_eq!(player.air_quick_turnaround, QuickTurnaround::No);
    assert_eq!(player.items_data.bullet_shoot.lifetime, Duration::ZERO);
    assert_eq!(player.items_data.bullet_deflect.lifetime, Duration::ZERO);
}

#[test]
fn take_damage_subtracts_and_saturates_at_zero() {
    let mut player = Player::new(settings(6, 10));
    player.take_damage(4);
    assert_eq!(player.health, 2);
    assert!(!player.is_dead());
    player.take_damage(5);
    assert_eq!(player.health, 0);
    assert!(player.is_dead());
}

#[test]
fn take_damage_reads_health_as_signed() {
    // 3_000_000_000 read as an i32 is negative, so the margin is negative.
    assert_eq!(damaged_health(3_000_000_000, 1), 0);
    assert_eq!(damaged_health(10, 10), 0);
    assert_eq!(damaged_health(10, 0), 10);
}

#[test]
fn add_health_is_capped_at_max() {
    let mut player = Player::new(settings(6, 10));
    player.add_health(3);
    assert_eq!(player.health, 9);
    player.add_health(3);
    assert_eq!(player.health, 10);
    let mut over = Player::new(settings(12, 10));
    over.add_health(0);
    assert_eq!(over.health, 10);
}

#[test]
fn reset_jumps_gives_back_jumps_and_idle_dashes() {
    let mut player = Player::new(settings(6, 10));
    player.items_data.extra_jump.extra_jumps = 2;
    player.items_data.extra_jump.used_extra_jumps = 2;
    player.items_data.dash.dashes = 1;
    player.items_data.dash.used_dashes = 1;
    assert!(!player.has_extra_jump());
    assert!(!player.has_dash());
    player.reset_jumps();
    assert!(player.has_extra_jump());
    assert!(player.has_dash());
    player.reset_jumps();
    assert_eq!(player.items_data.extra_jump.used_extra_jumps, 0);
}

#[test]
fn reset_jumps_keeps_dashes_while_dashing() {
    let mut player = Player::new(settings(6, 10));
    player.items_data.dash.dashes = 1;
    player.items_data.dash.used_dashes = 1;
    player.items_data.dash.is_dashing = true;
    player.reset_jumps();
    assert_eq!(player.items_data.dash.used_dashes, 1);
}

#[test]
fn wall_reset_needs_wall_jump() {
    let mut player = Player::new(settings(6, 10));
    player.items_data.extra_jump.extra_jumps = 1;
    player.items_data.extra_jump.used_extra_jumps = 1;
    player.reset_jumps_touching_vertically();
    assert_eq!(player.items_data.extra_jump.used_extra_jumps, 1);
    player.items_data.wall_jump.can_wall_jump = true;
    player.reset_jumps_touching_vertically();
    assert_eq!(player.items_data.extra_jump.used_extra_jumps, 0);
}

#[test]
fn health_trait_reads_and_damages() {
    let mut player = Player::new(settings(6, 10));
    let attacker = Player::new(settings(5, 5));
    assert_eq!(Health::health(&player), 6);
    attacker.deal_damage_to(&mut player);
    assert_eq!(player.health, 4);
    *player.health_mut() = 9;
    assert_eq!(Health::health(&player), 9);
    assert_eq!(player.max_health, 10);
    assert_eq!(player.damage, 2);
    Health::take_damage(&mut player, 20);
    assert_eq!(player.health, 0);
}

#[test]
fn facing_follows_flip() {
    assert_eq!(facing_sign(Flipped::Unflipped), 1);
    assert_eq!(facing_sign(Flipped::Horizontal), -1);
    assert_eq!(facing_sign(Flipped::Both), 1);
    assert_eq!(facing_of(Flipped::Horizontal), Facing::Left);
    assert_eq!(facing_of(Flipped::Vertical), Facing::Right);
}

#[test]
fn sides_touching_groups_sides() {
    let sides = SidesTouching {
        is_touching_top: false,
        is_touching_bottom: true,
        is_touching_left: false,
        is_touching_right: false,
    };
    assert!(sides.is_touching_vertically());
    assert!(!sides.is_touching_horizontally());
}
