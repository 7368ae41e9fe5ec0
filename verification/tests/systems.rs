use std::time::Duration;
use std::time::Instant;

use stabman::components::bullet::Bullet;
use stabman::components::bullet::BulletOwner;
use stabman::components::orientation::CollisionData;
use stabman::components::orientation::CollisionState;
use stabman::components::orientation::Facing;
use stabman::components::orientation::Flipped;
use stabman::components::orientation::Side;
use stabman::components::orientation::Sign;
use stabman::components::orientation::SidesTouching;
use stabman::components::player::Player;
use stabman::components::player::QuickTurnaround;
use stabman::components::player::SettingsPlayer;
use stabman::systems::hearts_system::full_hearts;
use stabman::systems::hearts_system::half_hearts;
use stabman::systems::hearts_system::heart_count;
use stabman::systems::hearts_system::heart_sprites;
use stabman::systems::hearts_system::is_handled;
use stabman::systems::hearts_system::HeartsSystem;
use stabman::systems::hearts_system::HeartsUpdateAction;
use stabman::systems::hearts_system::FULL_HEART_SPRITE_ID;
use stabman::systems::hearts_system::HALF_HEART_SPRITE_ID;
use stabman::systems::player_attack::deflect_bullet;
use stabman::systems::player_attack::end_finished_attack;
use stabman::systems::player_attack::place_attack;
use stabman::systems::player_attack::strike_enemy;
use stabman::systems::player_attack::PlayerAttack;
use stabman::systems::player_attack::Strike;
use stabman::systems::player_controls::can_buy_item;
use stabman::systems::player_controls::control_phase;
use stabman::systems::player_controls::flip_when_moving;
use stabman::systems::player_controls::handle_attack;
use stabman::systems::player_controls::handle_death_floor;
use stabman::systems::player_controls::handle_jump;
use stabman::systems::player_controls::handle_on_ground_and_in_air;
use stabman::systems::player_controls::handle_wall_cling;
use stabman::systems::player_controls::player_bullet;
use stabman::systems::player_controls::turnaround_setting;
use stabman::systems::player_controls::AttackInput;
use stabman::systems::player_controls::ControlPhase;
use stabman::systems::player_controls::JumpAction;
use stabman::systems::player_take_damage::enemy_contact;
use stabman::systems::player_take_damage::knockback_factors;
use stabman::systems::player_take_damage::x_knockback_for_vertical_side;

fn player() -> Player {
    Player::new(SettingsPlayer {
        quick_turnaround: QuickTurnaround::InvertVelocity,
        air_quick_turnaround: QuickTurnaround::ResetVelocity,
        decrease_x_velocity_in_air: false,
        health: 6,
        max_health: 10,
        damage: 2,
    })
}

fn sides(top: bool, bottom: bool, left: bool, right: bool) -> SidesTouching {
    SidesTouching {
        is_touching_top: top,
        is_touching_bottom: bottom,
        is_touching_left: left,
        is_touching_right: right,
    }
}

#[test]
fn wall_cling_stops_motion_into_the_wall_and_slides() {
    let mut p = player();
    p.items_data.wall_jump.can_wall_jump = true;
    p.items_data.extra_jump.extra_jumps = 1;
    p.items_data.extra_jump.used_extra_jumps = 1;
    let r = handle_wall_cling(&mut p, Sign::Negative, &sides(false, false, true, false));
    assert!(r.stop_x);
    assert!(r.slide);
    assert_eq!(p.items_data.extra_jump.used_extra_jumps, 0);
    let r = handle_wall_cling(&mut p, Sign::Positive, &sides(false, true, true, false));
    assert!(!r.stop_x);
    assert!(!r.slide);
    let r = handle_wall_cling(&mut p, Sign::Negative, &sides(false, false, false, false));
    assert!(!r.stop_x && !r.slide);
}

#[test]
fn ground_stops_fall_and_resets_jumps() {
    let mut p = player();
    p.items_data.extra_jump.extra_jumps = 2;
    p.items_data.extra_jump.used_extra_jumps = 2;
    let r = handle_on_ground_and_in_air(&mut p, Sign::Negative, &sides(false, true, false, false));
    assert!(r.stop_y);
    assert!(!r.mid_air);
    assert!(!r.keep_x_velocity);
    assert_eq!(p.items_data.extra_jump.used_extra_jumps, 0);
    let r = handle_on_ground_and_in_air(&mut p, Sign::Positive, &sides(true, false, false, false));
    assert!(r.stop_y);
    assert!(r.mid_air);
    assert!(r.keep_x_velocity);
    p.decrease_x_velocity_in_air = true;
    let r = handle_on_ground_and_in_air(&mut p, Sign::Negative, &sides(false, false, false, false));
    assert!(!r.stop_y);
    assert!(!r.keep_x_velocity);
}

#[test]
fn death_floor_kills() {
    let mut p = player();
    handle_death_floor(&mut p, false);
    assert_eq!(p.health, 6);
    handle_death_floor(&mut p, true);
    assert!(p.is_dead());
}

#[test]
fn control_is_regained_unless_goal_reached() {
    let mut p = player();
    assert_eq!(control_phase(&mut p, true), ControlPhase::Frozen);
    assert!(!p.in_control);
    assert_eq!(control_phase(&mut p, false), ControlPhase::Regained);
    assert!(p.in_control);
    assert_eq!(control_phase(&mut p, false), ControlPhase::Controlled);
    assert_eq!(control_phase(&mut p, true), ControlPhase::Frozen);
    assert!(p.in_control);
}

#[test]
fn turnaround_and_flip_follow_movement() {
    let mut p = player();
    assert_eq!(turnaround_setting(&p, true), QuickTurnaround::InvertVelocity);
    assert_eq!(turnaround_setting(&p, false), QuickTurnaround::ResetVelocity);
    let mut flipped = Flipped::Unflipped;
    flip_when_moving(&p, &mut flipped, Sign::Negative);
    assert_eq!(flipped, Flipped::Horizontal);
    flip_when_moving(&p, &mut flipped, Sign::Positive);
    assert_eq!(flipped, Flipped::Unflipped);
    p.is_attacking = true;
    flip_when_moving(&p, &mut flipped, Sign::Negative);
    assert_eq!(flipped, Flipped::Unflipped);
}

#[test]
fn jumps_use_extra_jumps_in_mid_air_only() {
    let mut p = player();
    p.items_data.extra_jump.extra_jumps = 1;
    assert_eq!(handle_jump(&mut p, true, &sides(false, true, false, false)), JumpAction::Jump);
    assert_eq!(p.items_data.extra_jump.used_extra_jumps, 0);
    assert_eq!(handle_jump(&mut p, true, &sides(false, false, false, false)), JumpAction::Jump);
    assert_eq!(p.items_data.extra_jump.used_extra_jumps, 1);
    assert_eq!(handle_jump(&mut p, true, &sides(false, false, false, false)), JumpAction::NoJump);
    assert_eq!(p.items_data.extra_jump.used_extra_jumps, 1);
    assert_eq!(handle_jump(&mut p, false, &sides(false, true, false, false)), JumpAction::NoJump);
}

#[test]
fn wall_jump_pushes_away_from_the_wall() {
    let mut p = player();
    p.items_data.wall_jump.can_wall_jump = true;
    p.items_data.extra_jump.extra_jumps = 3;
    assert_eq!(handle_jump(&mut p, true, &sides(false, false, true, false)), JumpAction::WallJump(1));
    assert_eq!(handle_jump(&mut p, true, &sides(false, false, false, true)), JumpAction::WallJump(-1));
    assert_eq!(p.items_data.extra_jump.used_extra_jumps, 0);
    assert_eq!(handle_jump(&mut p, true, &sides(false, true, true, false)), JumpAction::Jump);
}

#[test]
fn attack_turns_thrusts_and_shoots() {
    let mut p = player();
    p.items_data.thrust.can_thrust = true;
    p.items_data.bullet_shoot.can_shoot = true;
    let mut flipped = Flipped::Unflipped;
    let input = AttackInput { attack: false, attack_left: true, attack_right: false };
    let r = handle_attack(&mut p, input, &mut flipped);
    assert!(r.started);
    assert_eq!(r.thrust, Some(-1));
    assert!(r.shoot);
    assert!(p.is_attacking);
    assert_eq!(flipped, Flipped::Horizontal);
    let again = AttackInput { attack: true, attack_left: false, attack_right: true };
    let r = handle_attack(&mut p, again, &mut flipped);
    assert!(!r.started);
    assert_eq!(r.thrust, None);
    assert!(!r.shoot);
    assert_eq!(flipped, Flipped::Horizontal);
}

#[test]
fn plain_attack_without_items_only_starts() {
    let mut p = player();
    let mut flipped = Flipped::Horizontal;
    let input = AttackInput { attack: true, attack_left: false, attack_right: true };
    let r = handle_attack(&mut p, input, &mut flipped);
    assert!(r.started);
    assert_eq!(r.thrust, None);
    assert!(!r.shoot);
    assert_eq!(flipped, Flipped::Horizontal);
    let none = AttackInput { attack: false, attack_left: false, attack_right: false };
    let mut q = player();
    assert!(!handle_attack(&mut q, none, &mut flipped).started);
}

#[test]
fn player_bullet_carries_shot_data() {
    let mut p = player();
    p.items_data.bullet_shoot.damage = 4;
    p.items_data.bullet_shoot.lifetime = Duration::from_millis(750);
    let b = player_bullet(&p, (3.0f32, 1.0f32), Flipped::Horizontal);
    assert!(b.owner == BulletOwner::Player);
    assert_eq!(b.damage, 4);
    assert_eq!(b.lifetime, Duration::from_millis(750));
    assert_eq!(b.knockback, Some((3.0f32, 1.0f32)));
    assert_eq!(b.facing, Some(Facing::Left));
}

#[test]
fn items_are_bought_standing_on_them_with_enough_health() {
    let mut p = player();
    assert!(can_buy_item(&p, 5, Some(CollisionState::Steady), true));
    assert!(!can_buy_item(&p, 6, Some(CollisionState::Steady), true));
    assert!(!can_buy_item(&p, 1, Some(CollisionState::Enter), true));
    assert!(!can_buy_item(&p, 1, None, true));
    assert!(!can_buy_item(&p, 1, Some(CollisionState::Steady), false));
    p.take_damage(5);
    assert_eq!(p.health, 1);
    assert!(!p.is_dead());
}

#[test]
fn knockback_depends_on_side_and_look() {
    assert_eq!(x_knockback_for_vertical_side(Flipped::Unflipped), -1);
    assert_eq!(x_knockback_for_vertical_side(Flipped::Horizontal), 1);
    assert_eq!(knockback_factors(Side::Left, Flipped::Unflipped), (1, 1));
    assert_eq!(knockback_factors(Side::Right, Flipped::Unflipped), (-1, 1));
    assert_eq!(knockback_factors(Side::Top, Flipped::Unflipped), (-1, 1));
    assert_eq!(knockback_factors(Side::Inner, Flipped::Horizontal), (1, 1));
    assert_eq!(knockback_factors(Side::Bottom, Flipped::Unflipped), (-1, -1));
}

#[test]
fn enemy_contact_hurts_only_on_enter() {
    let mut p = player();
    let hit = Some(CollisionData { side: Side::Right, state: CollisionState::Enter });
    assert_eq!(enemy_contact(&mut p, hit, 2, Flipped::Unflipped), Some((-1, 1)));
    assert_eq!(p.health, 4);
    let steady = Some(CollisionData { side: Side::Right, state: CollisionState::Steady });
    assert_eq!(enemy_contact(&mut p, steady, 2, Flipped::Unflipped), None);
    assert_eq!(enemy_contact(&mut p, None, 2, Flipped::Unflipped), None);
    assert_eq!(p.health, 4);
}

#[test]
fn attack_ends_with_its_animation() {
    let mut p = player();
    p.is_attacking = true;
    end_finished_attack(&mut p, true);
    assert!(p.is_attacking);
    end_finished_attack(&mut p, false);
    assert!(!p.is_attacking);
}

#[test]
fn attack_hitbox_follows_the_player() {
    let mut attack = PlayerAttack { active: false };
    let mut attack_flipped = Flipped::Unflipped;
    assert_eq!(place_attack(&mut attack, &mut attack_flipped, true, Flipped::Horizontal), Some(-1));
    assert!(attack.active);
    assert_eq!(attack_flipped, Flipped::Horizontal);
    assert_eq!(place_attack(&mut attack, &mut attack_flipped, true, Flipped::Vertical), Some(0));
    assert_eq!(place_attack(&mut attack, &mut attack_flipped, false, Flipped::Unflipped), None);
    assert!(!attack.active);
    assert_eq!(attack_flipped, Flipped::Vertical);
}

#[test]
fn strike_damages_and_knocks_back() {
    let mut p = player();
    let mut enemy = player();
    assert_eq!(strike_enemy(&p, &mut enemy, true, Some(CollisionState::Steady), Flipped::Unflipped), Strike::Miss);
    assert_eq!(enemy.health, 6);
    assert_eq!(strike_enemy(&p, &mut enemy, true, Some(CollisionState::Enter), Flipped::Horizontal), Strike::Hit);
    assert_eq!(enemy.health, 4);
    p.items_data.knockback.has_knockback = true;
    assert_eq!(
        strike_enemy(&p, &mut enemy, true, Some(CollisionState::Enter), Flipped::Horizontal),
        Strike::HitWithKnockback(-1)
    );
    assert_eq!(strike_enemy(&p, &mut enemy, false, Some(CollisionState::Enter), Flipped::Horizontal), Strike::Hit);
    assert_eq!(enemy.health, 0);
}

#[test]
fn deflected_bullet_changes_sides_once() {
    let mut p = player();
    p.items_data.bullet_deflect.can_deflect = true;
    p.items_data.bullet_deflect.damage = 9;
    p.items_data.bullet_deflect.lifetime = Duration::from_secs(3);
    let mut bullet = Bullet::new()
        .owner(BulletOwner::Enemy)
        .damage(1)
        .lifetime(Duration::from_secs(1))
        .knockback((0.5f32, 0.5f32))
        .build();
    let now = Instant::now();
    assert!(!deflect_bullet(&p, &mut bullet, Some(CollisionState::Steady), now));
    assert_eq!(bullet.damage, 1);
    assert!(deflect_bullet(&p, &mut bullet, Some(CollisionState::Enter), now));
    assert!(bullet.owner == BulletOwner::Player);
    assert_eq!(bullet.damage, 9);
    assert_eq!(bullet.lifetime, Duration::from_secs(3));
    assert_eq!(bullet.created_at, now);
    assert_eq!(bullet.knockback, Some((0.5f32, 0.5f32)));
    assert!(!deflect_bullet(&p, &mut bullet, Some(CollisionState::Enter), now));
}

#[test]
fn hearts_show_health() {
    assert_eq!(heart_count(0), 0);
    assert_eq!(heart_count(5), 3);
    assert_eq!(heart_count(6), 3);
    assert_eq!(full_hearts(5), 2);
    assert_eq!(half_hearts(5), 1);
    assert_eq!(half_hearts(6), 0);
    assert_eq!(heart_sprites(5), vec![FULL_HEART_SPRITE_ID, FULL_HEART_SPRITE_ID, HALF_HEART_SPRITE_ID]);
    assert_eq!(heart_sprites(4), vec![FULL_HEART_SPRITE_ID, FULL_HEART_SPRITE_ID]);
    assert!(heart_sprites(0).is_empty());
    assert_eq!(heart_count(u32::MAX), 2_147_483_648);
}

#[test]
fn hearts_containers_are_tracked() {
    assert!(is_handled(true, true));
    assert!(is_handled(false, false));
    assert!(!is_handled(true, false));
    let mut system: HeartsSystem<(f32, f32)> = HeartsSystem::default();
    assert!(system.remembered(7).is_none());
    assert_eq!(system.plan_update(7, 5, 0, (1.0, 2.0), false), Some(HeartsUpdateAction::Recreate));
    let seen = system.remembered(7).unwrap();
    assert_eq!(seen.health, 5);
    assert_eq!(seen.pos, (1.0, 2.0));
    assert_eq!(system.plan_update(7, 5, 3, (1.0, 2.0), false), None);
    assert_eq!(system.plan_update(7, 5, 3, (4.0, 2.0), true), Some(HeartsUpdateAction::MoveTransforms));
    assert_eq!(system.plan_update(7, 5, 2, (4.0, 2.0), true), Some(HeartsUpdateAction::Recreate));
    assert_eq!(system.plan_update(7, 4, 3, (4.0, 2.0), false), Some(HeartsUpdateAction::Recreate));
    assert_eq!(system.remembered(7).unwrap().health, 4);
}
