use vstd::prelude::*;

use crate::components::bullet::Bullet;
use crate::components::bullet::BulletOwner;
use crate::components::orientation::facing_of;
use crate::components::orientation::facing_sign;
use crate::components::orientation::spec_facing_of;
use crate::components::orientation::spec_facing_sign;
use crate::components::orientation::CollisionState;
use crate::components::orientation::Flipped;
use crate::components::orientation::Sign;
use crate::components::orientation::SidesTouching;
use crate::components::player::health::health_after_damage;
use crate::components::player::health::take_damage_defined;
use crate::components::player::jumps_reset;
use crate::components::player::Player;
use crate::components::player::QuickTurnaround;
use crate::components::player::items_data::ExtraJumpData;
use crate::components::player::items_data::ItemsData;

verus! {

/// Moves the player by input: walking, jumping, attacking and buying items.
pub struct PlayerControlsSystem;

/// What the player's velocity undergoes against a wall.
#[derive(Clone, Copy, Debug, PartialEq, Eq, Structural)]
pub struct WallCling {
    /// The horizontal velocity is set to zero.
    pub stop_x: bool,
    /// The player clings to the wall: the fall is capped at the slide strength.
    pub slide: bool,
}

/// Touching a solid horizontally: the horizontal velocity stops when it points into the
/// wall, and without a solid above or below the player slides down the wall, which gives
/// back extra jumps and dashes to a player who can wall-jump.
pub fn handle_wall_cling(player: &mut Player, velocity_x: Sign, sides: &SidesTouching) -> (r:
    WallCling)
    ensures
        r.stop_x == (sides.touching_horizontally() && ((sides.is_touching_left && velocity_x
            == Sign::Negative) || (sides.is_touching_right && velocity_x == Sign::Positive))),
        r.slide == (sides.touching_horizontally() && !sides.touching_vertically()),
        *final(player) == if r.slide && old(player).items_data.wall_jump.can_wall_jump {
            jumps_reset(*old(player))
        } else {
            *old(player)
        },
{
    let mut r = WallCling { stop_x: false, slide: false };
    if sides.is_touching_horizontally() {
        if (sides.is_touching_left && velocity_x == Sign::Negative) || (sides.is_touching_right
            && velocity_x == Sign::Positive) {
            r.stop_x = true;
        }
        if !sides.is_touching_vertically() {
            r.slide = true;
            player.reset_jumps_touching_vertically();
        }
    }
    r
}

/// What happens to the player on the ground and in the air.
#[derive(Clone, Copy, Debug, PartialEq, Eq, Structural)]
pub struct GroundOrAir {
    /// The vertical velocity is set to zero.
    pub stop_y: bool,
    /// The player is in mid-air (and plays the mid-air animation).
    pub mid_air: bool,
    /// The horizontal velocity is not decreased this frame.
    pub keep_x_velocity: bool,
}

/// Standing on a solid stops a fall and gives back extra jumps and dashes; hitting a
/// ceiling stops a rise; in the air the horizontal velocity is kept unless the settings
/// say to decrease it.
pub fn handle_on_ground_and_in_air(player: &mut Player, velocity_y: Sign, sides: &SidesTouching) -> (r:
    GroundOrAir)
    ensures
        r.stop_y == ((sides.is_touching_bottom && velocity_y == Sign::Negative) || (
        sides.is_touching_top && velocity_y == Sign::Positive)),
        r.mid_air == !sides.is_touching_bottom,
        r.keep_x_velocity == (!sides.is_touching_bottom && !old(
            player,
        ).decrease_x_velocity_in_air),
        *final(player) == if sides.is_touching_bottom {
            jumps_reset(*old(player))
        } else {
            *old(player)
        },
{
    let stop_y = (sides.is_touching_bottom && velocity_y == Sign::Negative) || (
    sides.is_touching_top && velocity_y == Sign::Positive);
    let mid_air = !sides.is_touching_bottom;
    let keep_x_velocity = mid_air && !player.decrease_x_velocity_in_air;
    if sides.is_touching_bottom {
        player.reset_jumps();
    }
    GroundOrAir { stop_y, mid_air, keep_x_velocity }
}

/// A player who falls below the level's death floor loses all health.
pub fn handle_death_floor(player: &mut Player, below_death_floor: bool)
    ensures
        *final(player) == if below_death_floor {
            Player { health: 0, ..*old(player) }
        } else {
            *old(player)
        },
{
    if below_death_floor {
        player.health = 0;
    }
}

/// Whether the player's input counts this frame.
#[derive(Clone, Copy, Debug, PartialEq, Eq, Structural)]
pub enum ControlPhase {
    /// The player is in control and acts on input.
    Controlled,
    /// The level just started: the player regains control (and plays the idle animation).
    Regained,
    /// The goal leads to the next level: input is ignored.
    Frozen,
}

/// Decides whether input counts: not once the goal to the next level is reached;
/// a player out of control regains it at once otherwise.
pub fn control_phase(player: &mut Player, goal_next_level: bool) -> (r: ControlPhase)
    ensures
        r == if goal_next_level {
            ControlPhase::Frozen
        } else if old(player).in_control {
            ControlPhase::Controlled
        } else {
            ControlPhase::Regained
        },
        *final(player) == (Player { in_control: old(player).in_control || !goal_next_level, ..*old(player) }),
{
    if player.in_control && !goal_next_level {
        ControlPhase::Controlled
    } else if !player.in_control && !goal_next_level {
        player.in_control = true;
        ControlPhase::Regained
    } else {
        ControlPhase::Frozen
    }
}

/// The quick-turnaround setting that applies: the ground one on the ground, the air one
/// in the air.
pub fn turnaround_setting(player: &Player, on_ground: bool) -> (r: QuickTurnaround)
    ensures
        r == if on_ground {
            player.quick_turnaround
        } else {
            player.air_quick_turnaround
        },
{
    if on_ground {
        player.quick_turnaround
    } else {
        player.air_quick_turnaround
    }
}

/// The sprite flip after moving with horizontal input `input_x`: moving right unflips a
/// flipped sprite, moving left flips an unflipped one; nothing changes during an attack.
pub open spec fn flipped_after_move(is_attacking: bool, flipped: Flipped, input_x: Sign) -> Flipped {
    if !is_attacking && flipped == Flipped::Horizontal && input_x == Sign::Positive {
        Flipped::Unflipped
    } else if !is_attacking && flipped == Flipped::Unflipped && input_x == Sign::Negative {
        Flipped::Horizontal
    } else {
        flipped
    }
}

/// Flips the player's sprite towards the direction of movement.
pub fn flip_when_moving(player: &Player, flipped: &mut Flipped, input_x: Sign)
    ensures
        *final(flipped) == flipped_after_move(player.is_attacking, *old(flipped), input_x),
{
    if !player.is_attacking {
        if *flipped == Flipped::Horizontal && input_x == Sign::Positive {
            *flipped = Flipped::Unflipped;
        } else if *flipped == Flipped::Unflipped && input_x == Sign::Negative {
            *flipped = Flipped::Horizontal;
        }
    }
}

/// What a jump does to the player's velocity.
#[derive(Clone, Copy, Debug, PartialEq, Eq, Structural)]
pub enum JumpAction {
    /// No jump this frame.
    NoJump,
    /// A jump straight up (from the ground, or an extra jump).
    Jump,
    /// A jump off a wall; the horizontal push is `1` (to the right) or `-1`.
    WallJump(i8),
}

/// A wall jump is possible: the player owns it, presses jump, touches a wall and does
/// not stand on the ground.
pub open spec fn can_wall_jump(player: Player, jump_down: bool, sides: SidesTouching) -> bool {
    player.items_data.wall_jump.can_wall_jump && jump_down && sides.touching_horizontally()
        && !sides.is_touching_bottom
}

/// A plain jump is possible: jump is pressed, and the player stands on the ground or has
/// an extra jump left, and no wall jump is possible.
pub open spec fn can_jump(player: Player, jump_down: bool, sides: SidesTouching) -> bool {
    jump_down && (sides.is_touching_bottom || player.has_extra_jump_spec()) && !can_wall_jump(
        player,
        jump_down,
        sides,
    )
}

/// The player after a jump decision: a plain jump in mid-air uses up one extra jump.
pub open spec fn player_after_jump(player: Player, jump_down: bool, sides: SidesTouching) -> Player {
    if can_jump(player, jump_down, sides) && !sides.is_touching_bottom {
        Player {
            items_data: ItemsData {
                extra_jump: ExtraJumpData {
                    used_extra_jumps: (player.items_data.extra_jump.used_extra_jumps + 1) as u32,
                    ..player.items_data.extra_jump
                },
                ..player.items_data
            },
            ..player
        }
    } else {
        player
    }
}

/// The jump decided: a plain jump where one is possible, else a wall jump pushing away
/// from the touched wall, else none.
pub open spec fn jump_action(player: Player, jump_down: bool, sides: SidesTouching) -> JumpAction {
    if can_jump(player, jump_down, sides) {
        JumpAction::Jump
    } else if can_wall_jump(player, jump_down, sides) {
        JumpAction::WallJump(if sides.is_touching_left { 1i8 } else { -1i8 })
    } else {
        JumpAction::NoJump
    }
}

/// Pressing jump on the ground always jumps, whatever the player's items, and uses no
/// extra jump: the player is unchanged. Without the button nothing happens.
pub proof fn lemma_ground_jump(player: Player, jump_down: bool, sides: SidesTouching)
    ensures
        jump_down && sides.is_touching_bottom ==> jump_action(player, jump_down, sides)
            == JumpAction::Jump && player_after_jump(player, jump_down, sides) == player,
        !jump_down ==> jump_action(player, jump_down, sides) == JumpAction::NoJump
            && player_after_jump(player, jump_down, sides) == player,
{
}

/// A jump in mid-air without a wall needs an extra jump: a player who has none left does
/// not jump; a wall jump pushes right off a left wall and left off a right wall.
pub proof fn lemma_air_jump_needs_extra_jump(player: Player, jump_down: bool, sides: SidesTouching)
    ensures
        !sides.is_touching_bottom && !player.has_extra_jump_spec() && !(
        player.items_data.wall_jump.can_wall_jump && sides.touching_horizontally())
            ==> jump_action(player, jump_down, sides) == JumpAction::NoJump,
        jump_action(player, jump_down, sides) == JumpAction::WallJump(1i8) ==> sides.is_touching_left,
        jump_action(player, jump_down, sides) == JumpAction::WallJump(-1i8) ==> !sides.is_touching_left
            && sides.is_touching_right,
{
}

/// Decides a jump. A plain jump in mid-air uses up one extra jump; a wall jump pushes
/// away from the wall that is touched.
pub fn handle_jump(player: &mut Player, jump_down: bool, sides: &SidesTouching) -> (r: JumpAction)
    ensures
        r == jump_action(*old(player), jump_down, *sides),
        *final(player) == player_after_jump(*old(player), jump_down, *sides),
{
    let wall_jump = player.items_data.wall_jump.can_wall_jump && jump_down
        && sides.is_touching_horizontally() && !sides.is_touching_bottom;
    let jump = jump_down && (sides.is_touching_bottom || player.has_extra_jump()) && !wall_jump;
    if jump {
        if !sides.is_touching_bottom {
            player.items_data.extra_jump.used_extra_jumps =
                player.items_data.extra_jump.used_extra_jumps + 1;
        }
        JumpAction::Jump
    } else if wall_jump {
        if sides.is_touching_left {
            JumpAction::WallJump(1)
        } else {
            JumpAction::WallJump(-1)
        }
    } else {
        JumpAction::NoJump
    }
}

/// Jumping never uses more extra jumps than the player owns: a player within its
/// extra jumps stays within them, and a jump in mid-air uses exactly one.
pub proof fn lemma_jump_stays_within_extra_jumps(player: Player, jump_down: bool, sides: SidesTouching)
    requires
        player.items_data.extra_jump.used_extra_jumps <= player.items_data.extra_jump.extra_jumps,
    ensures
        player_after_jump(player, jump_down, sides).items_data.extra_jump.used_extra_jumps
            <= player_after_jump(player, jump_down, sides).items_data.extra_jump.extra_jumps,
        can_jump(player, jump_down, sides) && !sides.is_touching_bottom
            ==> player_after_jump(player, jump_down, sides).items_data.extra_jump.used_extra_jumps
            == player.items_data.extra_jump.used_extra_jumps + 1,
{
}

/// Buying an item never kills the player: the item costs less than the player's health.
pub proof fn lemma_buying_keeps_player_alive(player: Player, cost: u32, contact: Option<CollisionState>, buy_down: bool)
    requires
        can_buy_item_spec(player, cost, contact, buy_down),
        player.health <= i32::MAX,
    ensures
        take_damage_defined(player.health, cost),
        health_after_damage(player.health, cost) > 0,
{
}

/// Which attack buttons are held down.
#[derive(Clone, Copy, Debug, PartialEq, Eq, Structural)]
pub struct AttackInput {
    pub attack: bool,
    pub attack_left: bool,
    pub attack_right: bool,
}

/// What an attack started this frame brings about.
#[derive(Clone, Copy, Debug, PartialEq, Eq, Structural)]
pub struct AttackOutcome {
    /// An attack started (and plays its animation).
    pub started: bool,
    /// The horizontal direction of the thrust the attack gives, `1` or `-1`, if any.
    pub thrust: Option<i8>,
    /// The attack shoots a bullet.
    pub shoot: bool,
}

/// An attack starts when the player is not attacking already and holds an attack button.
pub open spec fn attack_starts(is_attacking: bool, input: AttackInput) -> bool {
    !is_attacking && (input.attack || input.attack_left || input.attack_right)
}

/// The flip after the attack buttons: a directed attack turns the player its way.
pub open spec fn flipped_after_attack_input(is_attacking: bool, input: AttackInput, flipped: Flipped) -> Flipped {
    if is_attacking || input.attack {
        flipped
    } else if input.attack_left {
        Flipped::Horizontal
    } else if input.attack_right {
        Flipped::Unflipped
    } else {
        flipped
    }
}

/// The thrust of an attack: in the direction the player looks once the attack buttons
/// have turned it, when an attack starts and the player owns the thrust.
pub open spec fn attack_thrust(is_attacking: bool, can_thrust: bool, input: AttackInput, flipped: Flipped) -> Option<i8> {
    if attack_starts(is_attacking, input) && can_thrust {
        Some(spec_facing_sign(flipped_after_attack_input(is_attacking, input, flipped)) as i8)
    } else {
        None
    }
}

/// A directed attack turns the player its way and thrusts that way: the right attack
/// (with the plain attack button up) makes the player look right and thrust by `1`, the
/// left attack (with the plain and right buttons up) look left and thrust by `-1`. The
/// plain attack button keeps the look. An attack in progress changes nothing.
pub proof fn lemma_directed_attack_turns(
    is_attacking: bool,
    can_thrust: bool,
    input: AttackInput,
    flipped: Flipped,
)
    ensures
        !is_attacking && !input.attack && !input.attack_left && input.attack_right ==> {
            &&& flipped_after_attack_input(is_attacking, input, flipped) == Flipped::Unflipped
            &&& attack_starts(is_attacking, input)
            &&& can_thrust ==> attack_thrust(is_attacking, can_thrust, input, flipped) == Some(1i8)
        },
        !is_attacking && !input.attack && input.attack_left ==> {
            &&& flipped_after_attack_input(is_attacking, input, flipped) == Flipped::Horizontal
            &&& attack_starts(is_attacking, input)
            &&& can_thrust ==> attack_thrust(is_attacking, can_thrust, input, flipped) == Some(-1i8)
        },
        input.attack ==> flipped_after_attack_input(is_attacking, input, flipped) == flipped,
        is_attacking ==> {
            &&& flipped_after_attack_input(is_attacking, input, flipped) == flipped
            &&& !attack_starts(is_attacking, input)
            &&& attack_thrust(is_attacking, can_thrust, input, flipped) is None
        },
{
}

/// Starts an attack on input. A directed attack first turns the player; a started
/// attack marks the player as attacking, thrusts it forward if it owns the thrust, and
/// shoots a bullet if it owns the bullet shot.
pub fn handle_attack(player: &mut Player, input: AttackInput, flipped: &mut Flipped) -> (r:
    AttackOutcome)
    ensures
        *final(flipped) == flipped_after_attack_input(old(player).is_attacking, input, *old(flipped)),
        r.started == attack_starts(old(player).is_attacking, input),
        r.thrust == attack_thrust(
            old(player).is_attacking,
            old(player).items_data.thrust.can_thrust,
            input,
            *old(flipped),
        ),
        r.shoot == (r.started && old(player).items_data.bullet_shoot.can_shoot),
        *final(player) == (Player { is_attacking: old(player).is_attacking || r.started, ..*old(player) }),
{
    let started = if !player.is_attacking {
        if input.attack {
            true
        } else if input.attack_left {
            *flipped = Flipped::Horizontal;
            true
        } else if input.attack_right {
            *flipped = Flipped::Unflipped;
            true
        } else {
            false
        }
    } else {
        false
    };
    let mut thrust = None;
    if started {
        player.is_attacking = true;
        if player.items_data.thrust.can_thrust {
            thrust = Some(facing_sign(*flipped));
        }
    }
    let shoot = started && player.items_data.bullet_shoot.can_shoot;
    AttackOutcome { started, thrust, shoot }
}

/// The bullet a player's attack shoots: owned by the player, with the damage and
/// lifetime of the player's bullet shot, the given knockback, facing where the player
/// looks.
pub fn player_bullet<V>(player: &Player, knockback: V, flipped: Flipped) -> (b: Bullet<V>)
    ensures
        b.owner == BulletOwner::Player,
        b.damage == player.items_data.bullet_shoot.damage,
        b.lifetime == player.items_data.bullet_shoot.lifetime,
        b.knockback == Some(knockback),
        b.facing == Some(spec_facing_of(flipped)),
{
    Bullet::new().owner(BulletOwner::Player).damage(player.items_data.bullet_shoot.damage).lifetime(
        player.items_data.bullet_shoot.lifetime,
    ).knockback(knockback).facing(facing_of(flipped)).build()
}

/// The player can buy an item: it stands on it (a steady collision), holds the buy
/// button, and has more health than the item costs.
pub open spec fn can_buy_item_spec(
    player: Player,
    cost: u32,
    contact: Option<CollisionState>,
    buy_down: bool,
) -> bool {
    contact == Some(CollisionState::Steady) && cost < player.health && buy_down
}

/// Decides whether the player buys an item.
pub fn can_buy_item(player: &Player, cost: u32, contact: Option<CollisionState>, buy_down: bool) -> (r:
    bool)
    ensures
        r == can_buy_item_spec(*player, cost, contact, buy_down),
{
    match contact {
        Some(CollisionState::Steady) => cost < player.health && buy_down,
        _ => false,
    }
}

} // verus!
