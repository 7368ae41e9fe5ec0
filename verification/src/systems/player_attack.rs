use std::time::Instant;

use vstd::prelude::*;

use crate::components::bullet::Bullet;
use crate::components::bullet::BulletOwner;
use crate::components::orientation::facing_sign;
use crate::components::orientation::spec_facing_sign;
use crate::components::orientation::CollisionState;
use crate::components::orientation::Flipped;
use crate::components::player::health::health_after_damage;
use crate::components::player::health::take_damage_defined;
use crate::components::player::health::Health;
use crate::components::player::Player;

verus! {

/// Moves the player's attack hitbox along with the player, and applies its hits.
pub struct PlayerAttackSystem;

/// The player's attack hitbox; it only hits while active.
#[derive(Clone, Copy, Debug, PartialEq, Eq, Structural)]
pub struct PlayerAttack {
    pub active: bool,
}

/// An attack ends once its animation has stopped playing.
pub fn end_finished_attack(player: &mut Player, attack_animation_playing: bool)
    ensures
        *final(player) == (Player {
            is_attacking: old(player).is_attacking && attack_animation_playing,
            ..*old(player)
        }),
{
    if !attack_animation_playing {
        player.is_attacking = false;
    }
}

/// Where the hitbox goes beside the player, in player widths: `1` to the right of an
/// unflipped player, `-1` to the left of a horizontally flipped one, `0` otherwise.
pub open spec fn spec_attack_offset(player_flipped: Flipped) -> int {
    match player_flipped {
        Flipped::Unflipped => 1,
        Flipped::Horizontal => -1,
        _ => 0,
    }
}

/// The hitbox goes in front of the player: to the right (`1`) of a player looking right,
/// to the left (`-1`) of one looking left, in the direction of its facing sign.
pub proof fn lemma_attack_in_front(player_flipped: Flipped)
    ensures
        player_flipped == Flipped::Unflipped ==> spec_attack_offset(player_flipped) == 1,
        player_flipped == Flipped::Horizontal ==> spec_attack_offset(player_flipped) == -1,
        (player_flipped == Flipped::Unflipped || player_flipped == Flipped::Horizontal)
            ==> spec_attack_offset(player_flipped) == spec_facing_sign(player_flipped),
{
}

/// Places the hitbox for this frame. While the player attacks, the hitbox is active,
/// looks the player's way, and the result is its offset beside the player; otherwise it
/// is inactive and hidden (`None`).
pub fn place_attack(
    attack: &mut PlayerAttack,
    attack_flipped: &mut Flipped,
    is_attacking: bool,
    player_flipped: Flipped,
) -> (r: Option<i8>)
    ensures
        final(attack).active == is_attacking,
        *final(attack_flipped) == if is_attacking {
            player_flipped
        } else {
            *old(attack_flipped)
        },
        r == if is_attacking {
            Some(spec_attack_offset(player_flipped) as i8)
        } else {
            None::<i8>
        },
{
    if is_attacking {
        let offset: i8 = match player_flipped {
            Flipped::Unflipped => 1,
            Flipped::Horizontal => -1,
            _ => 0,
        };
        if *attack_flipped != player_flipped {
            *attack_flipped = player_flipped;
        }
        attack.active = true;
        Some(offset)
    } else {
        attack.active = false;
        None
    }
}

/// What an active attack does to an enemy it touches.
#[derive(Clone, Copy, Debug, PartialEq, Eq, Structural)]
pub enum Strike {
    /// The attack did not just begin touching the enemy.
    Miss,
    /// The enemy took the player's damage.
    Hit,
    /// The enemy took the player's damage and is knocked back in the direction given
    /// (`1` or `-1`), by the player's knockback velocity.
    HitWithKnockback(i8),
}

/// An active attack that begins touching an enemy deals the player's damage to it, and
/// knocks it back the way the attack looks when the enemy can be knocked back and the
/// player owns the knockback.
pub fn strike_enemy<H: Health>(
    player: &Player,
    enemy: &mut H,
    enemy_affected_by_knockback: bool,
    contact: Option<CollisionState>,
    attack_flipped: Flipped,
) -> (r: Strike)
    requires
        contact == Some(CollisionState::Enter) ==> take_damage_defined(
            old(enemy).health_points(),
            player.damage,
        ),
    ensures
        contact == Some(CollisionState::Enter) ==> final(enemy).health_points()
            == health_after_damage(old(enemy).health_points(), player.damage),
        r == if contact != Some(CollisionState::Enter) {
            Strike::Miss
        } else if enemy_affected_by_knockback && player.items_data.knockback.has_knockback {
            Strike::HitWithKnockback(spec_facing_sign(attack_flipped) as i8)
        } else {
            Strike::Hit
        },
        contact != Some(CollisionState::Enter) ==> *final(enemy) == *old(enemy),
{
    match contact {
        Some(CollisionState::Enter) => {
            player.deal_damage_to(enemy);
            if enemy_affected_by_knockback && player.items_data.knockback.has_knockback {
                Strike::HitWithKnockback(facing_sign(attack_flipped))
            } else {
                Strike::Hit
            }
        },
        _ => Strike::Miss,
    }
}

/// The attack deflects the bullet: the player owns the deflection, the bullet is an
/// enemy's, and the attack has just begun touching it.
pub open spec fn deflects<V>(player: Player, bullet: Bullet<V>, contact: Option<CollisionState>) -> bool {
    player.items_data.bullet_deflect.can_deflect && bullet.owner == BulletOwner::Enemy && contact
        == Some(CollisionState::Enter)
}

/// The bullet after a deflection: the player's, with the deflection's damage and
/// lifetime, new since `now`; knockback and facing stay.
pub open spec fn deflected<V>(player: Player, bullet: Bullet<V>, now: Instant) -> Bullet<V> {
    Bullet {
        owner: BulletOwner::Player,
        damage: player.items_data.bullet_deflect.damage,
        lifetime: player.items_data.bullet_deflect.lifetime,
        created_at: now,
        ..bullet
    }
}

/// Only a player who owns the deflection deflects, and only enemy bullets that the attack
/// has just begun touching; in every other case the bullet is left as it is.
pub proof fn lemma_deflection_needs_item<V>(
    player: Player,
    bullet: Bullet<V>,
    contact: Option<CollisionState>,
)
    ensures
        !player.items_data.bullet_deflect.can_deflect ==> !deflects(player, bullet, contact),
        bullet.owner == BulletOwner::Player ==> !deflects(player, bullet, contact),
        contact != Some(CollisionState::Enter) ==> !deflects(player, bullet, contact),
        player.items_data.bullet_deflect.can_deflect && bullet.owner == BulletOwner::Enemy
            && contact == Some(CollisionState::Enter) ==> deflects(player, bullet, contact),
{
}

/// A bullet is deflected at most once: after a deflection it belongs to the player, and
/// no attack deflects it again.
pub proof fn lemma_deflected_bullet_stays_deflected<V>(
    player: Player,
    other: Player,
    bullet: Bullet<V>,
    contact: Option<CollisionState>,
    later_contact: Option<CollisionState>,
    now: Instant,
)
    requires
        deflects(player, bullet, contact),
    ensures
        !deflects(other, deflected(player, bullet, now), later_contact),
{
}

/// An enemy bullet that an active attack begins touching is deflected, if the player
/// owns the deflection: it now belongs to the player, gets the deflection's damage and
/// lifetime, and starts its life at `now`. Returns whether the bullet was deflected
/// (its velocity is then scaled by the deflection's factors).
pub fn deflect_bullet<V>(
    player: &Player,
    bullet: &mut Bullet<V>,
    contact: Option<CollisionState>,
    now: Instant,
) -> (r: bool)
    ensures
        r == deflects(*player, *old(bullet), contact),
        *final(bullet) == if r {
            deflected(*player, *old(bullet), now)
        } else {
            *old(bullet)
        },
{
    if player.items_data.bullet_deflect.can_deflect && bullet.owner == BulletOwner::Enemy {
        if let Some(CollisionState::Enter) = contact {
            bullet.owner = BulletOwner::Player;
            bullet.damage = player.items_data.bullet_deflect.damage;
            bullet.lifetime = player.items_data.bullet_deflect.lifetime;
            bullet.created_at = now;
            return true;
        }
    }
    false
}

} // verus!
