use vstd::prelude::*;

use crate::components::orientation::CollisionData;
use crate::components::orientation::CollisionState;
use crate::components::orientation::Flipped;
use crate::components::orientation::Side;
use crate::components::player::health::health_after_damage;
use crate::components::player::health::take_damage_defined;
use crate::components::player::Player;

verus! {

/// Hurts the player when it runs into an enemy, and knocks it back.
pub struct PlayerTakeDamageSystem;

/// The horizontal knockback direction when an enemy hits the player from above, below
/// or inside: against the way the player looks (`-1` when it looks right).
pub open spec fn spec_x_knockback_for_vertical_side(flipped: Flipped) -> int {
    if flipped == Flipped::Unflipped {
        -1
    } else {
        1
    }
}

/// `-1` for an unflipped player, `1` otherwise.
pub fn x_knockback_for_vertical_side(flipped: Flipped) -> (r: i8)
    ensures
        r == spec_x_knockback_for_vertical_side(flipped),
{
    if let Flipped::Unflipped = flipped {
        -1
    } else {
        1
    }
}

/// The factors for the enemy's knockback vector, by the side of the player that the
/// enemy hit: from the left the knockback applies as it is, from the right mirrored;
/// from the top or inside the horizontal part goes against the player's look, and from
/// the bottom the vertical part is inverted too.
pub open spec fn spec_knockback_factors(side: Side, flipped: Flipped) -> (int, int) {
    match side {
        Side::Left => (1, 1),
        Side::Right => (-1, 1),
        Side::Top | Side::Inner => (spec_x_knockback_for_vertical_side(flipped), 1),
        Side::Bottom => (spec_x_knockback_for_vertical_side(flipped), -1),
    }
}

/// The factors (`1` or `-1` each) by which the enemy's knockback vector is multiplied.
pub fn knockback_factors(side: Side, flipped: Flipped) -> (r: (i8, i8))
    ensures
        r.0 == spec_knockback_factors(side, flipped).0,
        r.1 == spec_knockback_factors(side, flipped).1,
{
    match side {
        Side::Left => (1, 1),
        Side::Right => (-1, 1),
        Side::Top | Side::Inner => (x_knockback_for_vertical_side(flipped), 1),
        Side::Bottom => (x_knockback_for_vertical_side(flipped), -1),
    }
}

/// Each knockback factor is `1` or `-1`; a hit from the left pushes right and a hit from
/// the right pushes left, and only a hit from below pushes down.
pub proof fn lemma_knockback_factors(side: Side, flipped: Flipped)
    ensures
        spec_knockback_factors(side, flipped).0 == 1 || spec_knockback_factors(side, flipped).0
            == -1,
        spec_knockback_factors(side, flipped).1 == 1 || spec_knockback_factors(side, flipped).1
            == -1,
        side == Side::Left ==> spec_knockback_factors(side, flipped).0 == 1,
        side == Side::Right ==> spec_knockback_factors(side, flipped).0 == -1,
        (spec_knockback_factors(side, flipped).1 == -1) == (side == Side::Bottom),
{
}

/// A hit from above, inside or below pushes the player horizontally against the way it
/// looks, the same for all three sides: to the left (`-1`) when it looks right
/// (unflipped), to the right (`1`) otherwise; vertically up, except from below.
pub proof fn lemma_vertical_hits_push_against_look(flipped: Flipped)
    ensures
        spec_knockback_factors(Side::Top, flipped).0 == spec_knockback_factors(
            Side::Inner,
            flipped,
        ).0,
        spec_knockback_factors(Side::Top, flipped).0 == spec_knockback_factors(
            Side::Bottom,
            flipped,
        ).0,
        spec_knockback_factors(Side::Top, flipped).0 == (if flipped == Flipped::Unflipped {
            -1int
        } else {
            1int
        }),
        spec_knockback_factors(Side::Top, flipped).1 == 1,
        spec_knockback_factors(Side::Inner, flipped).1 == 1,
        spec_knockback_factors(Side::Bottom, flipped).1 == -1,
{
}

/// A collision that has just begun.
pub open spec fn enters(contact: Option<CollisionData>) -> bool {
    contact matches Some(c) && c.state == CollisionState::Enter
}

/// An enemy that starts touching the player deals its damage and knocks the player back;
/// returns the knockback factors then, `None` when nothing happens.
pub fn enemy_contact(
    player: &mut Player,
    contact: Option<CollisionData>,
    enemy_damage: u32,
    flipped: Flipped,
) -> (r: Option<(i8, i8)>)
    requires
        enters(contact) ==> take_damage_defined(old(player).health, enemy_damage),
    ensures
        enters(contact) ==> {
            &&& r is Some
            &&& r.unwrap().0 == spec_knockback_factors(contact.unwrap().side, flipped).0
            &&& r.unwrap().1 == spec_knockback_factors(contact.unwrap().side, flipped).1
            &&& *final(player) == (Player {
                health: health_after_damage(old(player).health, enemy_damage),
                ..*old(player)
            })
        },
        !enters(contact) ==> {
            &&& r is None
            &&& *final(player) == *old(player)
        },
{
    match contact {
        Some(CollisionData { side, state: CollisionState::Enter }) => {
            player.take_damage(enemy_damage);
            Some(knockback_factors(side, flipped))
        },
        _ => None,
    }
}

} // verus!
