use std::time::Duration;

use vstd::prelude::*;

verus! {

/// Extra jumps in mid-air that the player has bought, and how many of them are used up.
#[derive(Clone, Copy, Debug, PartialEq, Eq, Structural)]
pub struct ExtraJumpData {
    pub extra_jumps: u32,
    pub used_extra_jumps: u32,
}

/// Dashes that the player has bought, how many are used up, and whether one is going on.
#[derive(Clone, Copy, Debug, PartialEq, Eq, Structural)]
pub struct DashData {
    pub dashes: u32,
    pub used_dashes: u32,
    pub is_dashing: bool,
}

/// Whether the player can jump off walls.
#[derive(Clone, Copy, Debug, PartialEq, Eq, Structural)]
pub struct WallJumpData {
    pub can_wall_jump: bool,
}

/// Whether an attack thrusts the player forward.
#[derive(Clone, Copy, Debug, PartialEq, Eq, Structural)]
pub struct ThrustData {
    pub can_thrust: bool,
}

/// Whether an attack also shoots a bullet, and the bullet's damage and lifetime.
#[derive(Clone, Copy, Debug)]
pub struct BulletShootData {
    pub can_shoot: bool,
    pub damage: u32,
    pub lifetime: Duration,
}

/// Whether the player's attacks knock enemies back.
#[derive(Clone, Copy, Debug, PartialEq, Eq, Structural)]
pub struct KnockbackData {
    pub has_knockback: bool,
}

/// Whether the player's attacks deflect enemy bullets, and the damage and lifetime
/// a deflected bullet gets.
#[derive(Clone, Copy, Debug)]
pub struct BulletDeflectData {
    pub can_deflect: bool,
    pub damage: u32,
    pub lifetime: Duration,
}

/// Everything the player has gained from items.
#[derive(Clone, Copy, Debug)]
pub struct ItemsData {
    pub extra_jump: ExtraJumpData,
    pub dash: DashData,
    pub wall_jump: WallJumpData,
    pub thrust: ThrustData,
    pub bullet_shoot: BulletShootData,
    pub knockback: KnockbackData,
    pub bullet_deflect: BulletDeflectData,
}

/// The length of a duration, in nanoseconds.
pub uninterp spec fn duration_nanos(d: Duration) -> nat;

/// The zero duration, through `std::time::Duration::default`, which std documents as
/// a duration of zero length.
#[verifier::external_body]
fn zero_duration() -> (d: Duration)
    ensures
        duration_nanos(d) == 0,
{
    Duration::default()
}

impl ItemsData {
    /// No item bought: no extra jump, no dash, no ability, zero damages and lifetimes.
    pub open spec fn is_empty(&self) -> bool {
        &&& self.extra_jump == ExtraJumpData { extra_jumps: 0, used_extra_jumps: 0 }
        &&& self.dash == DashData { dashes: 0, used_dashes: 0, is_dashing: false }
        &&& !self.wall_jump.can_wall_jump
        &&& !self.thrust.can_thrust
        &&& !self.bullet_shoot.can_shoot
        &&& self.bullet_shoot.damage == 0
        &&& !self.knockback.has_knockback
        &&& !self.bullet_deflect.can_deflect
        &&& self.bullet_deflect.damage == 0
        &&& duration_nanos(self.bullet_shoot.lifetime) == 0
        &&& duration_nanos(self.bullet_deflect.lifetime) == 0
    }
}

impl Default for ItemsData {
    /// The items data of a player who has bought nothing.
    fn default() -> (d: Self)
        ensures
            d.is_empty(),
    {
        ItemsData {
            extra_jump: ExtraJumpData { extra_jumps: 0, used_extra_jumps: 0 },
            dash: DashData { dashes: 0, used_dashes: 0, is_dashing: false },
            wall_jump: WallJumpData { can_wall_jump: false },
            thrust: ThrustData { can_thrust: false },
            bullet_shoot: BulletShootData { can_shoot: false, damage: 0, lifetime: zero_duration() },
            knockback: KnockbackData { has_knockback: false },
            bullet_deflect: BulletDeflectData {
                can_deflect: false,
                damage: 0,
                lifetime: zero_duration(),
            },
        }
    }
}

} // verus!
