use vstd::prelude::*;

verus! {

/// A `u32` read as an `i32` (two's complement), as `x as i32` does.
pub open spec fn as_i32(x: u32) -> int {
    if x <= i32::MAX {
        x as int
    } else {
        x - 0x1_0000_0000
    }
}

/// The signed difference that `take_damage` tests: health and damage both read as `i32`.
pub open spec fn damage_margin(health: u32, damage: u32) -> int {
    as_i32(health) - as_i32(damage)
}

/// The inputs on which taking damage neither overflows the signed difference nor
/// underflows the health.
pub open spec fn take_damage_defined(health: u32, damage: u32) -> bool {
    &&& i32::MIN <= damage_margin(health, damage) <= i32::MAX
    &&& damage_margin(health, damage) >= 0 ==> damage <= health
}

/// The health left after taking `damage`: the difference when the signed margin is not
/// negative, else zero.
pub open spec fn health_after_damage(health: u32, damage: u32) -> u32 {
    if damage_margin(health, damage) >= 0 {
        (health - damage) as u32
    } else {
        0
    }
}

/// Reads a `u32` as an `i32`, widened to `i64`.
fn to_signed(x: u32) -> (r: i64)
    ensures
        r == as_i32(x),
{
    if x <= 0x7fff_ffff {
        x as i64
    } else {
        x as i64 - 0x1_0000_0000
    }
}

/// Health left after taking `damage` from `health`.
pub fn damaged_health(health: u32, damage: u32) -> (r: u32)
    requires
        take_damage_defined(health, damage),
    ensures
        r == health_after_damage(health, damage),
{
    let margin = to_signed(health) - to_signed(damage);
    if margin >= 0 {
        health - damage
    } else {
        0
    }
}

/// Where health and damage both fit in an `i32`, taking damage is defined and
/// saturates at zero.
pub proof fn lemma_take_damage_saturates(health: u32, damage: u32)
    requires
        health <= i32::MAX,
        damage <= i32::MAX,
    ensures
        take_damage_defined(health, damage),
        health_after_damage(health, damage) == (if damage <= health {
            health - damage
        } else {
            0
        }),
{
}

/// Taking damage never heals, and damage at least as large as the health (both within
/// `i32`) leaves no health.
pub proof fn lemma_damage_never_heals(health: u32, damage: u32)
    requires
        take_damage_defined(health, damage),
    ensures
        health_after_damage(health, damage) <= health,
        health <= i32::MAX && damage <= i32::MAX && health <= damage ==> health_after_damage(
            health,
            damage,
        ) == 0,
{
}

/// Something with health points that can be damaged.
pub trait Health {
    spec fn health_points(&self) -> u32;

    /// The current health points.
    fn health(&self) -> (h: u32)
        ensures
            h == self.health_points(),
    ;

    /// The health points, to change them.
    fn health_mut(&mut self) -> (h: &mut u32)
        ensures
            *h == old(self).health_points(),
            final(self).health_points() == *final(h),
    ;

    /// Takes `damage` off the health points.
    fn take_damage(&mut self, damage: u32)
        requires
            take_damage_defined(old(self).health_points(), damage),
        ensures
            final(self).health_points() == health_after_damage(old(self).health_points(), damage),
    ;
}

} // verus!
