use std::time::Duration;
use std::time::Instant;

use vstd::prelude::*;

use crate::components::orientation::Facing;

verus! {

#[verifier::external_type_specification]
#[verifier::external_body]
pub struct ExInstant(std::time::Instant);

/// Reads the monotonic clock through `std::time::Instant::now`. The reading depends on
/// the moment of the call, so nothing is stated of it.
#[verifier::external_body]
pub(crate) fn now() -> Instant {
    Instant::now()
}

/// Who fired a bullet; a bullet only hurts the other party.
#[derive(Clone, Copy, Debug, PartialEq, Eq, Structural)]
pub enum BulletOwner {
    Player,
    Enemy,
}

/// A bullet in flight. `V` is the knockback vector it hands to whatever it hits.
pub struct Bullet<V> {
    pub owner: BulletOwner,
    pub damage: u32,
    pub created_at: Instant,
    pub lifetime: Duration,
    pub knockback: Option<V>,
    pub facing: Option<Facing>,
}

impl<V> Bullet<V> {
    /// Starts building a bullet: nothing is set yet.
    pub fn new() -> (b: BulletBuilder<V>)
        ensures
            b.owner_value() is None,
            b.damage_value() is None,
            b.lifetime_value() is None,
            b.knockback_value() is None,
            b.facing_value() is None,
    {
        BulletBuilder { owner: None, damage: None, lifetime: None, knockback: None, facing: None }
    }
}

/// Collects the parts of a `Bullet`; owner, damage and lifetime are mandatory.
pub struct BulletBuilder<V> {
    owner: Option<BulletOwner>,
    damage: Option<u32>,
    lifetime: Option<Duration>,
    knockback: Option<V>,
    facing: Option<Facing>,
}

impl<V> BulletBuilder<V> {
    pub closed spec fn owner_value(&self) -> Option<BulletOwner> {
        self.owner
    }

    pub closed spec fn damage_value(&self) -> Option<u32> {
        self.damage
    }

    pub closed spec fn lifetime_value(&self) -> Option<Duration> {
        self.lifetime
    }

    pub closed spec fn knockback_value(&self) -> Option<V> {
        self.knockback
    }

    pub closed spec fn facing_value(&self) -> Option<Facing> {
        self.facing
    }

    /// The builder holds every part that `build` needs.
    pub open spec fn is_complete(&self) -> bool {
        &&& self.owner_value() is Some
        &&& self.damage_value() is Some
        &&& self.lifetime_value() is Some
    }

    /// Sets the owner; the other parts are kept.
    pub fn owner(self, owner: BulletOwner) -> (b: Self)
        ensures
            b.owner_value() == Some(owner),
            b.damage_value() == self.damage_value(),
            b.lifetime_value() == self.lifetime_value(),
            b.knockback_value() == self.knockback_value(),
            b.facing_value() == self.facing_value(),
    {
        let mut b = self;
        b.owner = Some(owner);
        b
    }

    /// Sets the damage; the other parts are kept.
    pub fn damage(self, damage: u32) -> (b: Self)
        ensures
            b.owner_value() == self.owner_value(),
            b.damage_value() == Some(damage),
            b.lifetime_value() == self.lifetime_value(),
            b.knockback_value() == self.knockback_value(),
            b.facing_value() == self.facing_value(),
    {
        let mut b = self;
        b.damage = Some(damage);
        b
    }

    /// Sets the lifetime; the other parts are kept.
    pub fn lifetime(self, lifetime: Duration) -> (b: Self)
        ensures
            b.owner_value() == self.owner_value(),
            b.damage_value() == self.damage_value(),
            b.lifetime_value() == Some(lifetime),
            b.knockback_value() == self.knockback_value(),
            b.facing_value() == self.facing_value(),
    {
        let mut b = self;
        b.lifetime = Some(lifetime);
        b
    }

    /// Sets the knockback; the other parts are kept.
    pub fn knockback(self, knockback: V) -> (b: Self)
        ensures
            b.owner_value() == self.owner_value(),
            b.damage_value() == self.damage_value(),
            b.lifetime_value() == self.lifetime_value(),
            b.knockback_value() == Some(knockback),
            b.facing_value() == self.facing_value(),
    {
        let mut b = self;
        b.knockback = Some(knockback);
        b
    }

    /// Sets the facing; the other parts are kept.
    pub fn facing(self, facing: Facing) -> (b: Self)
        ensures
            b.owner_value() == self.owner_value(),
            b.damage_value() == self.damage_value(),
            b.lifetime_value() == self.lifetime_value(),
            b.knockback_value() == self.knockback_value(),
            b.facing_value() == Some(facing),
    {
        let mut b = self;
        b.facing = Some(facing);
        b
    }

    /// Builds the bullet, stamped with the current time. Owner, damage and lifetime
    /// must have been set.
    pub fn build(self) -> (bullet: Bullet<V>)
        requires
            self.is_complete(),
        ensures
            bullet.owner == self.owner_value().unwrap(),
            bullet.damage == self.damage_value().unwrap(),
            bullet.lifetime == self.lifetime_value().unwrap(),
            bullet.knockback == self.knockback_value(),
            bullet.facing == self.facing_value(),
    {
        let created_at = now();
        Bullet {
            owner: self.owner.unwrap(),
            damage: self.damage.unwrap(),
            created_at,
            lifetime: self.lifetime.unwrap(),
            knockback: self.knockback,
            facing: self.facing,
        }
    }
}

} // verus!
