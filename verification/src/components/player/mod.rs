pub mod items_data;
pub mod health;

use vstd::prelude::*;

use crate::components::player::health::damaged_health;
use crate::components::player::health::health_after_damage;
use crate::components::player::health::take_damage_defined;
use crate::components::player::health::Health;
use crate::components::player::items_data::DashData;
use crate::components::player::items_data::ExtraJumpData;
use crate::components::player::items_data::ItemsData;

verus! {

/// What the player does to its horizontal velocity when turning around.
#[derive(Clone, Copy, Debug, PartialEq, Eq, Structural)]
pub enum QuickTurnaround {
    No,
    ResetVelocity,
    InvertVelocity,
}

/// The player's gameplay state: health, attack and control flags, and item effects.
#[derive(Clone, Debug)]
pub struct Player {
    pub quick_turnaround: QuickTurnaround,
    pub air_quick_turnaround: QuickTurnaround,
    pub decrease_x_velocity_in_air: bool,
    pub health: u32,
    pub max_health: u32,
    pub damage: u32,
    pub is_attacking: bool,
    pub in_control: bool,
    pub items_data: ItemsData,
}

/// The player's settings, as far as they concern its gameplay state.
#[derive(Clone, Copy, Debug, PartialEq, Eq, Structural)]
pub struct SettingsPlayer {
    pub quick_turnaround: QuickTurnaround,
    pub air_quick_turnaround: QuickTurnaround,
    pub decrease_x_velocity_in_air: bool,
    pub health: u32,
    pub max_health: u32,
    pub damage: u32,
}

/// `p` with its used extra jumps reset, and its used dashes reset unless it is dashing.
pub open spec fn jumps_reset(p: Player) -> Player {
    Player {
        items_data: ItemsData {
            extra_jump: ExtraJumpData { used_extra_jumps: 0, ..p.items_data.extra_jump },
            dash: DashData {
                used_dashes: if p.items_data.dash.is_dashing {
                    p.items_data.dash.used_dashes
                } else {
                    0
                },
                ..p.items_data.dash
            },
            ..p.items_data
        },
        ..p
    }
}

/// The health after adding `amount`: the sum, capped at the maximum health.
pub open spec fn health_after_heal(health: u32, max_health: u32, amount: u32) -> u32 {
    if max_health <= health + amount {
        max_health
    } else {
        (health + amount) as u32
    }
}

/// Healing never takes the health above the maximum, and never lowers a health that is
/// within the maximum.
pub proof fn lemma_heal_stays_within_max(health: u32, max_health: u32, amount: u32)
    requires
        health + amount <= u32::MAX,
    ensures
        health_after_heal(health, max_health, amount) <= max_health,
        health <= max_health ==> health <= health_after_heal(health, max_health, amount),
{
}

/// Resetting gives back every extra jump, gives back the dashes when no dash is going
/// on, and changes nothing when done twice.
pub proof fn lemma_reset_restores_extra_jumps(player: Player)
    ensures
        jumps_reset(player).has_extra_jump_spec() == (player.items_data.extra_jump.extra_jumps
            > 0),
        jumps_reset(jumps_reset(player)) == jumps_reset(player),
        !player.items_data.dash.is_dashing ==> jumps_reset(player).has_dash_spec() == (
        player.items_data.dash.dashes > 0),
{
}

impl Player {
    pub open spec fn has_extra_jump_spec(&self) -> bool {
        self.items_data.extra_jump.used_extra_jumps < self.items_data.extra_jump.extra_jumps
    }

    pub open spec fn has_dash_spec(&self) -> bool {
        self.items_data.dash.used_dashes < self.items_data.dash.dashes
    }

    /// A fresh player: health from the settings, no items, neither attacking nor
    /// in control.
    pub fn new(settings: SettingsPlayer) -> (p: Self)
        ensures
            p.quick_turnaround == settings.quick_turnaround,
            p.air_quick_turnaround == settings.air_quick_turnaround,
            p.decrease_x_velocity_in_air == settings.decrease_x_velocity_in_air,
            p.health == settings.health,
            p.max_health == settings.max_health,
            p.damage == settings.damage,
            !p.is_attacking,
            !p.in_control,
            p.items_data.is_empty(),
    {
        Player {
            quick_turnaround: settings.quick_turnaround,
            air_quick_turnaround: settings.air_quick_turnaround,
            decrease_x_velocity_in_air: settings.decrease_x_velocity_in_air,
            health: settings.health,
            max_health: settings.max_health,
            damage: settings.damage,
            is_attacking: false,
            in_control: false,
            items_data: ItemsData::default(),
        }
    }

    /// Deals the player's damage to `target`.
    pub fn deal_damage_to<H: Health>(&self, target: &mut H)
        requires
            take_damage_defined(old(target).health_points(), self.damage),
        ensures
            final(target).health_points() == health_after_damage(
                old(target).health_points(),
                self.damage,
            ),
    {
        target.take_damage(self.damage);
    }

    /// Takes `damage` off the player's health; the rest of the player is unchanged.
    pub fn take_damage(&mut self, damage: u32)
        requires
            take_damage_defined(old(self).health, damage),
        ensures
            *final(self) == (Player {
                health: health_after_damage(old(self).health, damage),
                ..*old(self)
            }),
    {
        self.health = damaged_health(self.health, damage);
    }

    /// Adds `health`, up to the player's maximum health.
    pub fn add_health(&mut self, health: u32)
        requires
            old(self).health + health <= u32::MAX,
        ensures
            *final(self) == (Player {
                health: health_after_heal(old(self).health, old(self).max_health, health),
                ..*old(self)
            }),
    {
        let sum = self.health + health;
        self.health = if self.max_health <= sum {
            self.max_health
        } else {
            sum
        };
    }

    /// The player has no health left.
    pub fn is_dead(&self) -> (r: bool)
        ensures
            r == (self.health == 0),
    {
        self.health == 0
    }

    /// The player has an extra jump left.
    pub fn has_extra_jump(&self) -> (r: bool)
        ensures
            r == self.has_extra_jump_spec(),
    {
        self.items_data.extra_jump.used_extra_jumps < self.items_data.extra_jump.extra_jumps
    }

    /// The player has a dash left.
    pub fn has_dash(&self) -> (r: bool)
        ensures
            r == self.has_dash_spec(),
    {
        self.items_data.dash.used_dashes < self.items_data.dash.dashes
    }

    /// Gives back the used extra jumps, and the used dashes unless a dash is going on.
    pub fn reset_jumps(&mut self)
        ensures
            *final(self) == jumps_reset(*old(self)),
    {
        if self.items_data.extra_jump.used_extra_jumps != 0 {
            self.items_data.extra_jump.used_extra_jumps = 0;
        }
        if self.items_data.dash.used_dashes != 0 && !self.items_data.dash.is_dashing {
            self.items_data.dash.used_dashes = 0;
        }
    }

    /// Resets jumps and dashes while sliding on a wall, if the player can wall-jump.
    pub fn reset_jumps_touching_vertically(&mut self)
        ensures
            *final(self) == if old(self).items_data.wall_jump.can_wall_jump {
                jumps_reset(*old(self))
            } else {
                *old(self)
            },
    {
        if self.items_data.wall_jump.can_wall_jump {
            self.reset_jumps();
        }
    }
}

impl Health for Player {
    open spec fn health_points(&self) -> u32 {
        self.health
    }

    fn health(&self) -> (h: u32) {
        self.health
    }

    fn health_mut(&mut self) -> (h: &mut u32)
        ensures
            *final(self) == (Player { health: *final(h), ..*old(self) }),
    {
        &mut self.health
    }

    fn take_damage(&mut self, damage: u32) {
        Player::take_damage(self, damage);
    }
}

} // verus!
