//! The capability model shared by every simulated object: a base entity that
//! is updated once per tick, and the collidable layer on top of it.
pub mod blink;
pub mod bullet;
pub mod effect;
pub mod enemy;
pub mod goblo;
pub mod hit;
pub mod player;
pub mod projectile;

use crate::entity::effect::AnyEffect;
use crate::geometry::Rect;
use crate::state::State;
use vstd::prelude::*;

verus! {

/// Health left after `dmg` points of damage: never below zero.
pub open spec fn damaged(hp: u32, dmg: u32) -> u32 {
    if hp > dmg {
        (hp - dmg) as u32
    } else {
        0
    }
}

/// Subtracts `dmg` from `hp`, stopping at zero.
pub fn apply_damage(hp: u32, dmg: u32) -> (r: u32)
    ensures
        r == damaged(hp, dmg),
{
    hp.saturating_sub(dmg)
}

/// Damage saturates: health at zero stays at zero, and damage never raises
/// health.
pub proof fn lemma_damage_saturates(hp: u32, dmg: u32)
    ensures
        damaged(0, dmg) == 0,
        damaged(hp, dmg) <= hp,
        damaged(hp, dmg) == 0 <==> hp <= dmg,
{
}

/// Every simulated object: a stable identifier and a per-tick update that
/// changes the object alone and reads the world.
pub trait Entity: Sized {
    /// The identifier, used for diagnostics.
    spec fn spec_id(&self) -> Seq<char>;

    /// What `update` needs of the object and of the world.
    spec fn ready(&self, state: &State) -> bool;

    /// The object after one update against `state`.
    spec fn advanced(&self, state: &State) -> Self;

    fn id(&self) -> (r: String)
        ensures
            r@ == self.spec_id(),
    ;

    fn update(&mut self, state: &State)
        requires
            old(self).ready(state),
        ensures
            *final(self) == old(self).advanced(state),
    ;
}

/// The other party of a collision: its kind, and the damage it deals.
#[derive(Debug, Clone, Copy, PartialEq, Eq, Structural)]
pub enum Contact {
    Enemy { dmg: u32 },
    Projectile { dmg: u32 },
}

impl Contact {
    /// The damage the other party deals.
    pub open spec fn spec_dmg(self) -> u32 {
        match self {
            Contact::Enemy { dmg } => dmg,
            Contact::Projectile { dmg } => dmg,
        }
    }

    pub fn dmg(&self) -> (r: u32)
        ensures
            r == self.spec_dmg(),
    {
        match self {
            Contact::Enemy { dmg } => *dmg,
            Contact::Projectile { dmg } => *dmg,
        }
    }
}

/// An object with a hitbox, told when its hitbox meets another one.
pub trait Collidable: Entity {
    spec fn spec_hitbox(&self) -> Rect;

    /// The object after reacting to a hit by `other`.
    spec fn after_hit(&self, other: Contact) -> Self;

    /// The effect a hit by `other` gives rise to, if any.
    spec fn hit_effect(&self, other: Contact) -> Option<AnyEffect>;

    fn hitbox(&self) -> (r: Rect)
        ensures
            r == self.spec_hitbox(),
    ;

    /// Reacts to a hit by `other`; returns the effect to spawn, if any.
    fn on_hit(&mut self, other: &Contact, state: &State) -> (fx: Option<AnyEffect>)
        ensures
            *final(self) == old(self).after_hit(*other),
            fx == old(self).hit_effect(*other),
    ;
}

} // verus!
