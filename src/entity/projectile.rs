//! Projectiles: collidable objects with a damage value and a position.
use crate::entity::bullet::Bullet;
use crate::entity::effect::AnyEffect;
use crate::entity::{Collidable, Contact, Entity};
use crate::geometry::{Pos, Rect};
use crate::state::State;
use vstd::prelude::*;

verus! {

pub trait Projectile: Collidable {
    spec fn spec_dmg(&self) -> u32;

    spec fn spec_pos(&self) -> Pos;

    fn dmg(&self) -> (r: u32)
        ensures
            r == self.spec_dmg(),
    ;

    fn pos(&self) -> (r: &Pos)
        ensures
            *r == self.spec_pos(),
    ;
}

/// Every kind of projectile.
#[derive(Debug, Clone, Copy, PartialEq, Eq, Structural)]
pub enum AnyProjectile {
    Bullet(Bullet),
}

impl AnyProjectile {
    pub open spec fn valid(self) -> bool {
        match self {
            AnyProjectile::Bullet(b) => b.valid(),
        }
    }

    /// The velocity is within one cell per tick.
    pub open spec fn speed_ok(self) -> bool {
        match self {
            AnyProjectile::Bullet(b) => b.speed_ok(),
        }
    }
}

impl Entity for AnyProjectile {
    open spec fn spec_id(&self) -> Seq<char> {
        match self {
            AnyProjectile::Bullet(b) => b.spec_id(),
        }
    }

    open spec fn ready(&self, state: &State) -> bool {
        match self {
            AnyProjectile::Bullet(b) => b.ready(state),
        }
    }

    open spec fn advanced(&self, state: &State) -> AnyProjectile {
        match self {
            AnyProjectile::Bullet(b) => AnyProjectile::Bullet(b.advanced(state)),
        }
    }

    fn id(&self) -> (r: String) {
        match self {
            AnyProjectile::Bullet(b) => b.id(),
        }
    }

    fn update(&mut self, state: &State) {
        match self {
            AnyProjectile::Bullet(b) => b.update(state),
        }
    }
}

impl Projectile for AnyProjectile {
    open spec fn spec_dmg(&self) -> u32 {
        match self {
            AnyProjectile::Bullet(b) => b.spec_dmg(),
        }
    }

    open spec fn spec_pos(&self) -> Pos {
        match self {
            AnyProjectile::Bullet(b) => b.spec_pos(),
        }
    }

    fn dmg(&self) -> (r: u32) {
        match self {
            AnyProjectile::Bullet(b) => b.dmg(),
        }
    }

    fn pos(&self) -> (r: &Pos) {
        match self {
            AnyProjectile::Bullet(b) => b.pos(),
        }
    }
}

impl Collidable for AnyProjectile {
    open spec fn spec_hitbox(&self) -> Rect {
        match self {
            AnyProjectile::Bullet(b) => b.spec_hitbox(),
        }
    }

    open spec fn after_hit(&self, other: Contact) -> AnyProjectile {
        match self {
            AnyProjectile::Bullet(b) => AnyProjectile::Bullet(b.after_hit(other)),
        }
    }

    open spec fn hit_effect(&self, other: Contact) -> Option<AnyEffect> {
        match self {
            AnyProjectile::Bullet(b) => b.hit_effect(other),
        }
    }

    fn hitbox(&self) -> (r: Rect) {
        match self {
            AnyProjectile::Bullet(b) => b.hitbox(),
        }
    }

    fn on_hit(&mut self, other: &Contact, state: &State) -> (fx: Option<AnyEffect>) {
        match self {
            AnyProjectile::Bullet(b) => b.on_hit(other, state),
        }
    }
}

} // verus!
