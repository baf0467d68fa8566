//! Enemies: collidable objects with health and a damage value.
use crate::entity::effect::AnyEffect;
use crate::entity::goblo::Goblo;
use crate::entity::{Collidable, Contact, Entity};
use crate::geometry::Rect;
use crate::state::State;
use vstd::prelude::*;

verus! {

/// An enemy: alive while its health is above zero.
pub trait Enemy: Collidable {
    spec fn spec_alive(&self) -> bool;

    spec fn spec_dmg(&self) -> u32;

    fn is_alive(&self) -> (r: bool)
        ensures
            r == self.spec_alive(),
    ;

    fn dmg(&self) -> (r: u32)
        ensures
            r == self.spec_dmg(),
    ;
}

/// Every kind of enemy.
#[derive(Debug, Clone, Copy, PartialEq, Eq, Structural)]
pub enum AnyEnemy {
    Goblo(Goblo),
}

impl AnyEnemy {
    pub open spec fn valid(self) -> bool {
        match self {
            AnyEnemy::Goblo(g) => g.valid(),
        }
    }

    /// An update keeps a well-formed enemy well-formed.
    pub proof fn lemma_advanced_valid(self, state: &State)
        requires
            self.ready(state),
        ensures
            self.advanced(state).valid(),
    {
        match self {
            AnyEnemy::Goblo(g) => g.lemma_chase_in_bounds(state),
        }
    }
}

impl Entity for AnyEnemy {
    open spec fn spec_id(&self) -> Seq<char> {
        match self {
            AnyEnemy::Goblo(g) => g.spec_id(),
        }
    }

    open spec fn ready(&self, state: &State) -> bool {
        match self {
            AnyEnemy::Goblo(g) => g.ready(state),
        }
    }

    open spec fn advanced(&self, state: &State) -> AnyEnemy {
        match self {
            AnyEnemy::Goblo(g) => AnyEnemy::Goblo(g.advanced(state)),
        }
    }

    fn id(&self) -> (r: String) {
        match self {
            AnyEnemy::Goblo(g) => g.id(),
        }
    }

    fn update(&mut self, state: &State) {
        match self {
            AnyEnemy::Goblo(g) => g.update(state),
        }
    }
}

impl Enemy for AnyEnemy {
    open spec fn spec_alive(&self) -> bool {
        match self {
            AnyEnemy::Goblo(g) => g.spec_alive(),
        }
    }

    open spec fn spec_dmg(&self) -> u32 {
        match self {
            AnyEnemy::Goblo(g) => g.spec_dmg(),
        }
    }

    fn is_alive(&self) -> (r: bool) {
        match self {
            AnyEnemy::Goblo(g) => g.is_alive(),
        }
    }

    fn dmg(&self) -> (r: u32) {
        match self {
            AnyEnemy::Goblo(g) => g.dmg(),
        }
    }
}

impl Collidable for AnyEnemy {
    open spec fn spec_hitbox(&self) -> Rect {
        match self {
            AnyEnemy::Goblo(g) => g.spec_hitbox(),
        }
    }

    open spec fn after_hit(&self, other: Contact) -> AnyEnemy {
        match self {
            AnyEnemy::Goblo(g) => AnyEnemy::Goblo(g.after_hit(other)),
        }
    }

    open spec fn hit_effect(&self, other: Contact) -> Option<AnyEffect> {
        match self {
            AnyEnemy::Goblo(g) => g.hit_effect(other),
        }
    }

    fn hitbox(&self) -> (r: Rect) {
        match self {
            AnyEnemy::Goblo(g) => g.hitbox(),
        }
    }

    fn on_hit(&mut self, other: &Contact, state: &State) -> (fx: Option<AnyEffect>) {
        match self {
            AnyEnemy::Goblo(g) => g.on_hit(other, state),
        }
    }
}

} // verus!
