//! A melee pursuer that steers toward the player every tick.
use crate::entity::effect::AnyEffect;
use crate::entity::enemy::Enemy;
use crate::entity::hit::HitEffect;
use crate::entity::{apply_damage, damaged, Collidable, Contact, Entity};
use crate::geometry::{lemma_along_bounds, Pos, Rect};
use crate::state::State;
use vstd::prelude::*;

verus! {

pub const GOBLO_HP: u32 = 10;

pub const GOBLO_DMG: u32 = 1;

/// Width and height of the hitbox: two cells.
pub const GOBLO_SIZE: i64 = 2000;

/// Horizontal speed per tick: a fifth of a cell.
pub const GOBLO_SPEED_X: i64 = 200;

/// Vertical speed per tick: a tenth of a cell.
pub const GOBLO_SPEED_Y: i64 = 100;

#[derive(Debug, Clone, Copy, PartialEq, Eq, Structural)]
pub struct Goblo {
    pub hp: u32,
    pub pos: Pos,
}

impl Goblo {
    pub open spec fn valid(self) -> bool {
        self.pos.in_bounds()
    }

    /// The position after one step toward `target`.
    pub open spec fn chase(self, target: Pos) -> Pos {
        self.pos.plus(target.minus(self.pos).along(GOBLO_SPEED_X as int, GOBLO_SPEED_Y as int))
    }

    pub fn new(pos: Pos) -> (r: Goblo)
        ensures
            r == (Goblo { hp: GOBLO_HP, pos }),
    {
        Goblo { hp: GOBLO_HP, pos }
    }

    /// A step toward a target inside the arena keeps a goblo in bounds.
    pub proof fn lemma_chase_in_bounds(self, state: &State)
        requires
            self.ready(state),
        ensures
            self.advanced(state).valid(),
    {
        let t = state.player.spec_hitbox().mid();
        let d = t.minus(self.pos);
        lemma_along_bounds(d, GOBLO_SPEED_X as int, GOBLO_SPEED_Y as int);
    }
}

impl Entity for Goblo {
    open spec fn spec_id(&self) -> Seq<char> {
        "goblo"@
    }

    open spec fn ready(&self, state: &State) -> bool {
        self.valid() && state.player.valid()
    }

    open spec fn advanced(&self, state: &State) -> Goblo {
        Goblo { pos: self.chase(state.player.spec_hitbox().mid()), ..*self }
    }

    fn id(&self) -> (r: String) {
        "goblo".to_string()
    }

    fn update(&mut self, state: &State) {
        let target = state.player.center();
        let d = target.offset_from(&self.pos);
        let step = d.step_along(GOBLO_SPEED_X, GOBLO_SPEED_Y);
        proof {
            lemma_along_bounds(d, GOBLO_SPEED_X as int, GOBLO_SPEED_Y as int);
        }
        self.pos = self.pos.transpose(step);
    }
}

impl Enemy for Goblo {
    open spec fn spec_alive(&self) -> bool {
        self.hp > 0
    }

    open spec fn spec_dmg(&self) -> u32 {
        GOBLO_DMG
    }

    fn is_alive(&self) -> (r: bool) {
        self.hp > 0
    }

    fn dmg(&self) -> (r: u32) {
        GOBLO_DMG
    }
}

impl Collidable for Goblo {
    open spec fn spec_hitbox(&self) -> Rect {
        Rect { pos: self.pos, w: GOBLO_SIZE, h: GOBLO_SIZE }
    }

    /// Only projectiles hurt a goblo.
    open spec fn after_hit(&self, other: Contact) -> Goblo {
        match other {
            Contact::Projectile { dmg } => Goblo { hp: damaged(self.hp, dmg), ..*self },
            Contact::Enemy { .. } => *self,
        }
    }

    /// A projectile's hit shows its damage where the goblo stands.
    open spec fn hit_effect(&self, other: Contact) -> Option<AnyEffect> {
        match other {
            Contact::Projectile { dmg } => Some(
                AnyEffect::Hit(HitEffect { pos: self.pos, dmg, frame: 0 }),
            ),
            Contact::Enemy { .. } => None,
        }
    }

    fn hitbox(&self) -> (r: Rect) {
        Rect::new(&self.pos, GOBLO_SIZE, GOBLO_SIZE)
    }

    fn on_hit(&mut self, other: &Contact, state: &State) -> (fx: Option<AnyEffect>) {
        match other {
            Contact::Projectile { dmg } => {
                self.hp = apply_damage(self.hp, *dmg);
                Some(AnyEffect::Hit(HitEffect::new(&self.pos, *dmg)))
            },
            Contact::Enemy { .. } => None,
        }
    }
}

} // verus!
