//! The player: moved by intents, struck by enemies and projectiles.
use crate::entity::effect::AnyEffect;
use crate::entity::{apply_damage, damaged, Collidable, Contact, Entity};
use crate::geometry::{within, Pos, Rect, ARENA, SUB};
use crate::state::State;
use vstd::prelude::*;

verus! {

/// Width and height of the player's hitbox: three cells.
pub const PLAYER_SIZE: i64 = 3000;

pub const PLAYER_HP: u32 = 100;

pub const PLAYER_FOV: i32 = 75;

/// A special move the player can trigger.
#[derive(Debug, Clone, Copy, PartialEq, Eq, Structural)]
pub enum Ability {
    Blink,
}

/// The player. `aim` is a direction vector: where the player points.
#[derive(Debug, Clone, Copy, PartialEq, Eq, Structural)]
pub struct Player {
    pub pos: Pos,
    pub aim: Pos,
    pub fov: i32,
    pub hp: u32,
}

impl Player {
    /// Position inside the arena and a usable aim.
    pub open spec fn valid(self) -> bool {
        within(self.pos.0 as int, ARENA as int) && within(self.pos.1 as int, ARENA as int)
            && self.aim.is_direction()
    }

    /// A fresh player at `pos`, aiming along the positive x axis.
    pub fn new(pos: Pos) -> (r: Player)
        ensures
            r == (Player { pos, aim: Pos(SUB, 0), fov: PLAYER_FOV, hp: PLAYER_HP }),
    {
        Player { pos, aim: Pos(SUB, 0), fov: PLAYER_FOV, hp: PLAYER_HP }
    }

    pub fn health(&self) -> (r: u32)
        ensures
            r == self.hp,
    {
        self.hp
    }

    /// The center of the hitbox.
    pub fn center(&self) -> (r: Pos)
        requires
            self.valid(),
        ensures
            r == self.spec_hitbox().mid(),
            r == Pos((self.pos.0 + PLAYER_SIZE / 2) as i64, (self.pos.1 + PLAYER_SIZE / 2) as i64),
    {
        Rect::new(&self.pos, PLAYER_SIZE, PLAYER_SIZE).center()
    }
}

impl Entity for Player {
    open spec fn spec_id(&self) -> Seq<char> {
        "player"@
    }

    open spec fn ready(&self, state: &State) -> bool {
        true
    }

    open spec fn advanced(&self, state: &State) -> Player {
        *self
    }

    fn id(&self) -> (r: String) {
        "player".to_string()
    }

    fn update(&mut self, state: &State) {
    }
}

impl Collidable for Player {
    open spec fn spec_hitbox(&self) -> Rect {
        Rect { pos: self.pos, w: PLAYER_SIZE, h: PLAYER_SIZE }
    }

    open spec fn after_hit(&self, other: Contact) -> Player {
        Player { hp: damaged(self.hp, other.spec_dmg()), ..*self }
    }

    open spec fn hit_effect(&self, other: Contact) -> Option<AnyEffect> {
        None
    }

    fn hitbox(&self) -> (r: Rect) {
        Rect::new(&self.pos, PLAYER_SIZE, PLAYER_SIZE)
    }

    fn on_hit(&mut self, other: &Contact, state: &State) -> (fx: Option<AnyEffect>) {
        self.hp = apply_damage(self.hp, other.dmg());
        None
    }
}

} // verus!
