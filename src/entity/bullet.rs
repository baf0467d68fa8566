//! A bullet: flies along a fixed heading at a fixed speed.
use crate::entity::effect::AnyEffect;
use crate::entity::projectile::Projectile;
use crate::entity::{Collidable, Contact, Entity};
use crate::geometry::{lemma_along_bounds, within, Pos, Rect, SUB};
use crate::state::State;
use vstd::prelude::*;

verus! {

/// Distance covered per tick: half a cell.
pub const BULLET_SPEED: i64 = 500;

pub const BULLET_DMG: u32 = 1;

/// Width and height of the hitbox: one cell.
pub const BULLET_SIZE: i64 = 1000;

/// Where a bullet that hit something goes: off the canvas, to be culled.
pub open spec fn spent() -> Pos {
    Pos((-SUB) as i64, (-SUB) as i64)
}

/// A bullet; `vel` is its movement per tick.
#[derive(Debug, Clone, Copy, PartialEq, Eq, Structural)]
pub struct Bullet {
    pub pos: Pos,
    pub vel: Pos,
}

impl Bullet {
    pub open spec fn speed_ok(self) -> bool {
        within(self.vel.0 as int, SUB as int) && within(self.vel.1 as int, SUB as int)
    }

    pub open spec fn valid(self) -> bool {
        self.pos.in_bounds() && self.speed_ok()
    }

    /// A bullet at `pos` heading along the direction `heading`.
    pub fn new(pos: Pos, heading: Pos) -> (r: Bullet)
        requires
            heading.is_direction(),
        ensures
            r == (Bullet { pos, vel: heading.along(BULLET_SPEED as int, BULLET_SPEED as int) }),
            pos.in_bounds() ==> r.valid(),
    {
        proof {
            lemma_along_bounds(heading, BULLET_SPEED as int, BULLET_SPEED as int);
        }
        Bullet { pos, vel: heading.step_along(BULLET_SPEED, BULLET_SPEED) }
    }

    pub fn velocity(&self) -> (r: Pos)
        ensures
            r == self.vel,
    {
        self.vel
    }
}

impl Entity for Bullet {
    open spec fn spec_id(&self) -> Seq<char> {
        "Bullet"@
    }

    open spec fn ready(&self, state: &State) -> bool {
        self.valid()
    }

    open spec fn advanced(&self, state: &State) -> Bullet {
        Bullet { pos: self.pos.plus(self.vel), ..*self }
    }

    fn id(&self) -> (r: String) {
        "Bullet".to_string()
    }

    fn update(&mut self, state: &State) {
        self.pos = self.pos.transpose(self.vel);
    }
}

impl Projectile for Bullet {
    open spec fn spec_dmg(&self) -> u32 {
        BULLET_DMG
    }

    open spec fn spec_pos(&self) -> Pos {
        self.pos
    }

    fn dmg(&self) -> (r: u32) {
        BULLET_DMG
    }

    fn pos(&self) -> (r: &Pos) {
        &self.pos
    }
}

impl Collidable for Bullet {
    open spec fn spec_hitbox(&self) -> Rect {
        Rect { pos: self.pos, w: BULLET_SIZE, h: BULLET_SIZE }
    }

    /// A bullet is used up by any hit: it leaves the canvas.
    open spec fn after_hit(&self, other: Contact) -> Bullet {
        Bullet { pos: spent(), ..*self }
    }

    open spec fn hit_effect(&self, other: Contact) -> Option<AnyEffect> {
        None
    }

    fn hitbox(&self) -> (r: Rect) {
        Rect::new(&self.pos, BULLET_SIZE, BULLET_SIZE)
    }

    fn on_hit(&mut self, other: &Contact, state: &State) -> (fx: Option<AnyEffect>) {
        self.pos = Pos(-SUB, -SUB);
        None
    }
}

} // verus!
