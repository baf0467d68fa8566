//! A floating damage numeral that rises for a few ticks.
use crate::entity::effect::Effect;
use crate::entity::Entity;
use crate::geometry::{within, Pos, LIMIT};
use crate::state::State;
use vstd::prelude::*;

verus! {

/// Ticks a hit numeral stays on screen.
pub const HIT_FRAMES: u8 = 5;

/// Distance the numeral rises per tick: half a cell.
pub const HIT_RISE: i64 = 500;

#[derive(Debug, Clone, Copy, PartialEq, Eq, Structural)]
pub struct HitEffect {
    pub pos: Pos,
    pub dmg: u32,
    pub frame: u8,
}

impl HitEffect {
    /// A counter within the lifetime, and a position that has risen at most
    /// one step per tick from within bounds.
    pub open spec fn valid(self) -> bool {
        &&& self.frame <= HIT_FRAMES
        &&& within(self.pos.0 as int, LIMIT as int)
        &&& -LIMIT - HIT_RISE * self.frame <= self.pos.1 <= LIMIT
    }

    pub fn new(pos: &Pos, dmg: u32) -> (r: HitEffect)
        ensures
            r == (HitEffect { pos: *pos, dmg, frame: 0 }),
    {
        HitEffect { pos: *pos, dmg, frame: 0 }
    }
}

impl Entity for HitEffect {
    open spec fn spec_id(&self) -> Seq<char> {
        "effect:hit"@
    }

    open spec fn ready(&self, state: &State) -> bool {
        self.valid() && self.frame < HIT_FRAMES
    }

    open spec fn advanced(&self, state: &State) -> HitEffect {
        HitEffect {
            pos: Pos(self.pos.0, (self.pos.1 - HIT_RISE) as i64),
            frame: (self.frame + 1) as u8,
            ..*self
        }
    }

    fn id(&self) -> (r: String) {
        "effect:hit".to_string()
    }

    fn update(&mut self, state: &State) {
        self.frame = self.frame + 1;
        self.pos = Pos(self.pos.0, self.pos.1 - HIT_RISE);
    }
}

impl Effect for HitEffect {
    open spec fn frames(&self) -> nat {
        self.frame as nat
    }

    open spec fn duration(&self) -> nat {
        HIT_FRAMES as nat
    }

    fn is_done(&self) -> (r: bool) {
        self.frame >= HIT_FRAMES
    }

    proof fn lemma_ages(&self, state: &State) {
    }
}

} // verus!
