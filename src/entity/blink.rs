//! The trail left by a blink: three marks from the start of the jump toward
//! its end, fading through a fixed sequence of glyphs.
use crate::entity::effect::Effect;
use crate::entity::Entity;
use crate::geometry::{lemma_along_bounds, Pos};
use crate::state::State;
use vstd::prelude::*;

verus! {

/// Ticks the trail lasts: the length of its glyph sequence.
pub const BLINK_FRAMES: u8 = 58;

/// Frames shown as `O`, then as `o`; the rest as `.`.
pub const BLINK_LARGE: u8 = 19;

pub const BLINK_SMALL: u8 = 45;

/// Marks in the trail, and the frames each lags behind the previous one.
pub const TRAIL_MARKS: u8 = 3;

pub const TRAIL_LAG: u8 = 5;

/// Spacing of the marks along the jump: two cells across, one down.
pub const TRAIL_STEP_X: i64 = 2000;

pub const TRAIL_STEP_Y: i64 = 1000;

/// The glyph of frame `f` of the sequence, `+` past its end.
pub open spec fn blink_glyph(f: int) -> char {
    if f < BLINK_LARGE {
        'O'
    } else if f < BLINK_SMALL {
        'o'
    } else if f < BLINK_FRAMES {
        '.'
    } else {
        '+'
    }
}

#[derive(Debug, Clone, Copy, PartialEq, Eq, Structural)]
pub struct BlinkEffect {
    pub from: Pos,
    pub to: Pos,
    pub frame: u8,
}

impl BlinkEffect {
    pub open spec fn valid(self) -> bool {
        self.frame <= BLINK_FRAMES && self.from.in_bounds() && self.to.in_bounds()
    }

    /// Frame shown by mark `i`: the counter less the mark's lag, at least 0.
    pub open spec fn mark_frame(self, i: int) -> int {
        if self.frame >= i * TRAIL_LAG {
            self.frame - i * TRAIL_LAG
        } else {
            0
        }
    }

    /// Where mark `i` stands.
    pub open spec fn mark_pos(self, i: int) -> Pos {
        let step = self.to.minus(self.from).along(TRAIL_STEP_X as int, TRAIL_STEP_Y as int);
        Pos((self.from.0 + i * step.0) as i64, (self.from.1 + i * step.1) as i64)
    }

    pub fn new(from: Pos, to: Pos) -> (r: BlinkEffect)
        ensures
            r == (BlinkEffect { from, to, frame: 0 }),
    {
        BlinkEffect { from, to, frame: 0 }
    }

    /// The glyph mark `i` shows now.
    pub fn glyph(&self, i: u8) -> (r: char)
        requires
            i < TRAIL_MARKS,
        ensures
            r == blink_glyph(self.mark_frame(i as int)),
    {
        let f = self.frame.saturating_sub(i * TRAIL_LAG);
        if f < BLINK_LARGE {
            'O'
        } else if f < BLINK_SMALL {
            'o'
        } else if f < BLINK_FRAMES {
            '.'
        } else {
            '+'
        }
    }

    /// Where mark `i` stands.
    pub fn mark(&self, i: u8) -> (r: Pos)
        requires
            self.valid(),
            i < TRAIL_MARKS,
        ensures
            r == self.mark_pos(i as int),
    {
        let d = self.to.offset_from(&self.from);
        let step = d.step_along(TRAIL_STEP_X, TRAIL_STEP_Y);
        proof {
            lemma_along_bounds(d, TRAIL_STEP_X as int, TRAIL_STEP_Y as int);
            assert(-2000 * 3 <= i * step.0 <= 2000 * 3) by (nonlinear_arith)
                requires
                    -2000 <= step.0 <= 2000,
                    0 <= i < 3,
            ;
            assert(-1000 * 3 <= i * step.1 <= 1000 * 3) by (nonlinear_arith)
                requires
                    -1000 <= step.1 <= 1000,
                    0 <= i < 3,
            ;
        }
        let k = i as i64;
        Pos(self.from.0 + k * step.0, self.from.1 + k * step.1)
    }
}

impl Entity for BlinkEffect {
    open spec fn spec_id(&self) -> Seq<char> {
        "effect:blink"@
    }

    open spec fn ready(&self, state: &State) -> bool {
        self.valid() && self.frame < BLINK_FRAMES
    }

    open spec fn advanced(&self, state: &State) -> BlinkEffect {
        BlinkEffect { frame: (self.frame + 1) as u8, ..*self }
    }

    fn id(&self) -> (r: String) {
        "effect:blink".to_string()
    }

    fn update(&mut self, state: &State) {
        self.frame = self.frame + 1;
    }
}

impl Effect for BlinkEffect {
    open spec fn frames(&self) -> nat {
        self.frame as nat
    }

    open spec fn duration(&self) -> nat {
        BLINK_FRAMES as nat
    }

    fn is_done(&self) -> (r: bool) {
        self.frame >= BLINK_FRAMES
    }

    proof fn lemma_ages(&self, state: &State) {
    }
}

} // verus!
