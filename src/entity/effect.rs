//! Effects: cosmetic objects driven by a frame counter, never collidable.
use crate::entity::blink::BlinkEffect;
use crate::entity::hit::HitEffect;
use crate::entity::Entity;
use crate::state::State;
use vstd::prelude::*;

verus! {

/// An effect: done once its counter reaches its duration.
pub trait Effect: Entity {
    /// Ticks lived so far.
    spec fn frames(&self) -> nat;

    /// Ticks to live.
    spec fn duration(&self) -> nat;

    fn is_done(&self) -> (r: bool)
        ensures
            r == (self.frames() >= self.duration()),
    ;

    /// An update adds one to the counter of an effect that is not done, and
    /// keeps it updatable until it is done.
    proof fn lemma_ages(&self, state: &State)
        requires
            self.ready(state),
        ensures
            self.frames() < self.duration(),
            self.advanced(state).frames() == self.frames() + 1,
            self.advanced(state).duration() == self.duration(),
            self.advanced(state).frames() < self.duration() ==> self.advanced(state).ready(state),
    ;
}

/// An effect after `k` updates against `state`.
pub open spec fn aged<E: Effect>(e: E, k: nat, state: State) -> E
    decreases k,
{
    if k == 0 {
        e
    } else {
        aged(e, (k - 1) as nat, state).advanced(&state)
    }
}

/// A fresh effect, updated once per tick, is done after exactly its duration
/// in ticks: not before, and at that tick.
pub proof fn lemma_done_after_duration<E: Effect>(e: E, state: State, k: nat)
    requires
        e.frames() == 0,
        e.ready(&state),
        k <= e.duration(),
    ensures
        aged(e, k, state).frames() == k,
        aged(e, k, state).duration() == e.duration(),
        aged(e, k, state).frames() >= aged(e, k, state).duration() <==> k == e.duration(),
        k < e.duration() ==> aged(e, k, state).ready(&state),
    decreases k,
{
    e.lemma_ages(&state);
    if k > 0 {
        lemma_done_after_duration(e, state, (k - 1) as nat);
        aged(e, (k - 1) as nat, state).lemma_ages(&state);
    }
}

/// Every kind of effect.
#[derive(Debug, Clone, Copy, PartialEq, Eq, Structural)]
pub enum AnyEffect {
    Hit(HitEffect),
    Blink(BlinkEffect),
}

impl AnyEffect {
    pub open spec fn valid(self) -> bool {
        match self {
            AnyEffect::Hit(e) => e.valid(),
            AnyEffect::Blink(e) => e.valid(),
        }
    }

    /// Whether the counter has reached the duration.
    pub open spec fn done(self) -> bool {
        self.frames() >= self.duration()
    }
}

impl Entity for AnyEffect {
    open spec fn spec_id(&self) -> Seq<char> {
        match self {
            AnyEffect::Hit(e) => e.spec_id(),
            AnyEffect::Blink(e) => e.spec_id(),
        }
    }

    open spec fn ready(&self, state: &State) -> bool {
        match self {
            AnyEffect::Hit(e) => e.ready(state),
            AnyEffect::Blink(e) => e.ready(state),
        }
    }

    open spec fn advanced(&self, state: &State) -> AnyEffect {
        match self {
            AnyEffect::Hit(e) => AnyEffect::Hit(e.advanced(state)),
            AnyEffect::Blink(e) => AnyEffect::Blink(e.advanced(state)),
        }
    }

    fn id(&self) -> (r: String) {
        match self {
            AnyEffect::Hit(e) => e.id(),
            AnyEffect::Blink(e) => e.id(),
        }
    }

    fn update(&mut self, state: &State) {
        match self {
            AnyEffect::Hit(e) => e.update(state),
            AnyEffect::Blink(e) => e.update(state),
        }
    }
}

impl Effect for AnyEffect {
    open spec fn frames(&self) -> nat {
        match self {
            AnyEffect::Hit(e) => e.frames(),
            AnyEffect::Blink(e) => e.frames(),
        }
    }

    open spec fn duration(&self) -> nat {
        match self {
            AnyEffect::Hit(e) => e.duration(),
            AnyEffect::Blink(e) => e.duration(),
        }
    }

    fn is_done(&self) -> (r: bool) {
        match self {
            AnyEffect::Hit(e) => e.is_done(),
            AnyEffect::Blink(e) => e.is_done(),
        }
    }

    proof fn lemma_ages(&self, state: &State) {
        match self {
            AnyEffect::Hit(e) => e.lemma_ages(state),
            AnyEffect::Blink(e) => e.lemma_ages(state),
        }
    }
}

} // verus!
