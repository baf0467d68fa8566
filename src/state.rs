//! The world: sole owner of the simulation state, and the per-tick schedule.
use crate::collide::{collide, fresh, lemma_collide_facts, resolve_collisions, untouched_or_spent};
use crate::entity::blink::BlinkEffect;
use crate::entity::bullet::{spent, Bullet, BULLET_SPEED};
use crate::entity::effect::{AnyEffect, Effect};
use crate::entity::enemy::{AnyEnemy, Enemy};
use crate::entity::goblo::{Goblo, GOBLO_HP};
use crate::entity::player::{Ability, Player, PLAYER_FOV, PLAYER_HP, PLAYER_SIZE};
use crate::entity::projectile::{AnyProjectile, Projectile};
use crate::entity::{Collidable, Entity};
use crate::event::{Event, GameEvent, PlayerEvent};
use crate::geometry::{clamp, clamped, lemma_along_bounds, within, Pos, Rect, ARENA, LIMIT, SUB};
use crate::map::Level;
use vstd::prelude::*;

verus! {

#[derive(Debug, Clone, Copy, PartialEq, Eq, Structural)]
pub enum GameMode {
    Play,
    Pause,
}

/// A canvas that lies, with its extent, inside the arena.
pub open spec fn canvas_ok(c: Rect) -> bool {
    &&& 0 <= c.w <= ARENA
    &&& 0 <= c.h <= ARENA
    &&& within(c.pos.0 as int, ARENA as int)
    &&& within(c.pos.1 as int, ARENA as int)
}

/// How far a blink carries the player along the aim: ten cells across, five
/// down.
pub const BLINK_REACH_X: i64 = 10_000;

pub const BLINK_REACH_Y: i64 = 5_000;

/// Whether the world can take `event`: an aim target lies within bounds.
pub open spec fn event_ok(event: Event) -> bool {
    match event {
        Event::Player(PlayerEvent::Aim(t)) => t.in_bounds(),
        _ => true,
    }
}

/// Whether the world can take `event`; see `event_ok`.
pub fn accepts_event(event: &Event) -> (r: bool)
    ensures
        r == event_ok(*event),
{
    match event {
        Event::Player(PlayerEvent::Aim(t)) => -LIMIT <= t.0 && t.0 <= LIMIT && -LIMIT <= t.1 && t.1
            <= LIMIT,
        _ => true,
    }
}

/// Where the first enemy of a new world stands: cell (10, 10).
pub open spec fn first_enemy() -> AnyEnemy {
    AnyEnemy::Goblo(Goblo { hp: GOBLO_HP, pos: Pos((10 * SUB) as i64, (10 * SUB) as i64) })
}

/// The enemies that the cleanup keeps: those alive.
pub open spec fn survivors(es: Seq<AnyEnemy>) -> Seq<AnyEnemy> {
    es.filter(|e: AnyEnemy| e.spec_alive())
}

/// The projectiles that the cleanup keeps: those whose position is inside
/// the canvas.
pub open spec fn on_canvas(ps: Seq<AnyProjectile>, canvas: Rect) -> Seq<AnyProjectile> {
    ps.filter(|p: AnyProjectile| canvas.holds(p.spec_pos()))
}

/// The effects that the cleanup keeps: those not done.
pub open spec fn unfinished(fx: Seq<AnyEffect>) -> Seq<AnyEffect> {
    fx.filter(|f: AnyEffect| !f.done())
}

#[derive(Debug)]
pub struct State {
    pub mode: GameMode,
    pub map: Level,
    pub canvas: Rect,
    pub player: Player,
    pub enemies: Vec<AnyEnemy>,
    pub projectiles: Vec<AnyProjectile>,
    pub effects: Vec<AnyEffect>,
    pub log: Option<String>,
}

impl State {
    /// Every object is well-formed and no live effect is done.
    pub open spec fn wf(&self) -> bool {
        &&& self.player.valid()
        &&& canvas_ok(self.canvas)
        &&& forall|i: int| 0 <= i < self.enemies@.len() ==> (#[trigger] self.enemies@[i]).valid()
        &&& forall|i: int|
            0 <= i < self.projectiles@.len() ==> (#[trigger] self.projectiles@[i]).valid()
        &&& forall|i: int|
            0 <= i < self.effects@.len() ==> (#[trigger] self.effects@[i]).valid()
                && !self.effects@[i].done()
    }

    /// The enemies after the update phase.
    pub open spec fn moved_enemies(&self) -> Seq<AnyEnemy> {
        self.enemies@.map_values(|e: AnyEnemy| e.advanced(self))
    }

    /// The projectiles after the update phase.
    pub open spec fn moved_projectiles(&self) -> Seq<AnyProjectile> {
        self.projectiles@.map_values(|p: AnyProjectile| p.advanced(self))
    }

    /// The effects present at the start of a tick, after the update phase.
    pub open spec fn aged_effects(&self) -> Seq<AnyEffect> {
        self.effects@.map_values(|f: AnyEffect| f.advanced(self))
    }

    /// Enemies, projectiles and spawned effects after the collision phase.
    pub open spec fn collided(&self) -> (Seq<AnyEnemy>, Seq<AnyProjectile>, Seq<AnyEffect>) {
        collide(self.moved_enemies(), self.moved_projectiles(), self.enemies@.len() as nat)
    }

    /// The effects spawned during the collision phase, after the
    /// effect-advance phase.
    pub open spec fn spawned_effects(&self) -> Seq<AnyEffect> {
        self.collided().2.map_values(|f: AnyEffect| f.advanced(self))
    }

    /// The enemies after a tick.
    pub open spec fn next_enemies(&self) -> Seq<AnyEnemy> {
        survivors(self.collided().0)
    }

    /// The projectiles after a tick.
    pub open spec fn next_projectiles(&self) -> Seq<AnyProjectile> {
        on_canvas(self.collided().1, self.canvas)
    }

    /// The effects after a tick.
    pub open spec fn next_effects(&self) -> Seq<AnyEffect> {
        unfinished(self.aged_effects() + self.spawned_effects())
    }

    /// The player's hitbox center.
    pub open spec fn center(&self) -> Pos {
        self.player.spec_hitbox().mid()
    }

    /// Where a blink takes the player before clamping.
    pub open spec fn blink_target(&self) -> Pos {
        self.center().plus(self.player.aim.along(BLINK_REACH_X as int, BLINK_REACH_Y as int))
    }

    /// The player after `event`. A move is clamped so that the hitbox stays
    /// on the canvas; a blink lands on the canvas.
    pub open spec fn player_after(&self, event: Event) -> Player {
        let p = self.player;
        match event {
            Event::Player(PlayerEvent::Move(dx, dy)) => Player {
                pos: Pos(
                    clamped(p.pos.0 + dx, 0, self.canvas.w - PLAYER_SIZE) as i64,
                    clamped(p.pos.1 + dy, 0, self.canvas.h - PLAYER_SIZE) as i64,
                ),
                ..p
            },
            Event::Player(PlayerEvent::Aim(t)) => Player { aim: t.minus(p.pos), ..p },
            Event::Player(PlayerEvent::Ability(Ability::Blink)) => Player {
                pos: Pos(
                    clamped(self.blink_target().0 as int, 0, self.canvas.w as int) as i64,
                    clamped(self.blink_target().1 as int, 0, self.canvas.h as int) as i64,
                ),
                ..p
            },
            _ => p,
        }
    }

    /// The projectiles after `event`: a shot adds a bullet at the player's
    /// center, heading along the aim.
    pub open spec fn projectiles_after(&self, event: Event) -> Seq<AnyProjectile> {
        match event {
            Event::Player(PlayerEvent::Shoot) => self.projectiles@.push(
                AnyProjectile::Bullet(
                    Bullet {
                        pos: self.center(),
                        vel: self.player.aim.along(BULLET_SPEED as int, BULLET_SPEED as int),
                    },
                ),
            ),
            _ => self.projectiles@,
        }
    }

    /// The effects after `event`: a blink leaves its trail.
    pub open spec fn effects_after(&self, event: Event) -> Seq<AnyEffect> {
        match event {
            Event::Player(PlayerEvent::Ability(Ability::Blink)) => self.effects@.push(
                AnyEffect::Blink(BlinkEffect { from: self.center(), to: self.blink_target(), frame: 0 }),
            ),
            _ => self.effects@,
        }
    }

    /// The canvas after `event`: a resize puts a canvas of the new size, in
    /// cells, at the origin.
    pub open spec fn canvas_after(&self, event: Event) -> Rect {
        match event {
            Event::Game(GameEvent::Resize(w, h)) => Rect {
                pos: Pos(0, 0),
                w: (w * SUB) as i64,
                h: (h * SUB) as i64,
            },
            _ => self.canvas,
        }
    }

    pub open spec fn mode_after(&self, event: Event) -> GameMode {
        match event {
            Event::Game(GameEvent::Pause) => GameMode::Pause,
            Event::Game(GameEvent::Play) => GameMode::Play,
            _ => self.mode,
        }
    }

    /// Applies one intent. Returns false for a quit, which changes nothing.
    pub fn apply_event(&mut self, event: Event) -> (running: bool)
        requires
            old(self).wf(),
            event_ok(event),
        ensures
            final(self).wf(),
            running == (event != Event::Game(GameEvent::Quit)),
            final(self).player == old(self).player_after(event),
            final(self).projectiles@ == old(self).projectiles_after(event),
            final(self).effects@ == old(self).effects_after(event),
            final(self).canvas == old(self).canvas_after(event),
            final(self).mode == old(self).mode_after(event),
            final(self).enemies == old(self).enemies,
            final(self).map == old(self).map,
            final(self).log == old(self).log,
    {
        match event {
            Event::Player(PlayerEvent::Move(dx, dy)) => {
                let x = clamp(
                    self.player.pos.0 as i128 + dx as i128,
                    0,
                    self.canvas.w - PLAYER_SIZE,
                );
                let y = clamp(
                    self.player.pos.1 as i128 + dy as i128,
                    0,
                    self.canvas.h - PLAYER_SIZE,
                );
                self.player.pos = Pos(x, y);
                true
            },
            Event::Player(PlayerEvent::Aim(t)) => {
                self.player.aim = t.offset_from(&self.player.pos);
                true
            },
            Event::Player(PlayerEvent::Shoot) => {
                let c = self.player.center();
                let bullet = Bullet::new(c, self.player.aim);
                self.spawn_projectile(AnyProjectile::Bullet(bullet));
                true
            },
            Event::Player(PlayerEvent::Ability(Ability::Blink)) => {
                let c = self.player.center();
                let reach = self.player.aim.step_along(BLINK_REACH_X, BLINK_REACH_Y);
                proof {
                    lemma_along_bounds(self.player.aim, BLINK_REACH_X as int, BLINK_REACH_Y as int);
                }
                let dest = c.transpose(reach);
                self.spawn_effect(AnyEffect::Blink(BlinkEffect::new(c, dest)));
                let x = clamp(dest.0 as i128, 0, self.canvas.w);
                let y = clamp(dest.1 as i128, 0, self.canvas.h);
                self.player.pos = Pos(x, y);
                true
            },
            Event::Game(GameEvent::Pause) => {
                self.pause();
                true
            },
            Event::Game(GameEvent::Play) => {
                self.play();
                true
            },
            Event::Game(GameEvent::Resize(w, h)) => {
                self.canvas = Rect::new(&Pos(0, 0), w as i64 * SUB, h as i64 * SUB);
                true
            },
            Event::Game(GameEvent::Quit) => false,
        }
    }

    /// A world on `canvas` with the level `map`: the player at the level's
    /// start, one goblo, nothing else.
    pub fn new(canvas: Rect, map: Level) -> (r: State)
        requires
            canvas_ok(canvas),
            within(map.start_pos.0 as int, ARENA as int),
            within(map.start_pos.1 as int, ARENA as int),
        ensures
            r.wf(),
            r.mode == GameMode::Play,
            r.canvas == canvas,
            r.player == (Player { pos: map.start_pos, aim: Pos(SUB, 0), fov: PLAYER_FOV, hp: PLAYER_HP }),
            r.enemies@ == seq![first_enemy()],
            r.projectiles@.len() == 0,
            r.effects@.len() == 0,
            r.log is None,
            r.map == map,
    {
        let player = Player::new(map.start_pos);
        let mut enemies: Vec<AnyEnemy> = Vec::new();
        enemies.push(AnyEnemy::Goblo(Goblo::new(Pos(10 * SUB, 10 * SUB))));
        State {
            mode: GameMode::Play,
            map,
            canvas,
            player,
            enemies,
            projectiles: Vec::new(),
            effects: Vec::new(),
            log: None,
        }
    }

    pub fn play(&mut self)
        ensures
            final(self).mode == GameMode::Play,
            final(self).map == old(self).map,
            final(self).canvas == old(self).canvas,
            final(self).player == old(self).player,
            final(self).enemies == old(self).enemies,
            final(self).projectiles == old(self).projectiles,
            final(self).effects == old(self).effects,
            final(self).log == old(self).log,
    {
        self.mode = GameMode::Play;
    }

    pub fn pause(&mut self)
        ensures
            final(self).mode == GameMode::Pause,
            final(self).map == old(self).map,
            final(self).canvas == old(self).canvas,
            final(self).player == old(self).player,
            final(self).enemies == old(self).enemies,
            final(self).projectiles == old(self).projectiles,
            final(self).effects == old(self).effects,
            final(self).log == old(self).log,
    {
        self.mode = GameMode::Pause;
    }

    /// Records `msg` as the last status message.
    pub fn log(&mut self, msg: String)
        ensures
            final(self).log == Some(msg),
            final(self).mode == old(self).mode,
            final(self).map == old(self).map,
            final(self).canvas == old(self).canvas,
            final(self).player == old(self).player,
            final(self).enemies == old(self).enemies,
            final(self).projectiles == old(self).projectiles,
            final(self).effects == old(self).effects,
    {
        self.log = Some(msg);
    }

    pub fn spawn_enemy(&mut self, enemy: AnyEnemy)
        requires
            old(self).wf(),
            enemy.valid(),
        ensures
            final(self).wf(),
            final(self).enemies@ == old(self).enemies@.push(enemy),
            final(self).mode == old(self).mode,
            final(self).map == old(self).map,
            final(self).canvas == old(self).canvas,
            final(self).player == old(self).player,
            final(self).projectiles == old(self).projectiles,
            final(self).effects == old(self).effects,
            final(self).log == old(self).log,
    {
        self.enemies.push(enemy);
    }

    pub fn spawn_projectile(&mut self, projectile: AnyProjectile)
        requires
            old(self).wf(),
            projectile.valid(),
        ensures
            final(self).wf(),
            final(self).projectiles@ == old(self).projectiles@.push(projectile),
            final(self).mode == old(self).mode,
            final(self).map == old(self).map,
            final(self).canvas == old(self).canvas,
            final(self).player == old(self).player,
            final(self).enemies == old(self).enemies,
            final(self).effects == old(self).effects,
            final(self).log == old(self).log,
    {
        self.projectiles.push(projectile);
    }

    /// Runs one tick, in four phases:
    /// 1. update: the player, then every enemy, every projectile and every
    ///    effect, each in collection order;
    /// 2. collision: every enemy against every projectile (see `collide`);
    ///    testing and reaction interleave pair by pair, so a bullet that hit
    ///    one enemy is tested against the next ones at its spent position;
    /// 3. effect advance: the effects spawned in phase 2 are updated once, so
    ///    that every effect ages by exactly one each tick it lives through;
    /// 4. cleanup: enemies that are not alive, projectiles outside the
    ///    canvas and effects that are done are removed.
    pub fn frame(&mut self)
        requires
            old(self).wf(),
        ensures
            final(self).wf(),
            final(self).enemies@ == old(self).next_enemies(),
            final(self).projectiles@ == old(self).next_projectiles(),
            final(self).effects@ == old(self).next_effects(),
            final(self).player == old(self).player,
            final(self).canvas == old(self).canvas,
            final(self).mode == old(self).mode,
            final(self).map == old(self).map,
            final(self).log == old(self).log,
    {
        let mut player = self.player;
        player.update(self);
        self.player = player;
        let mut enemies: Vec<AnyEnemy> = Vec::new();
        std::mem::swap(&mut enemies, &mut self.enemies);
        let mut projectiles: Vec<AnyProjectile> = Vec::new();
        std::mem::swap(&mut projectiles, &mut self.projectiles);
        let mut effects: Vec<AnyEffect> = Vec::new();
        std::mem::swap(&mut effects, &mut self.effects);
        advance_enemies(&mut enemies, self);
        advance_projectiles(&mut projectiles, self);
        advance_effects(&mut effects, self);
        proof {
            let s0 = *old(self);
            assert(enemies@ =~= s0.moved_enemies());
            assert(projectiles@ =~= s0.moved_projectiles());
            assert(effects@ =~= s0.aged_effects());
        }
        let mut spawned = resolve_collisions(&mut enemies, &mut projectiles, self);
        proof {
            let s0 = *old(self);
            lemma_collide_facts(s0.moved_enemies(), s0.moved_projectiles(), s0.enemies@.len() as nat);
        }
        advance_effects(&mut spawned, self);
        proof {
            assert(spawned@ =~= old(self).spawned_effects());
        }
        effects.append(&mut spawned);
        self.enemies = keep_alive(&enemies);
        self.projectiles = keep_inside(&projectiles, &self.canvas);
        self.effects = keep_unfinished(&effects);
        proof {
            let s0 = *old(self);
            lemma_next_valid(s0);
            assert(self.enemies@ == s0.next_enemies());
            assert(self.projectiles@ == s0.next_projectiles());
            assert(self.effects@ == s0.next_effects());
            assert(self.player == s0.player);
        }
    }

    pub fn spawn_effect(&mut self, effect: AnyEffect)
        requires
            old(self).wf(),
            effect.valid(),
            !effect.done(),
        ensures
            final(self).wf(),
            final(self).effects@ == old(self).effects@.push(effect),
            final(self).mode == old(self).mode,
            final(self).map == old(self).map,
            final(self).canvas == old(self).canvas,
            final(self).player == old(self).player,
            final(self).enemies == old(self).enemies,
            final(self).projectiles == old(self).projectiles,
            final(self).log == old(self).log,
    {
        self.effects.push(effect);
    }
}

/// After a tick every enemy left is alive: an enemy whose health was driven
/// to zero in the collision phase is gone.
pub proof fn lemma_defeated_enemies_removed(s: State)
    requires
        s.wf(),
    ensures
        forall|i: int|
            0 <= i < s.next_enemies().len() ==> (#[trigger] s.next_enemies()[i]).spec_alive(),
        forall|k: int|
            0 <= k < s.collided().0.len() && !(#[trigger] s.collided().0[k]).spec_alive()
                ==> !s.next_enemies().contains(s.collided().0[k]),
{
    broadcast use vstd::seq_lib::group_filter_ensures;

}

/// A projectile whose position after the update phase lies outside the
/// canvas is gone after the tick, whether or not it hit an enemy: untouched
/// it keeps that position, and a hit sends it to the spent position, which
/// this law takes to lie outside the canvas too.
pub proof fn lemma_stray_projectiles_removed(s: State)
    requires
        s.wf(),
        !s.canvas.holds(spent()),
    ensures
        forall|i: int|
            0 <= i < s.next_projectiles().len() ==> s.canvas.holds(
                (#[trigger] s.next_projectiles()[i]).spec_pos(),
            ),
        forall|k: int|
            0 <= k < s.moved_projectiles().len() && !s.canvas.holds(
                (#[trigger] s.moved_projectiles()[k]).spec_pos(),
            ) ==> !s.next_projectiles().contains(s.collided().1[k]),
{
    broadcast use vstd::seq_lib::group_filter_ensures;

    let es = s.moved_enemies();
    let ps = s.moved_projectiles();
    assert forall|k: int| 0 <= k < es.len() implies (#[trigger] es[k]).valid() by {
        s.enemies@[k].lemma_advanced_valid(&s);
    }
    lemma_collide_facts(es, ps, s.enemies@.len() as nat);
    let c = s.collided();
    assert forall|k: int|
        0 <= k < ps.len() && !s.canvas.holds(
            (#[trigger] ps[k]).spec_pos(),
        ) implies !s.next_projectiles().contains(c.1[k]) by {
        assert(untouched_or_spent(ps[k], c.1[k]));
        if s.next_projectiles().contains(c.1[k]) {
            let i = choose|i: int|
                0 <= i < s.next_projectiles().len() && s.next_projectiles()[i] == c.1[k];
            assert(s.canvas.holds(s.next_projectiles()[i].spec_pos()));
        }
    }
}

/// Every effect ages by one each tick, and is removed in the very tick in
/// which its counter reaches its duration: after a tick no effect is done,
/// and an effect present before it is kept exactly when it is not done.
pub proof fn lemma_finished_effects_removed(s: State)
    requires
        s.wf(),
    ensures
        forall|i: int|
            0 <= i < s.next_effects().len() ==> !(#[trigger] s.next_effects()[i]).done(),
        forall|k: int|
            0 <= k < s.effects@.len() ==> (#[trigger] s.aged_effects()[k]).frames()
                == s.effects@[k].frames() + 1,
        forall|k: int|
            0 <= k < s.effects@.len() ==> (s.next_effects().contains(
                #[trigger] s.aged_effects()[k],
            ) <==> !s.aged_effects()[k].done()),
{
    broadcast use vstd::seq_lib::group_filter_ensures;

    let all = s.aged_effects() + s.spawned_effects();
    assert forall|k: int| 0 <= k < s.effects@.len() implies (#[trigger] s.aged_effects()[k]).frames()
        == s.effects@[k].frames() + 1 && (s.next_effects().contains(s.aged_effects()[k])
        <==> !s.aged_effects()[k].done()) by {
        s.effects@[k].lemma_ages(&s);
        assert(all[k] == s.aged_effects()[k]);
        if s.next_effects().contains(s.aged_effects()[k]) {
            let i = choose|i: int|
                0 <= i < s.next_effects().len() && s.next_effects()[i] == s.aged_effects()[k];
            assert(!s.next_effects()[i].done());
        }
    }
}

/// Every object is well-formed after a tick.
pub proof fn lemma_next_valid(s: State)
    requires
        s.wf(),
    ensures
        forall|i: int|
            0 <= i < s.next_enemies().len() ==> (#[trigger] s.next_enemies()[i]).valid(),
        forall|i: int|
            0 <= i < s.next_projectiles().len() ==> (#[trigger] s.next_projectiles()[i]).valid(),
        forall|i: int|
            0 <= i < s.next_effects().len() ==> (#[trigger] s.next_effects()[i]).valid()
                && !s.next_effects()[i].done(),
{
    broadcast use vstd::seq_lib::group_filter_ensures;

    let es = s.moved_enemies();
    let ps = s.moved_projectiles();
    assert forall|k: int| 0 <= k < es.len() implies (#[trigger] es[k]).valid() by {
        s.enemies@[k].lemma_advanced_valid(&s);
    }
    lemma_collide_facts(es, ps, s.enemies@.len() as nat);
    let c = s.collided();
    assert forall|i: int| 0 <= i < s.next_enemies().len() implies (
    #[trigger] s.next_enemies()[i]).valid() by {
        c.0.lemma_filter_contains_rev(|e: AnyEnemy| e.spec_alive(), s.next_enemies()[i]);
    }
    assert forall|i: int| 0 <= i < s.next_projectiles().len() implies (
    #[trigger] s.next_projectiles()[i]).valid() by {
        let p = s.next_projectiles()[i];
        c.1.lemma_filter_contains_rev(|p: AnyProjectile| s.canvas.holds(p.spec_pos()), p);
        let k = choose|k: int| 0 <= k < c.1.len() && c.1[k] == p;
        assert(untouched_or_spent(ps[k], c.1[k]));
    }
    let all = s.aged_effects() + s.spawned_effects();
    assert forall|k: int| 0 <= k < all.len() && !(#[trigger] all[k]).done() implies all[k].valid() by {
        if k < s.effects@.len() {
            s.effects@[k].lemma_ages(&s);
        } else {
            let j = k - s.effects@.len();
            assert(fresh(c.2[j]));
            c.2[j].lemma_ages(&s);
        }
    }
    assert forall|i: int| 0 <= i < s.next_effects().len() implies (
    #[trigger] s.next_effects()[i]).valid() && !s.next_effects()[i].done() by {
        let f = s.next_effects()[i];
        all.lemma_filter_contains_rev(|f: AnyEffect| !f.done(), f);
    }
}

fn advance_enemies(es: &mut Vec<AnyEnemy>, state: &State)
    requires
        state.player.valid(),
        forall|k: int| 0 <= k < old(es)@.len() ==> (#[trigger] old(es)@[k]).valid(),
    ensures
        final(es)@.len() == old(es)@.len(),
        forall|k: int|
            0 <= k < old(es)@.len() ==> #[trigger] final(es)@[k] == old(es)@[k].advanced(state),
        forall|k: int| 0 <= k < old(es)@.len() ==> (#[trigger] final(es)@[k]).valid(),
{
    let ghost es0 = es@;
    let n = es.len();
    let mut i: usize = 0;
    while i < n
        invariant
            0 <= i <= n,
            n == es0.len(),
            es@.len() == n,
            state.player.valid(),
            forall|k: int| 0 <= k < n ==> (#[trigger] es0[k]).valid(),
            forall|k: int| 0 <= k < i ==> #[trigger] es@[k] == es0[k].advanced(state),
            forall|k: int| 0 <= k < i ==> (#[trigger] es@[k]).valid(),
            forall|k: int| i <= k < n ==> #[trigger] es@[k] == es0[k],
        decreases n - i,
    {
        let mut e = es[i];
        proof {
            e.lemma_advanced_valid(state);
        }
        e.update(state);
        es.set(i, e);
        i = i + 1;
    }
}

fn advance_projectiles(ps: &mut Vec<AnyProjectile>, state: &State)
    requires
        forall|k: int| 0 <= k < old(ps)@.len() ==> (#[trigger] old(ps)@[k]).valid(),
    ensures
        final(ps)@.len() == old(ps)@.len(),
        forall|k: int|
            0 <= k < old(ps)@.len() ==> #[trigger] final(ps)@[k] == old(ps)@[k].advanced(state),
        forall|k: int| 0 <= k < old(ps)@.len() ==> (#[trigger] final(ps)@[k]).speed_ok(),
{
    let ghost ps0 = ps@;
    let n = ps.len();
    let mut i: usize = 0;
    while i < n
        invariant
            0 <= i <= n,
            n == ps0.len(),
            ps@.len() == n,
            forall|k: int| 0 <= k < n ==> (#[trigger] ps0[k]).valid(),
            forall|k: int| 0 <= k < i ==> #[trigger] ps@[k] == ps0[k].advanced(state),
            forall|k: int| i <= k < n ==> #[trigger] ps@[k] == ps0[k],
        decreases n - i,
    {
        let mut p = ps[i];
        p.update(state);
        ps.set(i, p);
        i = i + 1;
    }
}

fn advance_effects(fx: &mut Vec<AnyEffect>, state: &State)
    requires
        forall|k: int| 0 <= k < old(fx)@.len() ==> (#[trigger] old(fx)@[k]).ready(state),
    ensures
        final(fx)@.len() == old(fx)@.len(),
        forall|k: int|
            0 <= k < old(fx)@.len() ==> #[trigger] final(fx)@[k] == old(fx)@[k].advanced(state),
{
    let ghost fx0 = fx@;
    let n = fx.len();
    let mut i: usize = 0;
    while i < n
        invariant
            0 <= i <= n,
            n == fx0.len(),
            fx@.len() == n,
            forall|k: int| 0 <= k < n ==> (#[trigger] fx0[k]).ready(state),
            forall|k: int| 0 <= k < i ==> #[trigger] fx@[k] == fx0[k].advanced(state),
            forall|k: int| i <= k < n ==> #[trigger] fx@[k] == fx0[k],
        decreases n - i,
    {
        let mut f = fx[i];
        f.update(state);
        fx.set(i, f);
        i = i + 1;
    }
}

fn keep_alive(es: &Vec<AnyEnemy>) -> (r: Vec<AnyEnemy>)
    ensures
        r@ == survivors(es@),
{
    let mut r: Vec<AnyEnemy> = Vec::new();
    let mut i: usize = 0;
    while i < es.len()
        invariant
            0 <= i <= es@.len(),
            r@ == survivors(es@.subrange(0, i as int)),
        decreases es@.len() - i,
    {
        let e = es[i];
        proof {
            let sub = es@.subrange(0, i + 1);
            assert(sub.drop_last() =~= es@.subrange(0, i as int));
            reveal(Seq::filter);
        }
        if e.is_alive() {
            r.push(e);
        }
        i = i + 1;
    }
    proof {
        assert(es@.subrange(0, es@.len() as int) =~= es@);
    }
    r
}

fn keep_inside(ps: &Vec<AnyProjectile>, canvas: &Rect) -> (r: Vec<AnyProjectile>)
    ensures
        r@ == on_canvas(ps@, *canvas),
{
    let mut r: Vec<AnyProjectile> = Vec::new();
    let mut i: usize = 0;
    while i < ps.len()
        invariant
            0 <= i <= ps@.len(),
            r@ == on_canvas(ps@.subrange(0, i as int), *canvas),
        decreases ps@.len() - i,
    {
        let p = ps[i];
        proof {
            let sub = ps@.subrange(0, i + 1);
            assert(sub.drop_last() =~= ps@.subrange(0, i as int));
            reveal(Seq::filter);
        }
        if canvas.contains(p.pos()) {
            r.push(p);
        }
        i = i + 1;
    }
    proof {
        assert(ps@.subrange(0, ps@.len() as int) =~= ps@);
    }
    r
}

fn keep_unfinished(fx: &Vec<AnyEffect>) -> (r: Vec<AnyEffect>)
    ensures
        r@ == unfinished(fx@),
{
    let mut r: Vec<AnyEffect> = Vec::new();
    let mut i: usize = 0;
    while i < fx.len()
        invariant
            0 <= i <= fx@.len(),
            r@ == unfinished(fx@.subrange(0, i as int)),
        decreases fx@.len() - i,
    {
        let f = fx[i];
        proof {
            let sub = fx@.subrange(0, i + 1);
            assert(sub.drop_last() =~= fx@.subrange(0, i as int));
            reveal(Seq::filter);
        }
        if !f.is_done() {
            r.push(f);
        }
        i = i + 1;
    }
    proof {
        assert(fx@.subrange(0, fx@.len() as int) =~= fx@);
    }
    r
}

} // verus!
