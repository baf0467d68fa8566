//! The collision phase: every enemy against every projectile, in collection
//! order, with testing and reaction interleaved pair by pair.
use crate::entity::bullet::spent;
use crate::entity::effect::{AnyEffect, Effect};
use crate::entity::enemy::{AnyEnemy, Enemy};
use crate::entity::projectile::{AnyProjectile, Projectile};
use crate::entity::{Collidable, Contact};
use crate::state::State;
use vstd::prelude::*;

verus! {

/// The effects an optional effect stands for: none or one.
pub open spec fn opt_seq(f: Option<AnyEffect>) -> Seq<AnyEffect> {
    match f {
        Some(x) => seq![x],
        None => Seq::empty(),
    }
}

/// A freshly spawned effect: well-formed, with its counter at zero.
pub open spec fn fresh(f: AnyEffect) -> bool {
    f.valid() && f.frames() == 0
}

/// Enemy `e` tested against `ps[0..j]` in order. Each overlapping pair tells
/// the enemy (of the projectile) and then the projectile (of the enemy as it
/// is after its reaction). Gives the enemy, the projectiles and the effects
/// spawned, in order.
pub open spec fn sweep(e: AnyEnemy, ps: Seq<AnyProjectile>, j: nat) -> (
    AnyEnemy,
    Seq<AnyProjectile>,
    Seq<AnyEffect>,
)
    decreases j,
{
    if j == 0 {
        (e, ps, Seq::empty())
    } else {
        let prev = sweep(e, ps, (j - 1) as nat);
        let e1 = prev.0;
        let p = prev.1[j - 1];
        if e1.spec_hitbox().overlaps(p.spec_hitbox()) {
            let c = Contact::Projectile { dmg: p.spec_dmg() };
            let e2 = e1.after_hit(c);
            let p2 = p.after_hit(Contact::Enemy { dmg: e2.spec_dmg() });
            (e2, prev.1.update(j - 1, p2), prev.2 + opt_seq(e1.hit_effect(c)))
        } else {
            prev
        }
    }
}

/// Enemies `es[0..i]`, in order, each swept against all projectiles as the
/// earlier enemies left them.
pub open spec fn collide(es: Seq<AnyEnemy>, ps: Seq<AnyProjectile>, i: nat) -> (
    Seq<AnyEnemy>,
    Seq<AnyProjectile>,
    Seq<AnyEffect>,
)
    decreases i,
{
    if i == 0 {
        (es, ps, Seq::empty())
    } else {
        let prev = collide(es, ps, (i - 1) as nat);
        let row = sweep(prev.0[i - 1], prev.1, prev.1.len());
        (prev.0.update(i - 1, row.0), row.1, prev.2 + row.2)
    }
}

/// A projectile after the collision phase is either untouched or spent.
pub open spec fn untouched_or_spent(before: AnyProjectile, after: AnyProjectile) -> bool {
    after == before || (after.spec_pos() == spent() && after.speed_ok() && before.speed_ok())
}

proof fn lemma_sweep_facts(e: AnyEnemy, ps: Seq<AnyProjectile>, j: nat)
    requires
        e.valid(),
        j <= ps.len(),
        forall|k: int| 0 <= k < ps.len() ==> (#[trigger] ps[k]).speed_ok(),
    ensures
        sweep(e, ps, j).0.valid(),
        sweep(e, ps, j).1.len() == ps.len(),
        forall|k: int| j <= k < ps.len() ==> #[trigger] sweep(e, ps, j).1[k] == ps[k],
        forall|k: int|
            0 <= k < ps.len() ==> untouched_or_spent(ps[k], #[trigger] sweep(e, ps, j).1[k]),
        forall|k: int|
            0 <= k < sweep(e, ps, j).2.len() ==> fresh(#[trigger] sweep(e, ps, j).2[k]),
    decreases j,
{
    if j > 0 {
        lemma_sweep_facts(e, ps, (j - 1) as nat);
        let prev = sweep(e, ps, (j - 1) as nat);
        let cur = sweep(e, ps, j);
        assert forall|k: int| 0 <= k < ps.len() implies untouched_or_spent(
            ps[k],
            #[trigger] cur.1[k],
        ) by {
            if k == j - 1 {
                assert(untouched_or_spent(ps[k], prev.1[k]));
            }
        }
        assert forall|k: int| 0 <= k < cur.2.len() implies fresh(#[trigger] cur.2[k]) by {
            if k >= prev.2.len() {
                assert(cur.2[k] == opt_seq(
                    prev.0.hit_effect(Contact::Projectile { dmg: prev.1[j - 1].spec_dmg() }),
                )[k - prev.2.len()]);
            } else {
                assert(cur.2[k] == prev.2[k]);
            }
        }
    }
}

/// What the collision phase keeps: well-formed enemies, projectiles that are
/// untouched or spent, and fresh effects.
pub proof fn lemma_collide_facts(es: Seq<AnyEnemy>, ps: Seq<AnyProjectile>, i: nat)
    requires
        i <= es.len(),
        forall|k: int| 0 <= k < es.len() ==> (#[trigger] es[k]).valid(),
        forall|k: int| 0 <= k < ps.len() ==> (#[trigger] ps[k]).speed_ok(),
    ensures
        collide(es, ps, i).0.len() == es.len(),
        collide(es, ps, i).1.len() == ps.len(),
        forall|k: int| i <= k < es.len() ==> #[trigger] collide(es, ps, i).0[k] == es[k],
        forall|k: int| 0 <= k < es.len() ==> (#[trigger] collide(es, ps, i).0[k]).valid(),
        forall|k: int|
            0 <= k < ps.len() ==> untouched_or_spent(ps[k], #[trigger] collide(es, ps, i).1[k]),
        forall|k: int|
            0 <= k < collide(es, ps, i).2.len() ==> fresh(#[trigger] collide(es, ps, i).2[k]),
    decreases i,
{
    if i > 0 {
        lemma_collide_facts(es, ps, (i - 1) as nat);
        let prev = collide(es, ps, (i - 1) as nat);
        assert forall|k: int| 0 <= k < prev.1.len() implies (#[trigger] prev.1[k]).speed_ok() by {
            assert(untouched_or_spent(ps[k], prev.1[k]));
        }
        lemma_sweep_facts(prev.0[i - 1], prev.1, prev.1.len());
        let row = sweep(prev.0[i - 1], prev.1, prev.1.len());
        let cur = collide(es, ps, i);
        assert forall|k: int| 0 <= k < ps.len() implies untouched_or_spent(
            ps[k],
            #[trigger] cur.1[k],
        ) by {
            assert(untouched_or_spent(ps[k], prev.1[k]));
            assert(untouched_or_spent(prev.1[k], row.1[k]));
        }
        assert forall|k: int| 0 <= k < cur.2.len() implies fresh(#[trigger] cur.2[k]) by {
            if k >= prev.2.len() {
                assert(cur.2[k] == row.2[k - prev.2.len()]);
            } else {
                assert(cur.2[k] == prev.2[k]);
            }
        }
    }
}

/// Runs the collision phase over `enemies` and `projectiles`; returns the
/// effects spawned, in order.
pub fn resolve_collisions(
    enemies: &mut Vec<AnyEnemy>,
    projectiles: &mut Vec<AnyProjectile>,
    state: &State,
) -> (spawned: Vec<AnyEffect>)
    requires
        forall|k: int| 0 <= k < old(enemies)@.len() ==> (#[trigger] old(enemies)@[k]).valid(),
        forall|k: int|
            0 <= k < old(projectiles)@.len() ==> (#[trigger] old(projectiles)@[k]).speed_ok(),
    ensures
        final(enemies)@ == collide(old(enemies)@, old(projectiles)@, old(enemies)@.len()).0,
        final(projectiles)@ == collide(old(enemies)@, old(projectiles)@, old(enemies)@.len()).1,
        spawned@ == collide(old(enemies)@, old(projectiles)@, old(enemies)@.len()).2,
{
    let ghost es0 = enemies@;
    let ghost ps0 = projectiles@;
    let mut spawned: Vec<AnyEffect> = Vec::new();
    let n = enemies.len();
    let mut i: usize = 0;
    while i < n
        invariant
            0 <= i <= n,
            n == es0.len(),
            forall|k: int| 0 <= k < es0.len() ==> (#[trigger] es0[k]).valid(),
            forall|k: int| 0 <= k < ps0.len() ==> (#[trigger] ps0[k]).speed_ok(),
            enemies@ == collide(es0, ps0, i as nat).0,
            projectiles@ == collide(es0, ps0, i as nat).1,
            spawned@ == collide(es0, ps0, i as nat).2,
        decreases n - i,
    {
        proof {
            lemma_collide_facts(es0, ps0, i as nat);
        }
        let ghost prev = collide(es0, ps0, i as nat);
        let mut e = enemies[i];
        let ghost e0 = e;
        let ghost ps_start = projectiles@;
        let ghost fx_start = spawned@;
        let m = projectiles.len();
        let mut j: usize = 0;
        while j < m
            invariant
                0 <= j <= m,
                m == ps_start.len(),
                e == sweep(e0, ps_start, j as nat).0,
                projectiles@ == sweep(e0, ps_start, j as nat).1,
                spawned@ == fx_start + sweep(e0, ps_start, j as nat).2,
            decreases m - j,
        {
            proof {
                lemma_sweep_len(e0, ps_start, j as nat);
            }
            let mut p = projectiles[j];
            if e.hitbox().intersects(&p.hitbox()) {
                let c = Contact::Projectile { dmg: p.dmg() };
                let fx = e.on_hit(&c, state);
                let c2 = Contact::Enemy { dmg: e.dmg() };
                let _ = p.on_hit(&c2, state);
                projectiles.set(j, p);
                match fx {
                    Some(f) => {
                        spawned.push(f);
                    },
                    None => {},
                }
                proof {
                    let ghost s = sweep(e0, ps_start, (j + 1) as nat);
                    assert(spawned@ =~= fx_start + s.2);
                }
            }
            j = j + 1;
        }
        enemies.set(i, e);
        proof {
            let ghost cur = collide(es0, ps0, (i + 1) as nat);
            assert(spawned@ =~= cur.2);
        }
        i = i + 1;
    }
    spawned
}

proof fn lemma_sweep_len(e: AnyEnemy, ps: Seq<AnyProjectile>, j: nat)
    requires
        j <= ps.len(),
    ensures
        sweep(e, ps, j).1.len() == ps.len(),
    decreases j,
{
    if j > 0 {
        lemma_sweep_len(e, ps, (j - 1) as nat);
    }
}

} // verus!
