use breach::entity::blink::{BlinkEffect, BLINK_FRAMES};
use breach::entity::bullet::Bullet;
use breach::entity::effect::{AnyEffect, Effect};
use breach::entity::enemy::{AnyEnemy, Enemy};
use breach::entity::goblo::Goblo;
use breach::entity::hit::HitEffect;
use breach::entity::player::Player;
use breach::entity::projectile::{AnyProjectile, Projectile};
use breach::entity::{apply_damage, Collidable, Contact, Entity};
use breach::geometry::{Pos, Rect, SUB};
use breach::map::Level;
use breach::state::State;

fn world() -> State {
    State::new(Rect::new(&Pos(0, 0), 80 * SUB, 24 * SUB), Level::parse(""))
}

#[test]
fn damage_saturates_at_zero() {
    assert_eq!(apply_damage(0, 0), 0);
    assert_eq!(apply_damage(0, 7), 0);
    assert_eq!(apply_damage(0, u32::MAX), 0);
    assert_eq!(apply_damage(10, 3), 7);
    assert_eq!(apply_damage(3, 10), 0);
    assert_eq!(apply_damage(5, 5), 0);
}

#[test]
fn identifiers() {
    assert_eq!(Player::new(Pos(0, 0)).id(), "player");
    assert_eq!(Goblo::new(Pos(0, 0)).id(), "goblo");
    assert_eq!(Bullet::new(Pos(0, 0), Pos(1, 0)).id(), "Bullet");
    assert_eq!(HitEffect::new(&Pos(0, 0), 1).id(), "effect:hit");
    assert_eq!(BlinkEffect::new(Pos(0, 0), Pos(1, 0)).id(), "effect:blink");
    assert_eq!(AnyEnemy::Goblo(Goblo::new(Pos(0, 0))).id(), "goblo");
}

#[test]
fn player_is_hurt_by_either_kind() {
    let s = world();
    let mut p = Player::new(Pos(0, 0));
    assert_eq!(p.health(), 100);
    assert!(p.on_hit(&Contact::Projectile { dmg: 30 }, &s).is_none());
    assert_eq!(p.health(), 70);
    p.on_hit(&Contact::Enemy { dmg: 80 }, &s);
    assert_eq!(p.health(), 0);
    assert_eq!(p.hitbox(), Rect::new(&Pos(0, 0), 3 * SUB, 3 * SUB));
    assert_eq!(p.center(), Pos(1500, 1500));
}

#[test]
fn goblo_steers_toward_player() {
    let mut s = world();
    s.player.pos = Pos(40 * SUB, 10 * SUB - 1500);
    // player center is (41.5, 10); the goblo at (10, 10) moves straight right
    let mut g = Goblo::new(Pos(10 * SUB, 10 * SUB));
    g.update(&s);
    assert_eq!(g.pos, Pos(10 * SUB + 200, 10 * SUB));
    // up and to the left along a 3-4-5 triangle
    s.player.pos = Pos(-1500 - 3000, -1500 - 4000);
    let mut h = Goblo::new(Pos(0, 0));
    h.update(&s);
    assert_eq!(h.pos, Pos(-120, -80));
}

#[test]
fn goblo_reacts_only_to_projectiles() {
    let s = world();
    let mut g = Goblo::new(Pos(5 * SUB, 6 * SUB));
    assert!(g.is_alive());
    assert_eq!(g.dmg(), 1);
    let fx = g.on_hit(&Contact::Projectile { dmg: 4 }, &s);
    assert_eq!(g.hp, 6);
    assert_eq!(fx, Some(AnyEffect::Hit(HitEffect::new(&Pos(5 * SUB, 6 * SUB), 4))));
    let fx = g.on_hit(&Contact::Enemy { dmg: 4 }, &s);
    assert_eq!(g.hp, 6);
    assert!(fx.is_none());
    g.on_hit(&Contact::Projectile { dmg: 100 }, &s);
    assert_eq!(g.hp, 0);
    assert!(!g.is_alive());
}

#[test]
fn bullet_flies_and_is_spent() {
    let s = world();
    let mut b = Bullet::new(Pos(40 * SUB, 12 * SUB), Pos(0, 5));
    assert_eq!(b.velocity(), Pos(0, 500));
    b.update(&s);
    assert_eq!(*b.pos(), Pos(40 * SUB, 12 * SUB + 500));
    assert_eq!(b.dmg(), 1);
    b.on_hit(&Contact::Enemy { dmg: 1 }, &s);
    assert_eq!(*b.pos(), Pos(-SUB, -SUB));
    let p = AnyProjectile::Bullet(b);
    assert_eq!(*p.pos(), Pos(-SUB, -SUB));
}

#[test]
fn hit_effect_lasts_five_updates() {
    let s = world();
    let mut e = HitEffect::new(&Pos(SUB, 20 * SUB), 3);
    for _ in 0..4 {
        e.update(&s);
        assert!(!e.is_done());
    }
    e.update(&s);
    assert!(e.is_done());
    assert_eq!(e.frame, 5);
    assert_eq!(e.pos, Pos(SUB, 20 * SUB - 5 * 500));
}

#[test]
fn blink_effect_lasts_its_glyph_sequence() {
    let s = world();
    let mut e = BlinkEffect::new(Pos(0, 0), Pos(10 * SUB, 0));
    assert_eq!(e.glyph(0), 'O');
    for _ in 0..(BLINK_FRAMES - 1) {
        e.update(&s);
        assert!(!e.is_done());
    }
    e.update(&s);
    assert!(e.is_done());
    assert_eq!(e.frame, 58);
    assert_eq!(e.glyph(0), '+');
    assert_eq!(e.glyph(1), '.');
    assert_eq!(e.glyph(2), '.');
    assert_eq!(e.mark(0), Pos(0, 0));
    assert_eq!(e.mark(2), Pos(4000, 0));
}

#[test]
fn blink_glyphs_fade() {
    let mut e = BlinkEffect::new(Pos(0, 0), Pos(0, 0));
    e.frame = 20;
    assert_eq!(e.glyph(0), 'o');
    assert_eq!(e.glyph(1), 'O');
    assert_eq!(e.glyph(2), 'O');
    e.frame = 50;
    assert_eq!(e.glyph(0), '.');
    assert_eq!(e.glyph(1), '.');
    assert_eq!(e.glyph(2), 'o');
}

#[test]
fn any_effect_dispatches() {
    let s = world();
    let mut e = AnyEffect::Hit(HitEffect::new(&Pos(0, 0), 1));
    assert!(!e.is_done());
    e.update(&s);
    assert_eq!(e, AnyEffect::Hit(HitEffect { pos: Pos(0, -500), dmg: 1, frame: 1 }));
}
