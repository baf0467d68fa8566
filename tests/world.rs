use breach::entity::blink::BlinkEffect;
use breach::entity::bullet::Bullet;
use breach::entity::effect::AnyEffect;
use breach::entity::enemy::AnyEnemy;
use breach::entity::goblo::Goblo;
use breach::entity::hit::HitEffect;
use breach::entity::player::Ability;
use breach::entity::projectile::{AnyProjectile, Projectile};
use breach::entity::Collidable;
use breach::event::{Event, GameEvent, PlayerEvent};
use breach::geometry::{Pos, Rect, SUB};
use breach::map::Level;
use breach::state::{accepts_event, GameMode, State};

fn world() -> State {
    State::new(Rect::new(&Pos(0, 0), 80 * SUB, 24 * SUB), Level::parse(""))
}

/// A world with no enemy, for tests that place their own.
fn empty_world() -> State {
    let mut s = world();
    s.enemies.clear();
    s
}

#[test]
fn new_world() {
    let s = State::new(Rect::new(&Pos(0, 0), 80 * SUB, 24 * SUB), Level::parse("...\n.@.\n"));
    assert_eq!(s.mode, GameMode::Play);
    assert_eq!(s.player.pos, Pos(SUB, SUB));
    assert_eq!(s.player.aim, Pos(SUB, 0));
    assert_eq!(s.player.health(), 100);
    assert_eq!(s.enemies, vec![AnyEnemy::Goblo(Goblo::new(Pos(10 * SUB, 10 * SUB)))]);
    assert!(s.projectiles.is_empty());
    assert!(s.effects.is_empty());
    assert!(s.log.is_none());
}

#[test]
fn move_intent_on_centered_player() {
    let mut s = world();
    s.player.pos = Pos(40 * SUB, 12 * SUB);
    assert!(s.apply_event(Event::Player(PlayerEvent::Move(2 * SUB, 0))));
    assert_eq!(s.player.pos, Pos(42 * SUB, 12 * SUB));
}

#[test]
fn move_intent_is_clamped_to_canvas() {
    let mut s = world();
    s.player.pos = Pos(76 * SUB, 1 * SUB);
    s.apply_event(Event::Player(PlayerEvent::Move(2 * SUB, -2 * SUB)));
    assert_eq!(s.player.pos, Pos(77 * SUB, 0));
    s.apply_event(Event::Player(PlayerEvent::Move(i64::MIN, i64::MAX)));
    assert_eq!(s.player.pos, Pos(0, 21 * SUB));
}

#[test]
fn shoot_at_angle_zero() {
    let mut s = empty_world();
    // the hitbox center is (40, 12)
    s.player.pos = Pos(40 * SUB - 1500, 12 * SUB - 1500);
    s.apply_event(Event::Player(PlayerEvent::Shoot));
    assert_eq!(s.projectiles.len(), 1);
    assert_eq!(*s.projectiles[0].pos(), Pos(40 * SUB, 12 * SUB));
    s.frame();
    assert_eq!(s.projectiles.len(), 1);
    assert_eq!(*s.projectiles[0].pos(), Pos(40 * SUB + 500, 12 * SUB));
}

#[test]
fn aim_then_shoot() {
    let mut s = empty_world();
    s.player.pos = Pos(10 * SUB, 10 * SUB);
    s.apply_event(Event::Player(PlayerEvent::Aim(Pos(10 * SUB, 2 * SUB))));
    assert_eq!(s.player.aim, Pos(0, -8 * SUB));
    s.apply_event(Event::Player(PlayerEvent::Shoot));
    assert_eq!(s.projectiles, vec![AnyProjectile::Bullet(Bullet { pos: Pos(11500, 11500), vel: Pos(0, -500) })]);
}

#[test]
fn blink_moves_player_and_leaves_trail() {
    let mut s = empty_world();
    s.player.pos = Pos(20 * SUB, 5 * SUB);
    s.apply_event(Event::Player(PlayerEvent::Ability(Ability::Blink)));
    assert_eq!(s.player.pos, Pos(31500, 6500));
    assert_eq!(
        s.effects,
        vec![AnyEffect::Blink(BlinkEffect::new(Pos(21500, 6500), Pos(31500, 6500)))]
    );
    // a blink past the edge lands on the edge
    s.player.pos = Pos(75 * SUB, 5 * SUB);
    s.apply_event(Event::Player(PlayerEvent::Ability(Ability::Blink)));
    assert_eq!(s.player.pos, Pos(80 * SUB, 6500));
}

#[test]
fn game_intents() {
    let mut s = world();
    assert!(s.apply_event(Event::Game(GameEvent::Pause)));
    assert_eq!(s.mode, GameMode::Pause);
    assert!(s.apply_event(Event::Game(GameEvent::Play)));
    assert_eq!(s.mode, GameMode::Play);
    assert!(s.apply_event(Event::Game(GameEvent::Resize(100, 30))));
    assert_eq!(s.canvas, Rect::new(&Pos(0, 0), 100 * SUB, 30 * SUB));
    assert!(!s.apply_event(Event::Game(GameEvent::Quit)));
    s.pause();
    assert_eq!(s.mode, GameMode::Pause);
    s.play();
    assert_eq!(s.mode, GameMode::Play);
    s.log("hello".to_string());
    assert_eq!(s.log, Some("hello".to_string()));
}

#[test]
fn overlapping_enemy_and_projectile() {
    let mut s = empty_world();
    let goblo = Goblo::new(Pos(10 * SUB, 10 * SUB));
    let bullet = Bullet::new(Pos(10 * SUB, 10 * SUB), Pos(SUB, 0));
    assert_eq!(goblo.hitbox(), Rect::new(&Pos(10 * SUB, 10 * SUB), 2 * SUB, 2 * SUB));
    assert_eq!(bullet.hitbox(), Rect::new(&Pos(10 * SUB, 10 * SUB), SUB, SUB));
    // the goblo chases a player centered on it: it heads along +x
    s.player.pos = Pos(10 * SUB - 1500, 10 * SUB - 1500);
    s.spawn_enemy(AnyEnemy::Goblo(goblo));
    s.spawn_projectile(AnyProjectile::Bullet(bullet));
    s.frame();
    // the goblo lost the bullet's damage, the bullet was used up
    assert_eq!(s.enemies, vec![AnyEnemy::Goblo(Goblo { hp: 9, pos: Pos(10 * SUB + 200, 10 * SUB) })]);
    assert!(s.projectiles.is_empty());
    // the hit numeral was spawned and aged once
    assert_eq!(
        s.effects,
        vec![AnyEffect::Hit(HitEffect { pos: Pos(10 * SUB + 200, 10 * SUB - 500), dmg: 1, frame: 1 })]
    );
}

#[test]
fn projectile_hits_every_overlapping_enemy_until_spent() {
    let mut s = empty_world();
    s.player.pos = Pos(10 * SUB - 1500, 10 * SUB - 1500);
    s.spawn_enemy(AnyEnemy::Goblo(Goblo::new(Pos(10 * SUB, 10 * SUB))));
    s.spawn_enemy(AnyEnemy::Goblo(Goblo::new(Pos(10 * SUB, 10 * SUB))));
    s.spawn_projectile(AnyProjectile::Bullet(Bullet::new(Pos(10 * SUB, 10 * SUB), Pos(SUB, 0))));
    s.frame();
    // the first enemy used the bullet up: it left the second one's hitbox
    assert_eq!(s.enemies.len(), 2);
    assert_eq!(s.enemies[0], AnyEnemy::Goblo(Goblo { hp: 9, pos: Pos(10 * SUB + 200, 10 * SUB) }));
    assert_eq!(s.enemies[1], AnyEnemy::Goblo(Goblo { hp: 10, pos: Pos(10 * SUB + 200, 10 * SUB) }));
    assert_eq!(s.effects.len(), 1);
}

#[test]
fn defeated_enemy_is_removed_in_the_same_tick() {
    let mut s = empty_world();
    s.player.pos = Pos(10 * SUB - 1500, 10 * SUB - 1500);
    s.spawn_enemy(AnyEnemy::Goblo(Goblo { hp: 1, pos: Pos(10 * SUB, 10 * SUB) }));
    s.spawn_enemy(AnyEnemy::Goblo(Goblo { hp: 1, pos: Pos(50 * SUB, 20 * SUB) }));
    s.spawn_projectile(AnyProjectile::Bullet(Bullet::new(Pos(10 * SUB, 10 * SUB), Pos(SUB, 0))));
    s.frame();
    assert_eq!(s.enemies.len(), 1);
    assert_eq!(s.enemies[0].hitbox().pos.0 > 40 * SUB, true);
    assert_eq!(s.effects.len(), 1);
}

#[test]
fn stray_projectiles_are_removed() {
    let mut s = empty_world();
    // leaves through the right edge during this tick
    s.spawn_projectile(AnyProjectile::Bullet(Bullet::new(Pos(80 * SUB - 100, 5 * SUB), Pos(SUB, 0))));
    // stays inside
    s.spawn_projectile(AnyProjectile::Bullet(Bullet::new(Pos(30 * SUB, 5 * SUB), Pos(SUB, 0))));
    // leaves through the top edge while hitting an enemy there
    s.player.pos = Pos(60 * SUB, 0);
    s.spawn_enemy(AnyEnemy::Goblo(Goblo::new(Pos(60 * SUB, -2 * SUB + 200))));
    s.spawn_projectile(AnyProjectile::Bullet(Bullet::new(Pos(60 * SUB, 100), Pos(0, -SUB))));
    s.frame();
    assert_eq!(s.projectiles.len(), 1);
    assert_eq!(*s.projectiles[0].pos(), Pos(30 * SUB + 500, 5 * SUB));
    assert_eq!(s.effects.len(), 1);
}

#[test]
fn hit_effect_removed_in_the_tick_it_finishes() {
    let mut s = empty_world();
    s.spawn_effect(AnyEffect::Hit(HitEffect::new(&Pos(5 * SUB, 20 * SUB), 2)));
    for tick in 1..5u8 {
        s.frame();
        assert_eq!(s.effects.len(), 1);
        assert_eq!(s.effects[0], AnyEffect::Hit(HitEffect { pos: Pos(5 * SUB, 20 * SUB - 500 * tick as i64), dmg: 2, frame: tick }));
    }
    s.frame();
    assert!(s.effects.is_empty());
}

#[test]
fn blink_effect_removed_after_its_duration() {
    let mut s = empty_world();
    s.spawn_effect(AnyEffect::Blink(BlinkEffect::new(Pos(0, 0), Pos(SUB, 0))));
    for _ in 0..57 {
        s.frame();
        assert_eq!(s.effects.len(), 1);
    }
    s.frame();
    assert!(s.effects.is_empty());
}

#[test]
fn aim_targets_must_be_in_bounds() {
    assert!(accepts_event(&Event::Player(PlayerEvent::Aim(Pos(5, 5)))));
    assert!(!accepts_event(&Event::Player(PlayerEvent::Aim(Pos(i64::MAX, 5)))));
    assert!(accepts_event(&Event::Player(PlayerEvent::Move(i64::MAX, 5))));
}
