use std::collections::HashMap;
use tileview::color::{Rgba, AZURE, BLACK, CORAL, GOLD, MAGENTA, OLIVE, WHITE};
use tileview::draw::{DrawOp, Layer, ScreenPos, SpriteCollector, ViewMode, REMEMBERED_BACK};
use tileview::entity::{
    bob, cycle_anim, draw_entities, draw_entity, draw_mob, sort_for_drawing, Entity, MobKind,
    BOB_PERIOD,
};

const HERE: ScreenPos = ScreenPos { x: 320, y: 180 };

fn at(sprite: usize, y: i32, color: Rgba) -> DrawOp {
    DrawOp { sprite, pos: ScreenPos { x: 320, y }, layer: Layer::Block, color, back_color: None }
}

fn item(id: u64) -> Entity {
    Entity::new(id, false, false, Some((200 + id as usize, GOLD)))
}

fn mob(id: u64) -> Entity {
    Entity::new(id, true, true, Some((100 + id as usize, OLIVE)))
}

fn drawn(entity: &Entity, timers: &HashMap<u64, u32>, millis: u64) -> Vec<DrawOp> {
    let mut ctx = SpriteCollector::new();
    draw_entity(&mut ctx, HERE, entity, timers, millis);
    ctx.ops
}

#[test]
fn mobs_have_their_icons_and_colors() {
    assert_eq!(MobKind::Player.visual(), (51, AZURE));
    assert_eq!(MobKind::Dreg.visual(), (72, OLIVE));
    assert_eq!(MobKind::GridBug.visual(), (76, MAGENTA));
    assert_eq!(MobKind::Serpent.visual(), (94, CORAL));
    assert!(!MobKind::Player.is_bobbing());
    assert!(MobKind::Dreg.is_bobbing());
    assert!(MobKind::GridBug.is_bobbing());
    assert!(MobKind::Serpent.is_bobbing());
    let e = Entity::from_mob(7, MobKind::GridBug);
    assert_eq!(e, Entity { id: 7, mob: true, bobbing: true, icon: Some((76, MAGENTA)) });
    assert!(e.is_mob() && e.is_bobbing());
    assert_eq!(e.get_icon(), Some((76, MAGENTA)));
    assert!(!Entity::from_mob(1, MobKind::Player).is_bobbing());
}

#[test]
fn animation_frames_take_turns() {
    assert_eq!(cycle_anim(0, 300, 2), 0);
    assert_eq!(cycle_anim(299, 300, 2), 0);
    assert_eq!(cycle_anim(300, 300, 2), 1);
    assert_eq!(cycle_anim(599, 300, 2), 1);
    assert_eq!(cycle_anim(600, 300, 2), 0);
    assert_eq!(cycle_anim(1000, 100, 3), 1);
    assert_eq!(cycle_anim(u64::MAX, 1, 7), (u64::MAX % 7) as usize);
    assert_eq!(cycle_anim(12345, 1000, 1), 0);
}

#[test]
fn bob_is_one_pixel_up_every_other_period() {
    assert_eq!(BOB_PERIOD, 300);
    assert_eq!(bob(0), 0);
    assert_eq!(bob(299), 0);
    assert_eq!(bob(300), -1);
    assert_eq!(bob(599), -1);
    assert_eq!(bob(600), 0);
    for t in (0..5000u64).step_by(37) {
        assert_eq!(bob(t), bob(t + 600));
        assert_ne!(bob(t), bob(t + 300));
    }
}

#[test]
fn item_is_drawn_still_in_its_own_color() {
    let none = HashMap::new();
    assert_eq!(drawn(&item(3), &none, 0), vec![at(203, 180, GOLD)]);
    assert_eq!(drawn(&item(3), &none, 300), vec![at(203, 180, GOLD)]);
}

#[test]
fn bobbing_entity_moves_with_time() {
    let none = HashMap::new();
    assert_eq!(drawn(&mob(2), &none, 0), vec![at(102, 180, OLIVE)]);
    assert_eq!(drawn(&mob(2), &none, 450), vec![at(102, 179, OLIVE)]);
    assert_eq!(drawn(&mob(2), &none, 700), vec![at(102, 180, OLIVE)]);
}

#[test]
fn entity_without_icon_is_not_drawn() {
    let mut timers = HashMap::new();
    timers.insert(9, 4);
    assert!(drawn(&Entity::new(9, true, true, None), &timers, 300).is_empty());
}

#[test]
fn damaged_entity_blinks_white_and_black() {
    let mut timers = HashMap::new();
    timers.insert(2, 4);
    timers.insert(3, 7);
    timers.insert(4, 0);
    assert_eq!(drawn(&mob(2), &timers, 0), vec![at(102, 180, WHITE)]);
    assert_eq!(drawn(&item(3), &timers, 0), vec![at(203, 180, BLACK)]);
    assert_eq!(drawn(&mob(4), &timers, 300), vec![at(104, 179, WHITE)]);
    assert_eq!(drawn(&mob(5), &timers, 0), vec![at(105, 180, OLIVE)]);
}

#[test]
fn serpent_has_a_mound_that_does_not_bob() {
    let serpent = Entity::from_mob(1, MobKind::Serpent);
    let mut timers = HashMap::new();
    assert_eq!(drawn(&serpent, &timers, 0), vec![at(94, 180, CORAL), at(95, 180, CORAL)]);
    assert_eq!(drawn(&serpent, &timers, 300), vec![at(94, 179, CORAL), at(95, 180, CORAL)]);
    timers.insert(1, 1);
    assert_eq!(drawn(&serpent, &timers, 300), vec![at(94, 179, BLACK), at(95, 180, BLACK)]);
}

#[test]
fn draw_mob_draws_as_draw_entity_without_damage() {
    let none = HashMap::new();
    for kind in [MobKind::Player, MobKind::Dreg, MobKind::GridBug, MobKind::Serpent] {
        for millis in [0u64, 300, 650, 900] {
            let mut ctx = SpriteCollector::new();
            draw_mob(&mut ctx, kind, HERE, millis);
            assert_eq!(ctx.ops, drawn(&Entity::from_mob(0, kind), &none, millis));
        }
    }
    let mut ctx = SpriteCollector::new();
    draw_mob(&mut ctx, MobKind::Player, HERE, 300);
    draw_mob(&mut ctx, MobKind::Dreg, HERE, 300);
    assert_eq!(ctx.ops, vec![at(51, 180, AZURE), at(72, 179, OLIVE)]);
}

#[test]
fn item_is_drawn_before_mob_whatever_the_storage_order() {
    let none = HashMap::new();
    for entities in [vec![item(1), mob(2)], vec![mob(2), item(1)]] {
        let mut ctx = SpriteCollector::new();
        draw_entities(&mut ctx, HERE, &entities, &none, 0);
        assert_eq!(ctx.ops, vec![at(201, 180, GOLD), at(102, 180, OLIVE)]);
    }
}

#[test]
fn draw_order_is_stable() {
    let stored = vec![mob(1), item(2), mob(3), item(4), item(5), mob(6)];
    let sorted = sort_for_drawing(&stored);
    assert_eq!(sorted, vec![item(2), item(4), item(5), mob(1), mob(3), mob(6)]);
    assert_eq!(sort_for_drawing(&sorted), sorted);
    assert_eq!(sort_for_drawing(&Vec::new()), Vec::new());
    assert_eq!(sort_for_drawing(&vec![mob(1), mob(1)]), vec![mob(1), mob(1)]);
}

#[test]
fn entities_in_the_fog_are_dim() {
    let none = HashMap::new();
    let mut ctx = SpriteCollector::new();
    ctx.mode = ViewMode::FogOfWar;
    draw_entities(&mut ctx, HERE, &vec![mob(2)], &none, 300);
    assert_eq!(
        ctx.ops,
        vec![DrawOp {
            sprite: 102,
            pos: ScreenPos { x: 320, y: 179 },
            layer: Layer::Block,
            color: BLACK,
            back_color: Some(REMEMBERED_BACK),
        }]
    );
}

#[test]
fn entity_at_the_top_of_the_range_can_bob() {
    let none = HashMap::new();
    let mut ctx = SpriteCollector::new();
    let top = ScreenPos { x: 0, y: i32::MIN + 1 };
    draw_entity(&mut ctx, top, &mob(1), &none, 300);
    assert_eq!(ctx.ops[0].pos, ScreenPos { x: 0, y: i32::MIN });
}
