//! The things that stand in a cell, and how they are drawn on top of the
//! terrain: the order they come in, the bob of living things and the
//! blink of what was just hit.

use std::collections::HashMap;
use vstd::prelude::*;
use crate::color::{Rgba, AZURE, BLACK, CORAL, MAGENTA, OLIVE, WHITE};
use crate::draw::{lemma_shown_all_add, shown_all, DrawContext, DrawOp, Layer, ScreenPos};
use crate::tile::{AVATAR, DREG, GRID_BUG, SERPENT};
use crate::wallform::block_op;

verus! {

broadcast use vstd::std_specs::hash::group_hash_axioms;

/// The kinds of creature.
#[derive(Clone, Copy, Debug, PartialEq, Eq, Hash, Structural)]
pub enum MobKind {
    Player,
    Dreg,
    GridBug,
    Serpent,
}

impl MobKind {
    /// The icon and the color of a creature of this kind.
    pub open spec fn spec_visual(self) -> (usize, Rgba) {
        match self {
            MobKind::Player => (AVATAR, AZURE),
            MobKind::Dreg => (DREG, OLIVE),
            MobKind::GridBug => (GRID_BUG, MAGENTA),
            MobKind::Serpent => (SERPENT, CORAL),
        }
    }

    #[verifier::when_used_as_spec(spec_visual)]
    pub fn visual(self) -> (v: (usize, Rgba))
        ensures
            v == self.spec_visual(),
    {
        match self {
            MobKind::Player => (AVATAR, AZURE),
            MobKind::Dreg => (DREG, OLIVE),
            MobKind::GridBug => (GRID_BUG, MAGENTA),
            MobKind::Serpent => (SERPENT, CORAL),
        }
    }

    /// Every creature but the player bobs up and down.
    pub open spec fn spec_is_bobbing(self) -> bool {
        !(self is Player)
    }

    #[verifier::when_used_as_spec(spec_is_bobbing)]
    pub fn is_bobbing(self) -> (b: bool)
        ensures
            b == self.spec_is_bobbing(),
    {
        match self {
            MobKind::Player => false,
            _ => true,
        }
    }
}

/// What the drawing rules read of one thing in a cell.
#[derive(Clone, Copy, Debug, PartialEq, Eq)]
pub struct Entity {
    /// The number that the thing is known by in the table of damage
    /// timers.
    pub id: u64,
    /// Whether it is a creature, as opposed to an item.
    pub mob: bool,
    pub bobbing: bool,
    /// The sprite and the color it is drawn with; a thing without them
    /// is not drawn.
    pub icon: Option<(usize, Rgba)>,
}

impl Entity {
    pub fn new(id: u64, mob: bool, bobbing: bool, icon: Option<(usize, Rgba)>) -> (e: Entity)
        ensures
            e == (Entity { id, mob, bobbing, icon }),
    {
        Entity { id, mob, bobbing, icon }
    }

    /// The creature of kind `kind` that is known by `id`.
    pub open spec fn of_mob(id: u64, kind: MobKind) -> Entity {
        Entity { id, mob: true, bobbing: kind.is_bobbing(), icon: Some(kind.visual()) }
    }

    /// Describes the creature of kind `kind` that is known by `id`.
    pub fn from_mob(id: u64, kind: MobKind) -> (e: Entity)
        ensures
            e == Self::of_mob(id, kind),
    {
        Entity { id, mob: true, bobbing: kind.is_bobbing(), icon: Some(kind.visual()) }
    }

    pub fn is_mob(&self) -> (b: bool)
        ensures
            b == self.mob,
    {
        self.mob
    }

    pub fn is_bobbing(&self) -> (b: bool)
        ensures
            b == self.bobbing,
    {
        self.bobbing
    }

    pub fn get_icon(&self) -> (icon: Option<(usize, Rgba)>)
        ensures
            icon == self.icon,
    {
        self.icon
    }
}

/// The frame of a cyclic animation that shows `millis` milliseconds after
/// the start, where each of the `frames` frames shows for `period`
/// milliseconds.
pub open spec fn frame_at(millis: u64, period: u64, frames: usize) -> int {
    ((millis / period) as int) % (frames as int)
}

/// Picks the frame of a cyclic animation for a point in time.
pub fn cycle_anim(millis: u64, period: u64, frames: usize) -> (frame: usize)
    requires
        period > 0,
        frames > 0,
    ensures
        frame == frame_at(millis, period, frames),
        frame < frames,
{
    ((millis / period) % (frames as u64)) as usize
}

/// How long a bobbing thing stays up or down, in milliseconds.
pub const BOB_PERIOD: u64 = 300;

/// The vertical shift of a bobbing thing `millis` milliseconds after the
/// start: none, then one pixel up, by turns.
pub open spec fn bob_of(millis: u64) -> int {
    if frame_at(millis, BOB_PERIOD, 2) == 0 {
        0
    } else {
        -1
    }
}

/// Computes the vertical shift of a bobbing thing.
pub fn bob(millis: u64) -> (dy: i32)
    ensures
        dy == bob_of(millis),
        dy == 0 || dy == -1,
{
    if cycle_anim(millis, BOB_PERIOD, 2) == 0 {
        0
    } else {
        -1
    }
}

/// The bob starts down, changes after each period and so repeats itself
/// after two.
pub proof fn lemma_bob_repeats(millis: u64)
    requires
        millis + 2 * BOB_PERIOD <= u64::MAX,
    ensures
        bob_of(0) == 0,
        bob_of((millis + BOB_PERIOD) as u64) != bob_of(millis),
        bob_of((millis + 2 * BOB_PERIOD) as u64) == bob_of(millis),
{
}

/// Where the body of `e` is drawn when its cell is at `pos`.
pub open spec fn body_pos(e: Entity, pos: ScreenPos, millis: u64) -> ScreenPos {
    if e.bobbing {
        ScreenPos { x: pos.x, y: (pos.y + bob_of(millis)) as i32 }
    } else {
        pos
    }
}

/// The color that `e` is drawn in: its own, unless a damage timer runs
/// for it.  Then it blinks, white while the timer is even and black while
/// it is odd.
pub open spec fn tint_of(e: Entity, own: Rgba, damage_timers: Map<u64, u32>) -> Rgba {
    if damage_timers.contains_key(e.id) {
        if damage_timers[e.id] % 2 == 0 {
            WHITE
        } else {
            BLACK
        }
    } else {
        own
    }
}

/// The operations that draw `e` in the cell at `pos`.  The serpent is
/// drawn in two parts: its body, and under it the mound it rises from,
/// which does not bob.
pub open spec fn entity_ops(
    e: Entity,
    pos: ScreenPos,
    damage_timers: Map<u64, u32>,
    millis: u64,
) -> Seq<DrawOp> {
    match e.icon {
        None => Seq::<DrawOp>::empty(),
        Some((icon, own)) => {
            let tint = tint_of(e, own, damage_timers);
            let body = block_op(icon, body_pos(e, pos, millis), tint);
            if icon == SERPENT {
                seq![body, block_op((icon + 1) as usize, pos, tint)]
            } else {
                seq![body]
            }
        },
    }
}

/// Draws `entity` in the cell at `pos`.
pub fn draw_entity<C: DrawContext>(
    ctx: &mut C,
    pos: ScreenPos,
    entity: &Entity,
    damage_timers: &HashMap<u64, u32>,
    millis: u64,
)
    requires
        pos.y > i32::MIN,
    ensures
        final(ctx).mode() == old(ctx).mode(),
        final(ctx).drawn() == old(ctx).drawn() + shown_all(
            old(ctx).mode(),
            entity_ops(*entity, pos, damage_timers@, millis),
        ),
{
    let body = if entity.is_bobbing() {
        ScreenPos { x: pos.x, y: pos.y + bob(millis) }
    } else {
        pos
    };
    if let Some((icon, own)) = entity.get_icon() {
        let tint = match damage_timers.get(&entity.id) {
            Some(t) => if *t % 2 == 0 {
                WHITE
            } else {
                BLACK
            },
            None => own,
        };
        ctx.draw(icon, body, Layer::Block, tint, None);
        if icon == SERPENT {
            ctx.draw(icon + 1, pos, Layer::Block, tint, None);
        }
    }
    assert(ctx.drawn() =~= old(ctx).drawn() + shown_all(
        old(ctx).mode(),
        entity_ops(*entity, pos, damage_timers@, millis),
    ));
}

/// Draws a creature of kind `mob` in the cell at `pos`, in its own color.
pub fn draw_mob<C: DrawContext>(ctx: &mut C, mob: MobKind, pos: ScreenPos, millis: u64)
    requires
        pos.y > i32::MIN,
    ensures
        final(ctx).mode() == old(ctx).mode(),
        final(ctx).drawn() == old(ctx).drawn() + shown_all(
            old(ctx).mode(),
            entity_ops(Entity::of_mob(0, mob), pos, Map::<u64, u32>::empty(), millis),
        ),
{
    let body = if mob.is_bobbing() {
        ScreenPos { x: pos.x, y: pos.y + bob(millis) }
    } else {
        pos
    };
    let (icon, color) = mob.visual();
    match mob {
        MobKind::Serpent => {
            ctx.draw(SERPENT, body, Layer::Block, color, None);
            ctx.draw(SERPENT + 1, pos, Layer::Block, color, None);
        },
        _ => {
            ctx.draw(icon, body, Layer::Block, color, None);
        },
    }
    assert(ctx.drawn() =~= old(ctx).drawn() + shown_all(
        old(ctx).mode(),
        entity_ops(Entity::of_mob(0, mob), pos, Map::<u64, u32>::empty(), millis),
    ));
}

/// The order that the things in a cell are drawn in: the items in the
/// order they are stored in, then the creatures in the order they are
/// stored in, so that a creature stands on top of what lies under it.
pub open spec fn draw_order(entities: Seq<Entity>) -> Seq<Entity> {
    entities.filter(|e: Entity| !e.mob) + entities.filter(|e: Entity| e.mob)
}

/// Puts the things in a cell in the order that they are drawn in.
pub fn sort_for_drawing(entities: &Vec<Entity>) -> (sorted: Vec<Entity>)
    ensures
        sorted@ == draw_order(entities@),
        sorted@.len() == entities@.len(),
        sorted@.to_multiset() == entities@.to_multiset(),
        forall|i: int, j: int|
            0 <= i < j < sorted@.len() ==> !(#[trigger] sorted@[i].mob && !#[trigger] sorted@[j].mob),
{
    let ghost items = |e: Entity| !e.mob;
    let ghost mobs = |e: Entity| e.mob;
    let mut sorted: Vec<Entity> = Vec::new();
    let mut i: usize = 0;
    while i < entities.len()
        invariant
            i <= entities.len(),
            items == |e: Entity| !e.mob,
            sorted@ == entities@.take(i as int).filter(items),
        decreases entities.len() - i,
    {
        proof {
            assert(entities@.take(i + 1) == entities@.take(i as int).push(entities@[i as int]));
            entities@.take(i as int).lemma_filter_push(entities@[i as int], items);
        }
        if !entities[i].is_mob() {
            sorted.push(entities[i]);
        }
        i += 1;
    }
    assert(entities@.take(entities.len() as int) == entities@);
    let ghost front = sorted@;
    i = 0;
    while i < entities.len()
        invariant
            i <= entities.len(),
            mobs == |e: Entity| e.mob,
            sorted@ == front + entities@.take(i as int).filter(mobs),
        decreases entities.len() - i,
    {
        proof {
            assert(entities@.take(i + 1) == entities@.take(i as int).push(entities@[i as int]));
            entities@.take(i as int).lemma_filter_push(entities@[i as int], mobs);
        }
        if entities[i].is_mob() {
            sorted.push(entities[i]);
        }
        i += 1;
    }
    proof {
        lemma_draw_order(entities@);
    }
    sorted
}

/// The draw order holds every thing of the cell as often as the cell
/// does, and in it no creature comes before an item.
pub proof fn lemma_draw_order(entities: Seq<Entity>)
    ensures
        draw_order(entities).len() == entities.len(),
        draw_order(entities).to_multiset() == entities.to_multiset(),
        forall|i: int, j: int|
            0 <= i < j < draw_order(entities).len() ==> !(#[trigger] draw_order(entities)[i].mob
                && !#[trigger] draw_order(entities)[j].mob),
{
    let items = |e: Entity| !e.mob;
    let mobs = |e: Entity| e.mob;
    let front = entities.filter(items);
    let back = entities.filter(mobs);
    assert forall|i: int| 0 <= i < front.len() implies !(#[trigger] front[i]).mob by {
        entities.lemma_filter_pred(items, i);
    }
    assert forall|i: int| 0 <= i < back.len() implies (#[trigger] back[i]).mob by {
        entities.lemma_filter_pred(mobs, i);
    }
    lemma_partition_keeps_all(entities);
}

/// Splitting a list into its items and its creatures loses nothing and
/// adds nothing.
proof fn lemma_partition_keeps_all(entities: Seq<Entity>)
    ensures
        draw_order(entities).len() == entities.len(),
        draw_order(entities).to_multiset() == entities.to_multiset(),
    decreases entities.len(),
{
    broadcast use vstd::seq_lib::group_to_multiset_ensures;

    let items = |e: Entity| !e.mob;
    let mobs = |e: Entity| e.mob;
    if entities.len() == 0 {
        reveal(Seq::filter);
        assert(draw_order(entities) =~= entities);
    } else {
        let rest = entities.drop_last();
        let last = entities.last();
        lemma_partition_keeps_all(rest);
        assert(entities == rest.push(last));
        rest.lemma_filter_push(last, items);
        rest.lemma_filter_push(last, mobs);
        let front = rest.filter(items);
        let back = rest.filter(mobs);
        if last.mob {
            assert(draw_order(entities) =~= draw_order(rest).push(last));
        } else {
            assert(draw_order(entities) =~= front.push(last) + back);
            assert(draw_order(rest) =~= front + back);
            vstd::seq_lib::lemma_multiset_commutative(front.push(last), back);
            vstd::seq_lib::lemma_multiset_commutative(front, back);
            assert(front.push(last) =~= front + seq![last]);
            vstd::seq_lib::lemma_multiset_commutative(front, seq![last]);
            assert((front + back).push(last) =~= (front + back) + seq![last]);
            vstd::seq_lib::lemma_multiset_commutative(front + back, seq![last]);
        }
    }
}

/// The operations that draw `entities` in the cell at `pos`, one after
/// another in the given order.
pub open spec fn entities_ops(
    entities: Seq<Entity>,
    pos: ScreenPos,
    damage_timers: Map<u64, u32>,
    millis: u64,
) -> Seq<DrawOp>
    decreases entities.len(),
{
    if entities.len() == 0 {
        Seq::<DrawOp>::empty()
    } else {
        entities_ops(entities.drop_last(), pos, damage_timers, millis) + entity_ops(
            entities.last(),
            pos,
            damage_timers,
            millis,
        )
    }
}

/// Draws the things in a cell at `pos`, items first and creatures on top.
pub fn draw_entities<C: DrawContext>(
    ctx: &mut C,
    pos: ScreenPos,
    entities: &Vec<Entity>,
    damage_timers: &HashMap<u64, u32>,
    millis: u64,
)
    requires
        pos.y > i32::MIN,
    ensures
        final(ctx).mode() == old(ctx).mode(),
        final(ctx).drawn() == old(ctx).drawn() + shown_all(
            old(ctx).mode(),
            entities_ops(draw_order(entities@), pos, damage_timers@, millis),
        ),
{
    let sorted = sort_for_drawing(entities);
    let ghost mode = ctx.mode();
    let mut i: usize = 0;
    while i < sorted.len()
        invariant
            i <= sorted.len(),
            pos.y > i32::MIN,
            mode == old(ctx).mode(),
            ctx.mode() == mode,
            ctx.drawn() == old(ctx).drawn() + shown_all(
                mode,
                entities_ops(sorted@.take(i as int), pos, damage_timers@, millis),
            ),
        decreases sorted.len() - i,
    {
        proof {
            let done = sorted@.take(i as int);
            let next = sorted@.take(i + 1);
            assert(next.drop_last() == done);
            assert(next.last() == sorted@[i as int]);
            lemma_shown_all_add(
                mode,
                entities_ops(done, pos, damage_timers@, millis),
                entity_ops(sorted@[i as int], pos, damage_timers@, millis),
            );
        }
        draw_entity(ctx, pos, &sorted[i], damage_timers, millis);
        i += 1;
    }
    assert(sorted@.take(sorted.len() as int) == sorted@);
}

} // verus!
