//! Spawning a new piece when there is none, and choosing the next one.
use vstd::prelude::*;

use rand::Rng;

use crate::commons::{EntityId, Rotation};
use crate::component::dyn_block::DynBlockHandler;
use crate::config::{Block, BlocksConfig};
use crate::system::physics_rules::{clamp64, sat_add};

verus! {

/// Number of blocks of a piece.
pub const PIECE_BLOCKS: usize = 4;

/// Number of kinds of piece a roll chooses among.
pub const PIECE_KINDS: usize = 7;

/// Where a new piece's origin block is placed, in pixels.
pub const SPAWN_POSITION: (i64, i64) = (225, 810);

/// Where the preview of the next piece is placed, in pixels.
pub const NEXT_POSITION: (i64, i64) = (505, 675);

/// Draws a number uniformly from `low..high`.
///
/// Calls `rand::Rng::gen_range` on the thread's generator
/// (`rand::thread_rng`). The contract claims only that the number lies in
/// `low..high`, which the documentation of `gen_range` promises; which
/// number comes out depends on chance and is not stated.
#[verifier::external_body]
fn gen_range_usize(low: usize, high: usize) -> (res: usize)
    requires
        low < high,
    ensures
        low <= res < high,
{
    rand::thread_rng().gen_range(low, high)
}

/// Spawns pieces: remembers the kind of the next piece and the entity that
/// previews it.
pub struct SpawnerSystem {
    next_index: usize,
    next_parent_entity: Option<EntityId>,
}

/// What a spawn leaves for the world to do: the kinds of the new and the
/// next piece (also their sprite numbers), the preview entity to delete,
/// and the pixel positions of the blocks (relative to their parent) and of
/// the parents of both pieces.
pub struct SpawnPlan {
    pub block_index: usize,
    pub next_index: usize,
    pub removed_parent: Option<EntityId>,
    pub block_positions: Vec<(i64, i64)>,
    pub next_block_positions: Vec<(i64, i64)>,
    pub parent_position: (i64, i64),
    pub next_parent_position: (i64, i64),
}

/// The positions of a piece's four blocks: its configured offsets, the
/// unconfigured ones at the origin.
pub open spec fn piece_layout(locations: Seq<(i64, i64)>) -> Seq<(i64, i64)> {
    Seq::new(
        PIECE_BLOCKS as nat,
        |i: int|
            if i < locations.len() {
                locations[i]
            } else {
                (0i64, 0i64)
            },
    )
}

/// A shape that a piece can be built from: at most four blocks, and its
/// origin one of them.
pub open spec fn shape_fits(b: Block) -> bool {
    b.locations@.len() <= PIECE_BLOCKS && b.origin < PIECE_BLOCKS
}

/// A position moved by a pixel translation, saturating.
pub open spec fn moved_by(p: (i64, i64), by: (i64, i64)) -> (i64, i64) {
    (clamp64(p.0 + by.0), clamp64(p.1 + by.1))
}

/// The kind of the new piece: the previewed kind if there is a preview,
/// the first roll otherwise.
pub open spec fn chosen_kind(next_index: usize, next_parent: Option<EntityId>, first_roll: usize) -> usize {
    if next_parent is Some {
        next_index
    } else {
        first_roll
    }
}

/// The plan of a spawn of kind `kind` with next kind `next`.
pub open spec fn plan_is(
    p: SpawnPlan,
    config: BlocksConfig,
    kind: usize,
    next: usize,
    removed: Option<EntityId>,
) -> bool {
    let shape = config.blocks@[kind as int];
    let layout = piece_layout(shape.locations@);
    let next_layout = piece_layout(config.blocks@[next as int].locations@);
    &&& p.block_index == kind
    &&& p.next_index == next
    &&& p.removed_parent == removed
    &&& p.block_positions@ == layout
    &&& p.next_block_positions@ == next_layout
    &&& p.parent_position == moved_by(layout[shape.origin as int], SPAWN_POSITION)
    &&& p.next_parent_position == moved_by(layout[shape.origin as int], NEXT_POSITION)
}

impl Default for SpawnerSystem {
    fn default() -> (res: SpawnerSystem)
        ensures
            res.pending_kind() == 0,
            res.preview() is None,
    {
        SpawnerSystem { next_index: 0, next_parent_entity: None }
    }
}

fn layout_of(shape: &Block) -> (res: Vec<(i64, i64)>)
    requires
        shape.locations@.len() <= PIECE_BLOCKS,
    ensures
        res@ == piece_layout(shape.locations@),
{
    let mut res: Vec<(i64, i64)> = Vec::new();
    let mut i: usize = 0;
    while i < PIECE_BLOCKS
        invariant
            i <= PIECE_BLOCKS,
            shape.locations@.len() <= PIECE_BLOCKS,
            res@ == piece_layout(shape.locations@).subrange(0, i as int),
        decreases PIECE_BLOCKS - i,
    {
        if i < shape.locations.len() {
            let p: (i64, i64) = shape.locations[i];
            res.push(p);
        } else {
            res.push((0, 0));
        }
        i = i + 1;
        assert(res@ =~= piece_layout(shape.locations@).subrange(0, i as int));
    }
    assert(res@ =~= piece_layout(shape.locations@));
    res
}

impl SpawnerSystem {
    /// The kind of the previewed next piece.
    pub closed spec fn pending_kind(&self) -> usize {
        self.next_index
    }

    /// The entity that previews the next piece, if any.
    pub closed spec fn preview(&self) -> Option<EntityId> {
        self.next_parent_entity
    }

    /// When there is no piece, plans the spawn: the new piece is of the
    /// previewed kind if there is a preview (whose entity is then to be
    /// deleted), of kind `first_roll` otherwise, and `next_roll` becomes the
    /// next kind. With a piece, nothing happens.
    pub fn plan(
        &mut self,
        handler: &DynBlockHandler,
        config: &BlocksConfig,
        first_roll: usize,
        next_roll: usize,
    ) -> (res: Option<SpawnPlan>)
        requires
            handler.blocks@.len() == 0 ==> {
                let kind = chosen_kind(old(self).pending_kind(), old(self).preview(), first_roll);
                &&& kind < config.blocks@.len()
                &&& next_roll < config.blocks@.len()
                &&& shape_fits(config.blocks@[kind as int])
                &&& config.blocks@[next_roll as int].locations@.len() <= PIECE_BLOCKS
            },
        ensures
            handler.blocks@.len() > 0 ==> res is None && final(self).pending_kind() == old(
                self,
            ).pending_kind() && final(self).preview() == old(self).preview(),
            handler.blocks@.len() == 0 ==> {
                let kind = chosen_kind(old(self).pending_kind(), old(self).preview(), first_roll);
                &&& res matches Some(p) && plan_is(p, *config, kind, next_roll, old(self).preview())
                &&& final(self).pending_kind() == next_roll
                &&& final(self).preview() == old(self).preview()
            },
    {
        if handler.blocks.len() != 0 {
            return None;
        }
        let block_index = if self.next_parent_entity.is_some() {
            self.next_index
        } else {
            first_roll
        };
        self.next_index = next_roll;
        let local_config = &config.blocks[block_index];
        let next_local_config = &config.blocks[next_roll];
        let block_positions = layout_of(local_config);
        let next_block_positions = layout_of(next_local_config);
        let origin = local_config.origin as usize;
        let base = block_positions[origin];
        let next_base = block_positions[origin];
        let parent_position = (sat_add(base.0, SPAWN_POSITION.0), sat_add(base.1, SPAWN_POSITION.1));
        let next_parent_position = (
            sat_add(next_base.0, NEXT_POSITION.0),
            sat_add(next_base.1, NEXT_POSITION.1),
        );
        Some(
            SpawnPlan {
                block_index,
                next_index: next_roll,
                removed_parent: self.next_parent_entity,
                block_positions,
                next_block_positions,
                parent_position,
                next_parent_position,
            },
        )
    }

    /// Records the spawned piece once the world has made its entities: the
    /// new preview entity, and in the piece its parent, its blocks, its
    /// shape and the upright orientation.
    pub fn commit(
        &mut self,
        handler: &mut DynBlockHandler,
        config: &BlocksConfig,
        block_index: usize,
        parent: EntityId,
        next_parent: EntityId,
        children: &Vec<EntityId>,
    )
        requires
            block_index < config.blocks@.len(),
        ensures
            final(self).preview() == Some(next_parent),
            final(self).pending_kind() == old(self).pending_kind(),
            final(handler).parent == Some(parent),
            final(handler).rotation == Rotation::Up,
            final(handler).config.same_as(&config.blocks@[block_index as int]),
            final(handler).blocks@ == old(handler).blocks@ + children@,
    {
        self.next_parent_entity = Some(next_parent);
        handler.parent = Some(parent);
        handler.rotation = Rotation::Up;
        handler.config = config.blocks[block_index].duplicate();
        let ghost start = handler.blocks@;
        let mut i: usize = 0;
        while i < children.len()
            invariant
                i <= children@.len(),
                handler.blocks@ == start + children@.subrange(0, i as int),
                handler.parent == Some(parent),
                handler.rotation == Rotation::Up,
                block_index < config.blocks@.len(),
                handler.config.same_as(&config.blocks@[block_index as int]),
            decreases children@.len() - i,
        {
            handler.blocks.push(children[i]);
            i = i + 1;
            assert(handler.blocks@ =~= start + children@.subrange(0, i as int));
        }
        assert(children@.subrange(0, children@.len() as int) =~= children@);
    }

    /// When there is no piece, rolls the kinds and plans the spawn: the
    /// first kind is rolled only when there is no preview, the next kind
    /// always, each among the first seven shapes.
    pub fn spawn(&mut self, handler: &DynBlockHandler, config: &BlocksConfig) -> (res: Option<
        SpawnPlan,
    >)
        requires
            handler.blocks@.len() == 0 ==> {
                &&& config.blocks@.len() >= PIECE_KINDS
                &&& forall|i: int| 0 <= i < PIECE_KINDS ==> shape_fits(#[trigger] config.blocks@[i])
                &&& old(self).preview() is Some ==> old(self).pending_kind() < PIECE_KINDS
            },
        ensures
            handler.blocks@.len() == 0 ==> (final(self).preview() is Some ==> final(self).pending_kind() < PIECE_KINDS),
            final(self).preview() == old(self).preview(),
            handler.blocks@.len() > 0 ==> res is None && final(self).pending_kind() == old(
                self,
            ).pending_kind(),
            handler.blocks@.len() == 0 ==> exists|first: usize, next: usize|
                first < PIECE_KINDS && next < PIECE_KINDS && final(self).pending_kind() == next
                    && #[trigger] res_is(
                    res,
                    *config,
                    chosen_kind(old(self).pending_kind(), old(self).preview(), first),
                    next,
                    old(self).preview(),
                ),
    {
        if handler.blocks.len() != 0 {
            return None;
        }
        let first = if self.next_parent_entity.is_none() {
            gen_range_usize(0, PIECE_KINDS)
        } else {
            0
        };
        let next = gen_range_usize(0, PIECE_KINDS);
        let res = self.plan(handler, config, first, next);
        assert(res_is(res, *config, chosen_kind(old(self).pending_kind(), old(self).preview(), first), next, old(self).preview()));
        res
    }
}

/// The spawn result is a plan of kind `kind` with next kind `next`.
pub open spec fn res_is(
    res: Option<SpawnPlan>,
    config: BlocksConfig,
    kind: usize,
    next: usize,
    removed: Option<EntityId>,
) -> bool {
    res matches Some(p) && plan_is(p, config, kind, next, removed)
}

} // verus!
