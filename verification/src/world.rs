//! The entity world: a container of Blob entities, at most one of which is
//! tagged as the input-controlled Player, with the Startup-phase spawner.

use vstd::prelude::*;

verus! {

use crate::canvas::Cell;

/// A grid-relative 2D coordinate. Signed and unclamped: out-of-range
/// values are resolved at render time by wrap-around addressing.
#[derive(Clone, Copy, Debug, PartialEq, Eq, Structural)]
pub struct Position {
    pub x: i64,
    pub y: i64,
}

/// A renderable component bundle: where an entity is and how it looks.
#[derive(Clone, Copy, Debug, PartialEq, Eq, Structural)]
pub struct Blob {
    pub pos: Position,
    pub cell: Cell,
}

impl Blob {
    pub fn new(pos: Position, cell: Cell) -> (b: Blob)
        ensures
            b.pos == pos,
            b.cell == cell,
    {
        Blob { pos, cell }
    }
}

/// One entity of the world: a Blob, optionally carrying the Player tag.
#[derive(Clone, Copy, Debug, PartialEq, Eq, Structural)]
pub struct Entity {
    pub blob: Blob,
    pub player: bool,
}

/// Index of the first entity at or after `i` that carries the Player tag.
pub open spec fn first_player_from(ents: Seq<Entity>, i: int) -> Option<int>
    decreases ents.len() - i,
{
    if i < 0 || i >= ents.len() {
        None
    } else if ents[i].player {
        Some(i)
    } else {
        first_player_from(ents, i + 1)
    }
}

/// Index of the first Player-tagged entity, if any. Input routing
/// operates on this entity alone, so a world with no Player (or, were it
/// ever built, more than one) still behaves well.
pub open spec fn first_player(ents: Seq<Entity>) -> Option<int> {
    first_player_from(ents, 0)
}

/// The colour of the Player's Blob.
pub open spec fn player_cell() -> Cell {
    Cell::Solid { r: 30, g: 200, b: 30 }
}

/// The colour of the decorative Blobs.
pub open spec fn decor_cell() -> Cell {
    Cell::Solid { r: 200, g: 30, b: 30 }
}

/// The entity world: spawned entities in spawn order.
pub struct World {
    pub entities: Vec<Entity>,
}

impl World {
    /// A world with no entities.
    pub fn new() -> (w: World)
        ensures
            w.entities@ == Seq::<Entity>::empty(),
    {
        World { entities: Vec::new() }
    }

    /// Spawns one entity and returns its identifier.
    pub fn spawn(&mut self, blob: Blob, player: bool) -> (id: usize)
        ensures
            final(self).entities@ == old(self).entities@.push((Entity { blob, player })),
            id == old(self).entities@.len(),
    {
        let id = self.entities.len();
        self.entities.push(Entity { blob, player });
        id
    }

    /// Finds the first Player-tagged entity, if any.
    pub fn find_player(&self) -> (r: Option<usize>)
        ensures
            match r {
                Some(i) => {
                    &&& first_player(self.entities@) == Some(i as int)
                    &&& i < self.entities@.len()
                    &&& self.entities@[i as int].player
                },
                None => first_player(self.entities@) is None,
            },
    {
        let n = self.entities.len();
        let mut i: usize = 0;
        while i < n
            invariant
                i <= n,
                n == self.entities.len(),
                first_player(self.entities@) == first_player_from(self.entities@, i as int),
            decreases n - i,
        {
            if self.entities[i].player {
                return Some(i);
            }
            i = i + 1;
        }
        None
    }
}

/// Relies on rand::random_range: sampling `0..bound` on the thread-local
/// generator yields a value of that range, hence below `bound`.
#[verifier::external_body]
fn random_below(bound: usize) -> (r: usize)
    requires
        0 < bound,
    ensures
        r < bound,
{
    rand::random_range(0..bound)
}

/// The Startup-phase spawner: one green Player Blob at (3, 2), then nine
/// red decorative Blobs at random positions strictly inside the
/// `width - 1` by `height - 1` corner of the canvas.
pub fn init_pixels(world: &mut World, width: usize, height: usize)
    requires
        2 <= width,
        2 <= height,
        width <= 0x7fff_ffff,
        height <= 0x7fff_ffff,
    ensures
        final(world).entities@.len() == old(world).entities@.len() + 10,
        forall|j: int|
            0 <= j < old(world).entities@.len() ==> final(world).entities@[j] == old(
                world,
            ).entities@[j],
        final(world).entities@[old(world).entities@.len() as int] == (Entity {
            blob: Blob { pos: Position { x: 3, y: 2 }, cell: player_cell() },
            player: true,
        }),
        forall|j: int|
            old(world).entities@.len() + 1 <= j < final(world).entities@.len() ==> {
                let e = #[trigger] final(world).entities@[j];
                &&& !e.player
                &&& e.blob.cell == decor_cell()
                &&& 0 <= e.blob.pos.x < width - 1
                &&& 0 <= e.blob.pos.y < height - 1
            },
{
    let ghost base = world.entities@.len();
    world.spawn(Blob::new(Position { x: 3, y: 2 }, Cell::Solid { r: 30, g: 200, b: 30 }), true);
    let mut k: usize = 0;
    while k < 9
        invariant
            k <= 9,
            2 <= width <= 0x7fff_ffff,
            2 <= height <= 0x7fff_ffff,
            world.entities@.len() == base + 1 + k,
            base == old(world).entities@.len(),
            forall|j: int| 0 <= j < base ==> world.entities@[j] == old(world).entities@[j],
            world.entities@[base as int] == (Entity {
                blob: Blob { pos: Position { x: 3, y: 2 }, cell: player_cell() },
                player: true,
            }),
            forall|j: int|
                base + 1 <= j < world.entities@.len() ==> {
                    let e = #[trigger] world.entities@[j];
                    &&& !e.player
                    &&& e.blob.cell == decor_cell()
                    &&& 0 <= e.blob.pos.x < width - 1
                    &&& 0 <= e.blob.pos.y < height - 1
                },
        decreases 9 - k,
    {
        let x = random_below(width - 1);
        let y = random_below(height - 1);
        world.spawn(
            Blob::new(Position { x: x as i64, y: y as i64 }, Cell::Solid { r: 200, g: 30, b: 30 }),
            false,
        );
        k = k + 1;
    }
}

} // verus!
