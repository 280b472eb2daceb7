//! The per-tick pipeline and the scheduler: a Startup pass that spawns the
//! initial entities once, then Update ticks in a fixed order — poll input,
//! move the Player, clear the canvas, composite every Blob, leaving the
//! frame ready for the caller's display flush.

use vstd::prelude::*;

verus! {

use crate::canvas::{Canvas, Cell, cleared, write_at};
use crate::input::{Key, KeyQueue, console_input, player_move_safe, world_after_key};
use crate::world::{Blob, Entity, Position, World, decor_cell, init_pixels, player_cell};

/// The buffer after compositing the given entities in order, each Blob
/// written at its position with wrap-around; on a collision the later
/// write wins.
pub open spec fn composite(buf: Seq<Cell>, w: int, h: int, ents: Seq<Entity>) -> Seq<Cell>
    decreases ents.len(),
{
    if ents.len() == 0 {
        buf
    } else {
        write_at(
            composite(buf, w, h, ents.drop_last()),
            w,
            h,
            ents.last().blob.pos.x as int,
            ents.last().blob.pos.y as int,
            ents.last().blob.cell,
        )
    }
}

/// The composite phase: writes every Blob's cell at its current position
/// with wrap-around addressing, in entity order.
pub fn render_blobs(canvas: &mut Canvas, world: &World)
    requires
        old(canvas).wf(),
    ensures
        final(canvas).wf(),
        final(canvas).width == old(canvas).width,
        final(canvas).height == old(canvas).height,
        final(canvas).grid() == composite(
            old(canvas).grid(),
            old(canvas).width as int,
            old(canvas).height as int,
            world.entities@,
        ),
{
    let n = world.entities.len();
    let mut i: usize = 0;
    while i < n
        invariant
            i <= n,
            n == world.entities.len(),
            canvas.wf(),
            canvas.width == old(canvas).width,
            canvas.height == old(canvas).height,
            canvas.grid() == composite(
                old(canvas).grid(),
                canvas.width as int,
                canvas.height as int,
                world.entities@.take(i as int),
            ),
        decreases n - i,
    {
        let e = world.entities[i];
        canvas.write(e.blob.pos.x, e.blob.pos.y, e.blob.cell);
        proof {
            let ents = world.entities@;
            assert(ents.take(i as int + 1).drop_last() =~= ents.take(i as int));
            assert(ents.take(i as int + 1).last() == ents[i as int]);
        }
        i = i + 1;
    }
    proof {
        assert(world.entities@.take(n as int) =~= world.entities@);
    }
}

/// The key a tick will consume: the oldest queued one, if any.
pub open spec fn front_key(keys: Seq<Key>) -> Option<Key> {
    if keys.len() > 0 {
        Some(keys[0])
    } else {
        None
    }
}

/// The whole simulation: the entity world, the canvas the frames are
/// drawn on, and the pending-key queue the reader side fills.
pub struct Sim {
    pub world: World,
    pub canvas: Canvas,
    pub queue: KeyQueue,
}

impl Sim {
    /// Well-formed: the canvas invariant holds.
    pub open spec fn wf(self) -> bool {
        self.canvas.wf()
    }

    /// A fresh simulation: an empty world, an empty queue and a cleared
    /// canvas of the given dimensions.
    pub fn new(width: usize, height: usize) -> (s: Sim)
        requires
            0 < width,
            0 < height,
            width <= 0x7fff_ffff,
            height <= 0x7fff_ffff,
            width * height <= usize::MAX,
        ensures
            s.wf(),
            s.canvas.width == width,
            s.canvas.height == height,
            s.canvas.grid() == cleared(width as int, height as int),
            s.world.entities@ == Seq::<Entity>::empty(),
            s.queue.keys@ == Seq::<Key>::empty(),
    {
        Sim { world: World::new(), canvas: Canvas::new(width, height), queue: KeyQueue::new() }
    }

    /// The Startup phase, run exactly once before the first tick: spawns
    /// the initial entities. The transition to the Update phase is
    /// unconditional.
    pub fn startup(&mut self)
        requires
            old(self).wf(),
            2 <= old(self).canvas.width,
            2 <= old(self).canvas.height,
        ensures
            final(self).wf(),
            final(self).canvas == old(self).canvas,
            final(self).queue == old(self).queue,
            final(self).world.entities@.len() == old(self).world.entities@.len() + 10,
            forall|j: int|
                0 <= j < old(self).world.entities@.len() ==> final(self).world.entities@[j] == old(
                    self,
                ).world.entities@[j],
            final(self).world.entities@[old(self).world.entities@.len() as int] == (Entity {
                blob: Blob { pos: Position { x: 3, y: 2 }, cell: player_cell() },
                player: true,
            }),
            forall|j: int|
                old(self).world.entities@.len() + 1 <= j < final(self).world.entities@.len()
                    ==> {
                    let e = #[trigger] final(self).world.entities@[j];
                    &&& !e.player
                    &&& e.blob.cell == decor_cell()
                    &&& 0 <= e.blob.pos.x < old(self).canvas.width - 1
                    &&& 0 <= e.blob.pos.y < old(self).canvas.height - 1
                },
    {
        let w = self.canvas.width;
        let h = self.canvas.height;
        init_pixels(&mut self.world, w, h);
    }

    /// One Update tick, its phases in the enforced order: poll the
    /// channel (at most one key per tick), move the Player by it, clear
    /// the canvas, then composite every Blob. The buffer composited over
    /// is exactly the cleared one — never a stale prior frame — and the
    /// finished frame is left on the canvas for the display flush.
    pub fn tick(&mut self)
        requires
            old(self).wf(),
            player_move_safe(old(self).world.entities@),
        ensures
            final(self).wf(),
            final(self).canvas.width == old(self).canvas.width,
            final(self).canvas.height == old(self).canvas.height,
            final(self).queue.keys@ == if old(self).queue.keys@.len() > 0 {
                old(self).queue.keys@.drop_first()
            } else {
                old(self).queue.keys@
            },
            final(self).world.entities@ == world_after_key(
                old(self).world.entities@,
                front_key(old(self).queue.keys@),
            ),
            final(self).canvas.grid() == composite(
                cleared(old(self).canvas.width as int, old(self).canvas.height as int),
                old(self).canvas.width as int,
                old(self).canvas.height as int,
                final(self).world.entities@,
            ),
    {
        let key = self.queue.try_take();
        console_input(&mut self.world, key);
        self.canvas.clear();
        render_blobs(&mut self.canvas, &self.world);
    }
}

} // verus!
