//! The input side of a tick: the pending-key queue that bridges the
//! blocking terminal reader to the non-blocking loop, and the systems that
//! move the Player entity by the keys they are handed.

use vstd::prelude::*;

verus! {

use crate::world::{Blob, Entity, Position, World, first_player};

/// A logical key symbol, as the terminal decoder hands it over: a plain
/// character, or anything else.
#[derive(Clone, Copy, Debug, PartialEq, Eq, Structural)]
pub enum Key {
    Char(char),
    Other,
}

/// Where a key moves a position: 'a' and 'd' step x by -1 and +1,
/// 'w' and 's' step y by -1 and +1; any other key leaves it alone.
pub open spec fn moved(p: Position, key: Key) -> Position {
    match key {
        Key::Char(c) => if c == 'a' {
            Position { x: (p.x - 1) as i64, y: p.y }
        } else if c == 'd' {
            Position { x: (p.x + 1) as i64, y: p.y }
        } else if c == 'w' {
            Position { x: p.x, y: (p.y - 1) as i64 }
        } else if c == 's' {
            Position { x: p.x, y: (p.y + 1) as i64 }
        } else {
            p
        },
        Key::Other => p,
    }
}

/// Where the four direction flags move a position: each pressed flag
/// contributes one step on its axis, opposite flags cancel.
pub open spec fn moved_by_flags(p: Position, a: bool, d: bool, w: bool, s: bool) -> Position {
    Position {
        x: (p.x - (if a { 1int } else { 0int }) + (if d { 1int } else { 0int })) as i64,
        y: (p.y - (if w { 1int } else { 0int }) + (if s { 1int } else { 0int })) as i64,
    }
}

/// The entity sequence after one channel poll: if a key arrived and a
/// Player-tagged entity exists, the first such entity's Blob moves by the
/// key; in every other case nothing changes.
pub open spec fn world_after_key(ents: Seq<Entity>, key: Option<Key>) -> Seq<Entity> {
    match (key, first_player(ents)) {
        (Some(k), Some(i)) => ents.update(
            i,
            Entity {
                blob: Blob { pos: moved(ents[i].blob.pos, k), cell: ents[i].blob.cell },
                player: ents[i].player,
            },
        ),
        _ => ents,
    }
}

/// The entity sequence after one keyboard poll of the four direction
/// flags, moving the first Player-tagged entity's Blob.
pub open spec fn world_after_flags(
    ents: Seq<Entity>,
    a: bool,
    d: bool,
    w: bool,
    s: bool,
) -> Seq<Entity> {
    match first_player(ents) {
        Some(i) => ents.update(
            i,
            Entity {
                blob: Blob {
                    pos: moved_by_flags(ents[i].blob.pos, a, d, w, s),
                    cell: ents[i].blob.cell,
                },
                player: ents[i].player,
            },
        ),
        None => ents,
    }
}

/// The first Player's coordinates sit strictly inside the i64 range, so
/// a one-step move cannot overflow.
pub open spec fn player_move_safe(ents: Seq<Entity>) -> bool {
    match first_player(ents) {
        Some(i) => {
            &&& i64::MIN < ents[i].blob.pos.x < i64::MAX
            &&& i64::MIN < ents[i].blob.pos.y < i64::MAX
        },
        None => true,
    }
}

/// The channel-poll input system: hands the key taken from the pending
/// queue this tick (if any) to the first Player-tagged Blob.
pub fn console_input(world: &mut World, key: Option<Key>)
    requires
        player_move_safe(old(world).entities@),
    ensures
        final(world).entities@ == world_after_key(old(world).entities@, key),
{
    let pidx = world.find_player();
    match (pidx, key) {
        (Some(i), Some(k)) => {
            match k {
                Key::Char(c) => {
                    match c {
                        'a' => {
                            world.entities[i].blob.pos.x = world.entities[i].blob.pos.x - 1;
                        },
                        'd' => {
                            world.entities[i].blob.pos.x = world.entities[i].blob.pos.x + 1;
                        },
                        'w' => {
                            world.entities[i].blob.pos.y = world.entities[i].blob.pos.y - 1;
                        },
                        's' => {
                            world.entities[i].blob.pos.y = world.entities[i].blob.pos.y + 1;
                        },
                        _ => {},
                    }
                },
                Key::Other => {},
            }
            proof {
                assert(world.entities@ =~= world_after_key(old(world).entities@, key));
            }
        },
        _ => {
            proof {
                assert(world.entities@ =~= world_after_key(old(world).entities@, key));
            }
        },
    }
}

/// The device-keyboard input system: moves the first Player-tagged Blob
/// by whichever of the four direction keys were just pressed this tick.
pub fn keyboard_input_system(world: &mut World, a: bool, d: bool, w: bool, s: bool)
    requires
        player_move_safe(old(world).entities@),
    ensures
        final(world).entities@ == world_after_flags(old(world).entities@, a, d, w, s),
{
    let pidx = world.find_player();
    if let Some(i) = pidx {
        if a {
            world.entities[i].blob.pos.x = world.entities[i].blob.pos.x - 1;
        }
        if d {
            world.entities[i].blob.pos.x = world.entities[i].blob.pos.x + 1;
        }
        if w {
            world.entities[i].blob.pos.y = world.entities[i].blob.pos.y - 1;
        }
        if s {
            world.entities[i].blob.pos.y = world.entities[i].blob.pos.y + 1;
        }
        proof {
            assert(world.entities@ =~= world_after_flags(old(world).entities@, a, d, w, s));
        }
    }
}

/// A polled device event, as the backend resolves it for the current
/// tick: a controller connection notice, or any other notification.
#[derive(Clone, Copy, Debug, PartialEq, Eq, Structural)]
pub enum DeviceEvent {
    Connection,
    Other,
}

/// How many of the events are connection notices.
pub open spec fn connection_count(events: Seq<DeviceEvent>) -> int
    decreases events.len(),
{
    if events.len() == 0 {
        0
    } else {
        connection_count(events.drop_last()) + (if events.last() is Connection {
            1int
        } else {
            0int
        })
    }
}

/// The device-event system: drains the events polled this tick and
/// reports the connection notices, the only ones acted on — they are
/// logged, never used for control. Returns how many were reported.
pub fn gamepad_connections(events: &Vec<DeviceEvent>) -> (n: usize)
    ensures
        n == connection_count(events@),
{
    let mut n: usize = 0;
    let mut i: usize = 0;
    while i < events.len()
        invariant
            i <= events.len(),
            n <= i,
            n == connection_count(events@.take(i as int)),
        decreases events.len() - i,
    {
        match events[i] {
            DeviceEvent::Connection => {
                n = n + 1;
            },
            DeviceEvent::Other => {},
        }
        proof {
            assert(events@.take(i as int + 1).drop_last() =~= events@.take(i as int));
        }
        i = i + 1;
    }
    proof {
        assert(events@.take(events@.len() as int) =~= events@);
    }
    n
}

/// The pending-key queue: an unbounded FIFO of key symbols, oldest
/// first, filled by the reader side and polled once per tick.
pub struct KeyQueue {
    pub keys: Vec<Key>,
}

impl KeyQueue {
    /// An empty queue.
    pub fn new() -> (q: KeyQueue)
        ensures
            q.keys@ == Seq::<Key>::empty(),
    {
        KeyQueue { keys: Vec::new() }
    }

    /// Producer side: appends a newly decoded key behind all others.
    pub fn push(&mut self, key: Key)
        ensures
            final(self).keys@ == old(self).keys@.push(key),
    {
        self.keys.push(key);
    }

    /// Consumer side: a non-blocking poll that takes the oldest unread
    /// key if one is present, else reports that no input arrived.
    pub fn try_take(&mut self) -> (r: Option<Key>)
        ensures
            old(self).keys@.len() == 0 ==> r is None && final(self).keys@ == old(self).keys@,
            old(self).keys@.len() > 0 ==> r == Some(old(self).keys@[0]) && final(self).keys@ == old(
                self,
            ).keys@.drop_first(),
    {
        if self.keys.len() == 0 {
            None
        } else {
            let k = self.keys.remove(0);
            proof {
                assert(self.keys@ =~= old(self).keys@.drop_first());
            }
            Some(k)
        }
    }
}

} // verus!
