//! The buffer and queue laws: wrap-around equivalence of writes, clear
//! idempotence, order-independence of compositing away from collisions,
//! and the FIFO latency bound of the pending-key queue.

use vstd::prelude::*;

verus! {

use vstd::arithmetic::div_mod::{
    lemma_mod_add_multiples_vanish, lemma_mod_division_less_than_divisor,
    lemma_mod_sub_multiples_vanish,
};
use vstd::math::min;
use crate::canvas::{Canvas, Cell, buf_index, cleared, write_at};
use crate::input::Key;
use crate::sim::composite;
use crate::world::Entity;

/// Wrap-around: writing one canvas width (or height) away, in either
/// direction, produces exactly the buffer that writing at the point
/// itself produces; a write at `(w, 0)` equals a write at `(0, 0)`.
pub proof fn lemma_write_wrap_around(buf: Seq<Cell>, w: int, h: int, x: int, y: int, cell: Cell)
    requires
        0 < w,
        0 < h,
    ensures
        write_at(buf, w, h, x + w, y, cell) == write_at(buf, w, h, x, y, cell),
        write_at(buf, w, h, x - w, y, cell) == write_at(buf, w, h, x, y, cell),
        write_at(buf, w, h, x, y + h, cell) == write_at(buf, w, h, x, y, cell),
        write_at(buf, w, h, x, y - h, cell) == write_at(buf, w, h, x, y, cell),
{
    lemma_mod_add_multiples_vanish(x, w);
    lemma_mod_sub_multiples_vanish(x, w);
    lemma_mod_add_multiples_vanish(y, h);
    lemma_mod_sub_multiples_vanish(y, h);
}

/// Clear idempotence: a buffer cleared twice is identical to one cleared
/// once — every cell is the background sentinel either way.
pub proof fn lemma_clear_idempotent(once: Canvas, twice: Canvas)
    requires
        once.wf(),
        twice.wf(),
        twice.width == once.width,
        twice.height == once.height,
        once.grid() == cleared(once.width as int, once.height as int),
        twice.grid() == cleared(twice.width as int, twice.height as int),
    ensures
        twice.grid() == once.grid(),
        forall|i: int| 0 <= i < once.grid().len() ==> once.grid()[i] == Cell::Background,
{
}

/// Composite order-independence except on collision: two Blob entities
/// whose positions resolve to distinct cells leave both their cells in
/// the buffer whichever is composited first; two that resolve to the
/// same cell leave exactly one of the two cells there — whichever was
/// written last — and every other cell untouched.
pub proof fn lemma_composite_order(buf: Seq<Cell>, w: int, h: int, e1: Entity, e2: Entity)
    requires
        0 < w,
        0 < h,
        buf.len() == w * h,
    ensures
        ({
            let i1 = buf_index(w, h, e1.blob.pos.x as int, e1.blob.pos.y as int);
            let i2 = buf_index(w, h, e2.blob.pos.x as int, e2.blob.pos.y as int);
            let g12 = composite(buf, w, h, seq![e1, e2]);
            let g21 = composite(buf, w, h, seq![e2, e1]);
            &&& (i1 != i2 ==> {
                &&& g12 == g21
                &&& g12[i1] == e1.blob.cell
                &&& g12[i2] == e2.blob.cell
            })
            &&& (i1 == i2 ==> {
                &&& g12[i1] == e2.blob.cell
                &&& g21[i1] == e1.blob.cell
                &&& forall|i: int| 0 <= i < buf.len() && i != i1 ==> #[trigger] g12[i] == buf[i]
                &&& forall|i: int| 0 <= i < buf.len() && i != i1 ==> #[trigger] g21[i] == buf[i]
            })
        }),
{
    let x1 = e1.blob.pos.x as int;
    let y1 = e1.blob.pos.y as int;
    let x2 = e2.blob.pos.x as int;
    let y2 = e2.blob.pos.y as int;
    let i1 = buf_index(w, h, x1, y1);
    let i2 = buf_index(w, h, x2, y2);
    lemma_mod_division_less_than_divisor(x1, w);
    lemma_mod_division_less_than_divisor(y1, h);
    lemma_mod_division_less_than_divisor(x2, w);
    lemma_mod_division_less_than_divisor(y2, h);
    assert(0 <= i1 < w * h) by (nonlinear_arith)
        requires
            0 <= y1 % h < h,
            0 <= x1 % w < w,
            i1 == (y1 % h) * w + x1 % w,
    ;
    assert(0 <= i2 < w * h) by (nonlinear_arith)
        requires
            0 <= y2 % h < h,
            0 <= x2 % w < w,
            i2 == (y2 % h) * w + x2 % w,
    ;
    reveal_with_fuel(composite, 3);
    assert(seq![e1, e2].drop_last() =~= seq![e1]);
    assert(seq![e1].drop_last() =~= Seq::<Entity>::empty());
    assert(seq![e2, e1].drop_last() =~= seq![e2]);
    assert(seq![e2].drop_last() =~= Seq::<Entity>::empty());
    assert(composite(buf, w, h, seq![e1]) == write_at(buf, w, h, x1, y1, e1.blob.cell));
    assert(composite(buf, w, h, seq![e2]) == write_at(buf, w, h, x2, y2, e2.blob.cell));
    let g12 = composite(buf, w, h, seq![e1, e2]);
    let g21 = composite(buf, w, h, seq![e2, e1]);
    assert(g12 == buf.update(i1, e1.blob.cell).update(i2, e2.blob.cell));
    assert(g21 == buf.update(i2, e2.blob.cell).update(i1, e1.blob.cell));
    if i1 != i2 {
        assert(g12 =~= g21);
    }
}

/// The queue as it stands after `t` ticks have each polled it once, with
/// no keys arriving meanwhile.
pub open spec fn queue_after(q: Seq<Key>, t: nat) -> Seq<Key>
    decreases t,
{
    if t == 0 {
        q
    } else if q.len() == 0 {
        queue_after(q, (t - 1) as nat)
    } else {
        queue_after(q.drop_first(), (t - 1) as nat)
    }
}

/// The keys those `t` polls handed to the consumer, oldest first.
pub open spec fn taken(q: Seq<Key>, t: nat) -> Seq<Key>
    decreases t,
{
    if t == 0 || q.len() == 0 {
        Seq::<Key>::empty()
    } else {
        seq![q[0]] + taken(q.drop_first(), (t - 1) as nat)
    }
}

/// Input latency bound: with the queue holding its keys at the start and
/// one key taken per tick, by tick `t` the consumer has observed exactly
/// the first `min(len, t)` of them, in arrival order — none skipped,
/// none reordered — and the rest still wait, in order. Keys arriving
/// meanwhile only lengthen the tail.
pub proof fn lemma_input_latency(q: Seq<Key>, t: nat)
    ensures
        taken(q, t) == q.take(min(t as int, q.len() as int)),
        queue_after(q, t) == q.skip(min(t as int, q.len() as int)),
    decreases t,
{
    if t == 0 {
        assert(q.take(0) =~= Seq::<Key>::empty());
        assert(q.skip(0) =~= q);
    } else if q.len() == 0 {
        lemma_input_latency(q, (t - 1) as nat);
        assert(q.take(0) =~= Seq::<Key>::empty());
        assert(q.skip(0) =~= q);
    } else {
        let q1 = q.drop_first();
        lemma_input_latency(q1, (t - 1) as nat);
        assert(taken(q, t) =~= q.take(min(t as int, q.len() as int)));
        assert(queue_after(q, t) =~= q.skip(min(t as int, q.len() as int)));
    }
}

} // verus!
