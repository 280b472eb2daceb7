use blobgrid::canvas::{Canvas, Cell};
use blobgrid::input::{
    console_input, gamepad_connections, keyboard_input_system, DeviceEvent, Key, KeyQueue,
};
use blobgrid::sim::{render_blobs, Sim};
use blobgrid::world::{init_pixels, Blob, Position, World};

const GREEN: Cell = Cell::Solid { r: 30, g: 200, b: 30 };
const RED: Cell = Cell::Solid { r: 200, g: 30, b: 30 };
const BLUE: Cell = Cell::Solid { r: 30, g: 30, b: 200 };

#[test]
fn wrap_around_width() {
    let mut a = Canvas::new(20, 8);
    a.write(20, 0, GREEN);
    let mut b = Canvas::new(20, 8);
    b.write(0, 0, GREEN);
    for row in 0..8 {
        for col in 0..20 {
            assert_eq!(a.get(col, row), b.get(col, row));
        }
    }
    assert_eq!(a.get(0, 0), GREEN);
}

#[test]
fn wrap_around_height() {
    let mut a = Canvas::new(20, 8);
    a.write(5, 8, RED);
    assert_eq!(a.get(5, 0), RED);
}

#[test]
fn wrap_around_negative() {
    let mut a = Canvas::new(20, 8);
    a.write(-1, 0, GREEN);
    assert_eq!(a.get(19, 0), GREEN);
    let mut b = Canvas::new(20, 8);
    b.write(0, -1, RED);
    assert_eq!(b.get(0, 7), RED);
    let mut c = Canvas::new(20, 8);
    c.write(-21, -9, BLUE);
    assert_eq!(c.get(19, 7), BLUE);
}

#[test]
fn write_then_read_back() {
    let mut c = Canvas::new(20, 8);
    c.write(2, 1, BLUE);
    for row in 0..8 {
        for col in 0..20 {
            if (col, row) == (2, 1) {
                assert_eq!(c.get(col, row), BLUE);
            } else {
                assert_eq!(c.get(col, row), Cell::Background);
            }
        }
    }
}

#[test]
fn clear_idempotent() {
    let mut c = Canvas::new(20, 8);
    c.write(3, 2, GREEN);
    c.write(7, 5, RED);
    c.clear();
    let mut after_once = Vec::new();
    for row in 0..8 {
        for col in 0..20 {
            after_once.push(c.get(col, row));
        }
    }
    c.clear();
    let mut i = 0;
    for row in 0..8 {
        for col in 0..20 {
            assert_eq!(c.get(col, row), after_once[i]);
            assert_eq!(c.get(col, row), Cell::Background);
            i += 1;
        }
    }
}

#[test]
fn composite_order_independent_distinct() {
    let mut w12 = World::new();
    w12.spawn(Blob::new(Position { x: 1, y: 1 }, GREEN), false);
    w12.spawn(Blob::new(Position { x: 2, y: 3 }, RED), false);
    let mut w21 = World::new();
    w21.spawn(Blob::new(Position { x: 2, y: 3 }, RED), false);
    w21.spawn(Blob::new(Position { x: 1, y: 1 }, GREEN), false);
    let mut c12 = Canvas::new(20, 8);
    let mut c21 = Canvas::new(20, 8);
    render_blobs(&mut c12, &w12);
    render_blobs(&mut c21, &w21);
    for row in 0..8 {
        for col in 0..20 {
            assert_eq!(c12.get(col, row), c21.get(col, row));
        }
    }
    assert_eq!(c12.get(1, 1), GREEN);
    assert_eq!(c12.get(2, 3), RED);
}

#[test]
fn composite_collision_keeps_one() {
    let mut w = World::new();
    w.spawn(Blob::new(Position { x: 2, y: 3 }, GREEN), false);
    w.spawn(Blob::new(Position { x: 2, y: 3 }, RED), false);
    let mut c = Canvas::new(20, 8);
    render_blobs(&mut c, &w);
    let got = c.get(2, 3);
    assert!(got == GREEN || got == RED);
}

#[test]
fn composite_collision_through_wrap() {
    let mut w = World::new();
    w.spawn(Blob::new(Position { x: 0, y: 0 }, GREEN), false);
    w.spawn(Blob::new(Position { x: 20, y: 0 }, RED), false);
    let mut c = Canvas::new(20, 8);
    render_blobs(&mut c, &w);
    let got = c.get(0, 0);
    assert!(got == GREEN || got == RED);
    for row in 0..8 {
        for col in 0..20 {
            if (col, row) != (0, 0) {
                assert_eq!(c.get(col, row), Cell::Background);
            }
        }
    }
}

#[test]
fn queue_is_fifo() {
    let mut q = KeyQueue::new();
    q.push(Key::Char('a'));
    q.push(Key::Char('b'));
    q.push(Key::Other);
    assert_eq!(q.try_take(), Some(Key::Char('a')));
    assert_eq!(q.try_take(), Some(Key::Char('b')));
    assert_eq!(q.try_take(), Some(Key::Other));
    assert_eq!(q.try_take(), None);
}

#[test]
fn one_key_per_tick() {
    let mut s = Sim::new(20, 8);
    s.world.spawn(Blob::new(Position { x: 3, y: 2 }, GREEN), true);
    s.queue.push(Key::Char('d'));
    s.queue.push(Key::Char('d'));
    s.tick();
    assert_eq!(s.world.entities[0].blob.pos, Position { x: 4, y: 2 });
    assert_eq!(s.queue.keys.len(), 1);
    s.tick();
    assert_eq!(s.world.entities[0].blob.pos, Position { x: 5, y: 2 });
    assert_eq!(s.queue.keys.len(), 0);
}

#[test]
fn tick_moves_player_and_renders() {
    let mut s = Sim::new(20, 8);
    s.world.spawn(Blob::new(Position { x: 3, y: 2 }, GREEN), true);
    s.queue.push(Key::Char('d'));
    s.tick();
    assert_eq!(s.world.entities[0].blob.pos, Position { x: 4, y: 2 });
    for row in 0..8 {
        for col in 0..20 {
            if (col, row) == (4, 2) {
                assert_eq!(s.canvas.get(col, row), GREEN);
            } else {
                assert_eq!(s.canvas.get(col, row), Cell::Background);
            }
        }
    }
}

#[test]
fn tick_wraps_at_right_edge() {
    let mut s = Sim::new(20, 8);
    s.world.spawn(Blob::new(Position { x: 19, y: 2 }, GREEN), true);
    s.queue.push(Key::Char('d'));
    s.tick();
    assert_eq!(s.world.entities[0].blob.pos, Position { x: 20, y: 2 });
    assert_eq!(s.canvas.get(0, 2), GREEN);
    assert_eq!(s.canvas.get(19, 2), Cell::Background);
}

#[test]
fn tick_without_key_leaves_player() {
    let mut s = Sim::new(20, 8);
    s.world.spawn(Blob::new(Position { x: 3, y: 2 }, GREEN), true);
    s.tick();
    assert_eq!(s.world.entities[0].blob.pos, Position { x: 3, y: 2 });
    s.tick();
    assert_eq!(s.world.entities[0].blob.pos, Position { x: 3, y: 2 });
    assert_eq!(s.canvas.get(3, 2), GREEN);
}

#[test]
fn console_input_all_directions() {
    let mut w = World::new();
    w.spawn(Blob::new(Position { x: 3, y: 2 }, GREEN), true);
    console_input(&mut w, Some(Key::Char('a')));
    assert_eq!(w.entities[0].blob.pos, Position { x: 2, y: 2 });
    console_input(&mut w, Some(Key::Char('d')));
    assert_eq!(w.entities[0].blob.pos, Position { x: 3, y: 2 });
    console_input(&mut w, Some(Key::Char('w')));
    assert_eq!(w.entities[0].blob.pos, Position { x: 3, y: 1 });
    console_input(&mut w, Some(Key::Char('s')));
    assert_eq!(w.entities[0].blob.pos, Position { x: 3, y: 2 });
}

#[test]
fn console_input_ignores_other_keys() {
    let mut w = World::new();
    w.spawn(Blob::new(Position { x: 3, y: 2 }, GREEN), true);
    console_input(&mut w, Some(Key::Char('x')));
    assert_eq!(w.entities[0].blob.pos, Position { x: 3, y: 2 });
    console_input(&mut w, Some(Key::Other));
    assert_eq!(w.entities[0].blob.pos, Position { x: 3, y: 2 });
    console_input(&mut w, None);
    assert_eq!(w.entities[0].blob.pos, Position { x: 3, y: 2 });
}

#[test]
fn console_input_without_player_is_a_no_op() {
    let mut w = World::new();
    w.spawn(Blob::new(Position { x: 3, y: 2 }, RED), false);
    console_input(&mut w, Some(Key::Char('d')));
    assert_eq!(w.entities[0].blob.pos, Position { x: 3, y: 2 });
}

#[test]
fn console_input_moves_first_player_only() {
    let mut w = World::new();
    w.spawn(Blob::new(Position { x: 1, y: 1 }, RED), false);
    w.spawn(Blob::new(Position { x: 3, y: 2 }, GREEN), true);
    w.spawn(Blob::new(Position { x: 5, y: 5 }, BLUE), true);
    console_input(&mut w, Some(Key::Char('s')));
    assert_eq!(w.entities[0].blob.pos, Position { x: 1, y: 1 });
    assert_eq!(w.entities[1].blob.pos, Position { x: 3, y: 3 });
    assert_eq!(w.entities[2].blob.pos, Position { x: 5, y: 5 });
}

#[test]
fn keyboard_flags_move_player() {
    let mut w = World::new();
    w.spawn(Blob::new(Position { x: 3, y: 2 }, GREEN), true);
    keyboard_input_system(&mut w, false, true, false, true);
    assert_eq!(w.entities[0].blob.pos, Position { x: 4, y: 3 });
    keyboard_input_system(&mut w, true, false, true, false);
    assert_eq!(w.entities[0].blob.pos, Position { x: 3, y: 2 });
    keyboard_input_system(&mut w, true, true, true, true);
    assert_eq!(w.entities[0].blob.pos, Position { x: 3, y: 2 });
}

#[test]
fn gamepad_connections_reports_only_connections() {
    let events = vec![
        DeviceEvent::Connection,
        DeviceEvent::Other,
        DeviceEvent::Connection,
        DeviceEvent::Other,
    ];
    assert_eq!(gamepad_connections(&events), 2);
    let none: Vec<DeviceEvent> = Vec::new();
    assert_eq!(gamepad_connections(&none), 0);
}

#[test]
fn init_pixels_spawns_player_and_decor() {
    let mut w = World::new();
    init_pixels(&mut w, 20, 8);
    assert_eq!(w.entities.len(), 10);
    assert!(w.entities[0].player);
    assert_eq!(w.entities[0].blob.pos, Position { x: 3, y: 2 });
    assert_eq!(w.entities[0].blob.cell, GREEN);
    for i in 1..10 {
        let e = &w.entities[i];
        assert!(!e.player);
        assert_eq!(e.blob.cell, RED);
        assert!(0 <= e.blob.pos.x && e.blob.pos.x < 19);
        assert!(0 <= e.blob.pos.y && e.blob.pos.y < 7);
    }
}

#[test]
fn startup_then_update() {
    let mut s = Sim::new(20, 8);
    s.startup();
    assert_eq!(s.world.entities.len(), 10);
    assert_eq!(s.world.find_player(), Some(0));
    s.queue.push(Key::Char('w'));
    s.tick();
    assert_eq!(s.world.entities[0].blob.pos, Position { x: 3, y: 1 });
}
