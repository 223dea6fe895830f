use led_matrix::exchange::{BufferPool, Exchange, POOL_CAPACITY};
use led_matrix::image::{Color, Image};

#[test]
fn pool_grows_to_capacity_and_hands_buffers_out() {
    let mut pool = BufferPool::new();
    assert_eq!(POOL_CAPACITY, 3);
    assert_eq!(pool.available(), 3);
    let a = pool.allocate();
    let b = pool.allocate();
    assert_eq!(pool.available(), 1);
    pool.free(a);
    pool.free(b);
    assert_eq!(pool.available(), 3);
}

#[test]
fn startup_takes_current_and_receive_buffers() {
    let (ex, current, receive) = Exchange::new();
    assert!(!ex.has_pending());
    assert_eq!(ex.free_buffers(), 1);
    // both working buffers are usable full grids
    assert_eq!(current.get(8, 8), Color { r: 0, g: 0, b: 0 });
    assert_eq!(receive.get(1, 1), Color { r: 0, g: 0, b: 0 });
}

#[test]
fn publish_installs_frame_and_returns_gradient_buffer() {
    let (mut ex, _current, receive) = Exchange::new();
    let mut rx = receive;
    // pretend the decoder filled rx with a solid color
    for row in 1..=8 {
        for col in 1..=8 {
            rx.set(row, col, Color { r: 11, g: 22, b: 33 });
        }
    }
    ex.publish(&mut rx);
    assert!(ex.has_pending());
    assert_eq!(ex.pending_cell(5, 5), Some(Color { r: 11, g: 22, b: 33 }));
    assert_eq!(ex.free_buffers(), 0);
    // rx is now the fresh buffer, repainted as the blue gradient
    let expected = Image::gradient(Color { r: 0, g: 0, b: 255 });
    for row in 1..=8 {
        for col in 1..=8 {
            assert_eq!(rx.get(row, col), expected.get(row, col));
        }
    }
}

#[test]
fn second_publish_supersedes_first() {
    let (mut ex, _current, receive) = Exchange::new();
    let mut rx = receive;
    for row in 1..=8 {
        for col in 1..=8 {
            rx.set(row, col, Color { r: 1, g: 1, b: 1 });
        }
    }
    ex.publish(&mut rx);
    for row in 1..=8 {
        for col in 1..=8 {
            rx.set(row, col, Color { r: 2, g: 2, b: 2 });
        }
    }
    ex.publish(&mut rx);
    // newest wins
    assert_eq!(ex.pending_cell(1, 1), Some(Color { r: 2, g: 2, b: 2 }));
}

#[test]
fn swap_current_consumes_pending_and_recycles() {
    let (mut ex, current, receive) = Exchange::new();
    let mut rx = receive;
    let mut cur = current;
    for row in 1..=8 {
        for col in 1..=8 {
            rx.set(row, col, Color { r: 42, g: 0, b: 0 });
        }
    }
    ex.publish(&mut rx);
    assert_eq!(ex.free_buffers(), 0);
    ex.swap_current(&mut cur);
    assert!(!ex.has_pending());
    assert_eq!(cur.get(3, 7), Color { r: 42, g: 0, b: 0 });
    // the old current buffer went back to the pool
    assert_eq!(ex.free_buffers(), 1);
}

#[test]
fn swap_current_without_pending_changes_nothing() {
    let (mut ex, current, _receive) = Exchange::new();
    let mut cur = current;
    ex.swap_current(&mut cur);
    assert!(!ex.has_pending());
    assert_eq!(ex.free_buffers(), 1);
    assert_eq!(cur.get(1, 1), Color { r: 0, g: 0, b: 0 });
}
