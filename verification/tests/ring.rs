use sim_core::ring::SampleRing;

fn pushed(capacity: usize, count: u32) -> SampleRing<f32> {
    let mut ring = SampleRing::new(capacity, 0.0f32);
    for i in 0..count {
        ring.push(i as f32);
    }
    ring
}

#[test]
fn draining_returns_samples_in_order_and_empties_the_buffer() {
    let mut ring = pushed(64, 10);
    assert_eq!(ring.available(), 10);

    let mut first = vec![0.0f32; 4];
    assert_eq!(ring.drain(&mut first), 4);
    assert_eq!(ring.available(), 6);
    assert_eq!(first, vec![0.0, 1.0, 2.0, 3.0]);

    let mut rest = vec![0.0f32; 32];
    assert_eq!(ring.drain(&mut rest), 6);
    assert_eq!(ring.available(), 0);
    assert_eq!(&rest[..6], &[4.0, 5.0, 6.0, 7.0, 8.0, 9.0]);
    assert_eq!(ring.drain(&mut rest), 0, "an empty buffer yields nothing");
}

#[test]
fn overrunning_the_buffer_drops_the_oldest_samples_and_counts_them() {
    let ring = pushed(8, 20);
    assert_eq!(ring.available(), 8, "capacity is the ceiling");
    assert_eq!(ring.dropped(), 12);
}

#[test]
fn an_overrun_ring_keeps_the_newest_samples_in_order() {
    let mut ring = pushed(8, 20);
    let mut out = vec![-1.0f32; 10];
    assert_eq!(ring.drain(&mut out), 8);
    assert_eq!(&out[..8], &[12.0, 13.0, 14.0, 15.0, 16.0, 17.0, 18.0, 19.0]);
    assert_eq!(&out[8..], &[-1.0, -1.0], "slots past the count are untouched");
}

#[test]
fn reset_empties_the_ring_and_forgets_the_drops() {
    let mut ring = pushed(32, 40);
    assert_eq!(ring.dropped(), 8);
    ring.reset(0.0);
    assert_eq!(ring.available(), 0);
    assert_eq!(ring.dropped(), 0);
    assert_eq!(ring.capacity_len(), 32);
}

#[test]
fn a_zero_capacity_request_still_holds_one_sample() {
    let mut ring = SampleRing::new(0, 0u8);
    assert_eq!(ring.capacity_len(), 1);
    ring.push(7);
    ring.push(9);
    assert_eq!(ring.available(), 1);
    assert_eq!(ring.dropped(), 1);
    let mut out = [0u8; 2];
    assert_eq!(ring.drain(&mut out), 1);
    assert_eq!(out[0], 9);
}

#[test]
fn interleaved_pushes_and_drains_wrap_around_the_storage() {
    let mut ring = SampleRing::new(3, 0u32);
    let mut out = [0u32; 2];
    ring.push(1);
    ring.push(2);
    assert_eq!(ring.drain(&mut out), 2);
    assert_eq!(out, [1, 2]);
    ring.push(3);
    ring.push(4);
    ring.push(5);
    ring.push(6);
    assert_eq!(ring.dropped(), 1);
    let mut all = [0u32; 3];
    assert_eq!(ring.drain(&mut all), 3);
    assert_eq!(all, [4, 5, 6]);
}
