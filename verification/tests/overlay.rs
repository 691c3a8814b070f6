use trigger_overlay::points::to_points;
use trigger_overlay::points::channel_points;
use trigger_overlay::ring::SampleBuffer;
use trigger_overlay::sampler::prefilled_buffer;
use trigger_overlay::sampler::Sampler;
use trigger_overlay::SAMPLE_SCALE;
use trigger_overlay::WINDOW_SIZE;

#[test]
fn window_invariant_after_prefill_and_ticks() {
    let mut left = prefilled_buffer();
    let mut right = prefilled_buffer();
    let mut sampler = Sampler::new();
    assert_eq!(left.snapshot().len(), WINDOW_SIZE);
    assert_eq!(right.snapshot().len(), WINDOW_SIZE);
    for i in 0..1000u32 {
        let reading = if i % 3 == 0 { Some(i % SAMPLE_SCALE) } else { None };
        sampler.tick(&mut left, &mut right, reading, None);
        assert_eq!(left.snapshot().len(), WINDOW_SIZE);
        assert_eq!(right.snapshot().len(), WINDOW_SIZE);
    }
}

#[test]
fn overwrite_keeps_last_capacity_values_in_push_order() {
    let mut buf = SampleBuffer::with_capacity(3);
    for v in [1u32, 2, 3, 4, 5] {
        buf.push(v);
    }
    assert_eq!(buf.snapshot(), vec![3u32, 4, 5]);
    assert_eq!(buf.len(), 3);
    assert_eq!(buf.capacity(), 3);
}

#[test]
fn overwrite_with_exactly_capacity_values() {
    let mut buf = SampleBuffer::with_capacity(3);
    for v in [7u32, 8, 9] {
        buf.push(v);
    }
    assert_eq!(buf.snapshot(), vec![7u32, 8, 9]);
}

#[test]
fn buffer_fills_gradually_below_capacity() {
    let mut buf = SampleBuffer::with_capacity(4);
    assert_eq!(buf.snapshot(), Vec::<u32>::new());
    buf.push(11);
    assert_eq!(buf.snapshot(), vec![11u32]);
    buf.push(22);
    assert_eq!(buf.snapshot(), vec![11u32, 22]);
    assert_eq!(buf.len(), 2);
    assert_eq!(buf.capacity(), 4);
}

#[test]
fn capacity_one_always_holds_newest() {
    let mut buf = SampleBuffer::with_capacity(1);
    buf.push(5);
    buf.push(6);
    buf.push(7);
    assert_eq!(buf.snapshot(), vec![7u32]);
}

#[test]
fn carry_forward_advances_silent_channel_with_cached_value() {
    let mut left = SampleBuffer::with_capacity(4);
    let mut right = SampleBuffer::with_capacity(4);
    let mut sampler = Sampler::new();
    // Tick 1: both channels report.
    sampler.tick(&mut left, &mut right, Some(100), Some(200));
    // Tick 2: only the left channel reports; the right must advance with its
    // cached previous value, 200, not stall at a shorter length.
    sampler.tick(&mut left, &mut right, Some(150), None);
    let right_snapshot = right.snapshot();
    assert_eq!(right_snapshot.len(), left.snapshot().len());
    assert_eq!(*right_snapshot.last().unwrap(), 200);
    assert_eq!(left.snapshot(), vec![100u32, 150]);
    assert_eq!(right_snapshot, vec![200u32, 200]);
}

#[test]
fn carry_forward_on_timeout_holds_both_channels() {
    let mut left = SampleBuffer::with_capacity(4);
    let mut right = SampleBuffer::with_capacity(4);
    let mut sampler = Sampler::new();
    sampler.tick(&mut left, &mut right, Some(300), Some(400));
    // No event before the timeout: both channels repeat their last values.
    sampler.tick(&mut left, &mut right, None, None);
    assert_eq!(left.snapshot(), vec![300u32, 300]);
    assert_eq!(right.snapshot(), vec![400u32, 400]);
}

#[test]
fn coordinate_mapping_formula_and_endpoints() {
    let snapshot = vec![0u32, 250_000, 500_000, 750_000, 1_000_000];
    let pts = to_points(&snapshot);
    assert_eq!(pts.len(), 5);
    for (i, p) in pts.iter().enumerate() {
        assert_eq!(p.x, (5 - i - 1) as u64);
        assert_eq!(p.y, u64::from(snapshot[i]) * 100);
    }
    // Oldest sample renders rightmost, newest leftmost: time right to left.
    assert_eq!(pts[0].x, 4);
    assert_eq!(pts[0].y, 0);
    assert_eq!(pts[4].x, 0);
    assert_eq!(pts[4].y, 100_000_000);
    // In display units: a full pull plots at 100.0.
    assert_eq!(pts[4].y as f64 / f64::from(SAMPLE_SCALE), 100.0);
}

#[test]
fn coordinate_mapping_of_empty_snapshot_is_empty() {
    let snapshot: Vec<u32> = Vec::new();
    assert_eq!(to_points(&snapshot).len(), 0);
}

#[test]
fn no_device_keeps_buffers_at_initial_zeros() {
    // No connected device: no event ever arrives, so every tick carries the
    // initial zero value forward and the windows stay all-zero.
    let mut left = prefilled_buffer();
    let mut right = prefilled_buffer();
    let mut sampler = Sampler::new();
    for _ in 0..600 {
        sampler.tick(&mut left, &mut right, None, None);
    }
    let ls = left.snapshot();
    let rs = right.snapshot();
    assert_eq!(ls.len(), WINDOW_SIZE);
    assert_eq!(rs.len(), WINDOW_SIZE);
    assert!(ls.iter().all(|&v| v == 0));
    assert!(rs.iter().all(|&v| v == 0));
}

#[test]
fn interleaved_pushes_and_snapshots_keep_window_size() {
    let mut left = prefilled_buffer();
    let mut right = prefilled_buffer();
    let mut sampler = Sampler::new();
    for i in 0..200u32 {
        sampler.tick(&mut left, &mut right, Some(i * 1000), Some(i * 2000));
        let ls = left.snapshot();
        let rs = right.snapshot();
        assert_eq!(ls.len(), WINDOW_SIZE);
        assert_eq!(rs.len(), WINDOW_SIZE);
        assert_eq!(*ls.last().unwrap(), i * 1000);
        assert_eq!(*rs.last().unwrap(), i * 2000);
    }
}

#[test]
fn end_to_end_window_push_and_newest_point() {
    // Push zero 501 times onto a 500-slot window: length 500, all zeros.
    let mut buf = SampleBuffer::with_capacity(WINDOW_SIZE);
    for _ in 0..=WINDOW_SIZE {
        buf.push(0);
    }
    let snapshot = buf.snapshot();
    assert_eq!(snapshot.len(), 500);
    assert!(snapshot.iter().all(|&v| v == 0));

    // Push 0.75 once: still 500 elements, newest is 0.75, a zero evicted.
    buf.push(750_000);
    let snapshot = buf.snapshot();
    assert_eq!(snapshot.len(), 500);
    assert_eq!(*snapshot.last().unwrap(), 750_000);
    assert!(snapshot[..499].iter().all(|&v| v == 0));

    // The newest sample (index 499) plots at x = 0, y = 75.0 display units.
    let pts = channel_points(&buf);
    assert_eq!(pts.len(), 500);
    assert_eq!(pts[499].x, 0);
    assert_eq!(pts[499].y, 75_000_000);
    assert_eq!(pts[499].y as f64 / f64::from(SAMPLE_SCALE), 75.0);
    assert_eq!(pts[0].x, 499);
}

#[test]
fn prefilled_buffer_matches_direct_fill() {
    let buf = prefilled_buffer();
    assert_eq!(buf.capacity(), WINDOW_SIZE);
    let snapshot = buf.snapshot();
    assert_eq!(snapshot.len(), WINDOW_SIZE);
    assert!(snapshot.iter().all(|&v| v == 0));
}
