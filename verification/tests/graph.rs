use cell_spinner::enums::StepMode128;
use cell_spinner::graph::{Graph, MotionPoint, ProfileBuffer, ProfileSampler, StepOutcome};
use cell_spinner::limits::MAX_POINTS_GRAPHS;
use cell_spinner::protocols::Rotation;

fn axis(duration_ms: u64) -> Rotation {
    Rotation { duration_of_one_direction_cycle_ms: duration_ms, ..Rotation::default() }
}

#[test]
fn rpm_of_a_sample() {
    // one full step every 300 microseconds: 60_000_000 / 300 = 200_000
    let point = MotionPoint { elapsed_us: 0, delay_us: 299 };
    assert_eq!(point.get_rpm(StepMode128::Full), 200_000);
    assert_eq!(point.get_rpm(StepMode128::M2), 100_000);
    assert_eq!(point.get_rpm(StepMode128::M128), 1_562);
    let point = MotionPoint { elapsed_us: 0, delay_us: 0 };
    assert_eq!(point.get_rpm(StepMode128::Full), 60_000_000);
    let point = MotionPoint { elapsed_us: 0, delay_us: 59_999_999 };
    assert_eq!(point.get_rpm(StepMode128::Full), 1);
    assert_eq!(point.get_rpm(StepMode128::M2), 0);
    let point = MotionPoint { elapsed_us: 0, delay_us: 60_000_000 };
    assert_eq!(point.get_rpm(StepMode128::Full), 0);
    let point = MotionPoint { elapsed_us: 0, delay_us: u64::MAX };
    assert_eq!(point.get_rpm(StepMode128::M128), 0);
}

#[test]
fn new_worker() {
    let worker = ProfileSampler::new(7, &axis(2_000));
    assert_eq!(worker.generation, 7);
    assert_eq!(worker.threshold_us, 20_000);
    assert_eq!(worker.elapsed_us, 0);
    assert_eq!(worker.since_sample_us, 0);
    assert_eq!(worker.last_delay_us, None);
    let worker = ProfileSampler::new(0, &axis(u64::MAX));
    assert_eq!(worker.threshold_us, u64::MAX);
}

#[test]
fn empty_curve() {
    let buffer = ProfileBuffer::new();
    assert_eq!(buffer.len(), 0);
    assert_eq!(buffer.generation(), 0);
    assert!(!buffer.is_generating());
    assert!(!buffer.is_truncated());
    let graph = Graph::default();
    assert_eq!(graph.rotation.len(), 0);
    assert_eq!(graph.agitation.len(), 0);
}

#[test]
fn ramp_is_sampled_at_every_change_of_speed() {
    let mut buffer = ProfileBuffer::new();
    let generation = buffer.regenerate();
    assert_eq!(generation, 1);
    assert!(buffer.is_generating());
    let mut worker = ProfileSampler::new(generation, &axis(1_000));
    let delays = [1_000u64, 800, 600, 500];
    for delay in delays.iter() {
        assert_eq!(buffer.record(&mut worker, *delay), StepOutcome::Sampled);
    }
    assert_eq!(
        buffer.points(),
        &vec![
            MotionPoint { elapsed_us: 0, delay_us: 1_000 },
            MotionPoint { elapsed_us: 1_000, delay_us: 800 },
            MotionPoint { elapsed_us: 1_800, delay_us: 600 },
            MotionPoint { elapsed_us: 2_400, delay_us: 500 },
        ]
    );
    assert_eq!(worker.elapsed_us, 2_900);
    assert_eq!(worker.last_delay_us, Some(500));
    assert_eq!(worker.since_sample_us, 500);
}

#[test]
fn constant_speed_is_sampled_once_per_threshold() {
    let mut buffer = ProfileBuffer::new();
    let generation = buffer.regenerate();
    // a cycle of 100 ms: one sample per 1000 microseconds at constant speed
    let mut worker = ProfileSampler::new(generation, &axis(100));
    assert_eq!(worker.threshold_us, 1_000);
    let mut outcomes = Vec::new();
    for _ in 0..12 {
        outcomes.push(buffer.record(&mut worker, 250));
    }
    assert_eq!(
        outcomes,
        vec![
            StepOutcome::Sampled, // the first step always differs from nothing
            StepOutcome::Skipped,
            StepOutcome::Skipped,
            StepOutcome::Skipped,
            StepOutcome::Sampled, // 1000 microseconds have passed
            StepOutcome::Skipped,
            StepOutcome::Skipped,
            StepOutcome::Skipped,
            StepOutcome::Sampled,
            StepOutcome::Skipped,
            StepOutcome::Skipped,
            StepOutcome::Skipped,
        ]
    );
    assert_eq!(
        buffer.points(),
        &vec![
            MotionPoint { elapsed_us: 0, delay_us: 250 },
            MotionPoint { elapsed_us: 1_000, delay_us: 250 },
            MotionPoint { elapsed_us: 2_000, delay_us: 250 },
        ]
    );
    assert_eq!(worker.elapsed_us, 3_000);
}

#[test]
fn every_sample_restarts_the_clock() {
    let mut buffer = ProfileBuffer::new();
    let generation = buffer.regenerate();
    // a cycle of 100 ms: at constant speed one sample per 1000 microseconds
    let mut worker = ProfileSampler::new(generation, &axis(100));
    assert_eq!(buffer.record(&mut worker, 600), StepOutcome::Sampled);
    assert_eq!(buffer.record(&mut worker, 500), StepOutcome::Sampled);
    assert_eq!(worker.since_sample_us, 500);
    // same speed, 500 microseconds after the last sample: too early
    assert_eq!(buffer.record(&mut worker, 500), StepOutcome::Skipped);
    assert_eq!(worker.since_sample_us, 1_000);
    // same speed, 1000 microseconds after the last sample
    assert_eq!(buffer.record(&mut worker, 500), StepOutcome::Sampled);
    assert_eq!(worker.since_sample_us, 500);
    assert_eq!(buffer.record(&mut worker, 500), StepOutcome::Skipped);
    assert_eq!(
        buffer.points(),
        &vec![
            MotionPoint { elapsed_us: 0, delay_us: 600 },
            MotionPoint { elapsed_us: 600, delay_us: 500 },
            MotionPoint { elapsed_us: 1_600, delay_us: 500 },
        ]
    );
}

#[test]
fn neighbouring_samples_differ_in_speed_or_lie_a_threshold_apart() {
    let mut buffer = ProfileBuffer::new();
    let generation = buffer.regenerate();
    let mut worker = ProfileSampler::new(generation, &axis(100));
    let threshold = worker.threshold_us;
    // a ramp up, a plateau, a ramp down, a second plateau
    let mut delays: Vec<u64> = Vec::new();
    for k in 0..40u64 {
        delays.push(900 - 10 * k);
    }
    for _ in 0..30 {
        delays.push(500);
    }
    for k in 0..40u64 {
        delays.push(510 + 10 * k);
    }
    for _ in 0..30 {
        delays.push(900);
    }
    let mut elapsed = 0u64;
    let mut steps = 0u64;
    for delay in delays.iter() {
        steps += 1;
        let before = buffer.len();
        let outcome = buffer.record(&mut worker, *delay);
        if outcome == StepOutcome::Sampled {
            assert_eq!(buffer.len(), before + 1);
            assert_eq!(buffer.points()[before], MotionPoint { elapsed_us: elapsed, delay_us: *delay });
        } else {
            assert_eq!(outcome, StepOutcome::Skipped);
            assert_eq!(buffer.len(), before);
        }
        elapsed += *delay;
    }
    assert_eq!(steps, 140);
    assert_eq!(worker.elapsed_us, elapsed);
    let points = buffer.points();
    assert_eq!(points[0].elapsed_us, 0);
    for pair in points.windows(2) {
        assert!(pair[0].elapsed_us <= pair[1].elapsed_us);
        assert!(
            pair[0].delay_us != pair[1].delay_us
                || pair[1].elapsed_us - pair[0].elapsed_us >= threshold
        );
    }
    // every change of speed is in the curve
    let changes = delays.windows(2).filter(|w| w[0] != w[1]).count() + 1;
    assert!(points.len() >= changes);
}

#[test]
fn second_regenerate_shuts_out_the_first_worker() {
    let mut buffer = ProfileBuffer::new();
    let first = buffer.regenerate();
    let mut first_worker = ProfileSampler::new(first, &axis(1_000));
    assert_eq!(buffer.record(&mut first_worker, 900), StepOutcome::Sampled);
    assert_eq!(buffer.record(&mut first_worker, 800), StepOutcome::Sampled);
    assert_eq!(buffer.len(), 2);

    let second = buffer.regenerate();
    assert!(second != first);
    assert_eq!(buffer.len(), 0);
    let mut second_worker = ProfileSampler::new(second, &axis(1_000));

    // the two workers now race; only the second one leaves samples
    let stale_before = first_worker;
    assert_eq!(buffer.record(&mut first_worker, 700), StepOutcome::Stale);
    assert_eq!(first_worker, stale_before);
    assert_eq!(buffer.record(&mut second_worker, 111), StepOutcome::Sampled);
    assert_eq!(buffer.record(&mut first_worker, 600), StepOutcome::Stale);
    assert_eq!(buffer.record(&mut second_worker, 222), StepOutcome::Sampled);
    buffer.finish(&first_worker);
    assert!(buffer.is_generating());
    assert_eq!(
        buffer.points(),
        &vec![
            MotionPoint { elapsed_us: 0, delay_us: 111 },
            MotionPoint { elapsed_us: 111, delay_us: 222 },
        ]
    );
    assert_eq!(buffer.generation(), second);
    buffer.finish(&second_worker);
    assert!(!buffer.is_generating());
}

#[test]
fn worker_without_a_request_is_turned_away() {
    let mut buffer = ProfileBuffer::new();
    let mut worker = ProfileSampler::new(5, &axis(1_000));
    assert_eq!(buffer.record(&mut worker, 100), StepOutcome::Stale);
    assert_eq!(buffer.len(), 0);
    assert_eq!(worker.elapsed_us, 0);
}

#[test]
fn curve_never_grows_past_the_ceiling() {
    let mut buffer = ProfileBuffer::new();
    let generation = buffer.regenerate();
    let mut worker = ProfileSampler::new(generation, &axis(0));
    // with a threshold of zero every step is due for a sample
    for k in 0..(MAX_POINTS_GRAPHS as u64) {
        assert_eq!(buffer.record(&mut worker, 1 + (k % 2)), StepOutcome::Sampled);
    }
    assert_eq!(buffer.len(), MAX_POINTS_GRAPHS);
    assert!(!buffer.is_truncated());
    let remembered = worker.last_delay_us;
    for k in 0..1_000u64 {
        assert_eq!(buffer.record(&mut worker, 5 + k), StepOutcome::Full);
        assert_eq!(buffer.len(), MAX_POINTS_GRAPHS);
    }
    assert!(buffer.is_truncated());
    assert_eq!(worker.last_delay_us, remembered);
    // asking anew makes room again
    let next = buffer.regenerate();
    assert_eq!(next, generation + 1);
    assert_eq!(buffer.len(), 0);
    assert!(!buffer.is_truncated());
}

#[test]
fn elapsed_time_is_held_at_the_top() {
    let mut buffer = ProfileBuffer::new();
    let generation = buffer.regenerate();
    let mut worker = ProfileSampler::new(generation, &axis(10));
    assert_eq!(buffer.record(&mut worker, u64::MAX - 5), StepOutcome::Sampled);
    assert_eq!(buffer.record(&mut worker, 10), StepOutcome::Sampled);
    assert_eq!(worker.elapsed_us, u64::MAX);
    assert_eq!(worker.since_sample_us, 10);
    assert_eq!(buffer.points()[1], MotionPoint { elapsed_us: u64::MAX - 5, delay_us: 10 });
}

#[test]
fn copy_of_a_curve() {
    let mut buffer = ProfileBuffer::new();
    let generation = buffer.regenerate();
    let mut worker = ProfileSampler::new(generation, &axis(10));
    buffer.record(&mut worker, 40);
    buffer.record(&mut worker, 30);
    let copy = buffer.duplicate();
    assert_eq!(copy.points(), buffer.points());
    assert_eq!(copy.generation(), buffer.generation());
    assert_eq!(copy.is_generating(), buffer.is_generating());
    assert_eq!(copy.is_truncated(), buffer.is_truncated());
}

#[test]
fn speed_at_a_time_into_the_cycle() {
    let mut buffer = ProfileBuffer::new();
    assert_eq!(buffer.point_at(0), None);
    let generation = buffer.regenerate();
    let mut worker = ProfileSampler::new(generation, &axis(1_000));
    for delay in [1_000u64, 800, 600, 500].iter() {
        buffer.record(&mut worker, *delay);
    }
    // samples at 0, 1000, 1800 and 2400 microseconds
    assert_eq!(buffer.point_at(0), Some(MotionPoint { elapsed_us: 0, delay_us: 1_000 }));
    assert_eq!(buffer.point_at(1), Some(MotionPoint { elapsed_us: 1_000, delay_us: 800 }));
    assert_eq!(buffer.point_at(1_000), Some(MotionPoint { elapsed_us: 1_000, delay_us: 800 }));
    assert_eq!(buffer.point_at(1_001), Some(MotionPoint { elapsed_us: 1_800, delay_us: 600 }));
    assert_eq!(buffer.point_at(2_400), Some(MotionPoint { elapsed_us: 2_400, delay_us: 500 }));
    assert_eq!(buffer.point_at(2_401), None);
}
