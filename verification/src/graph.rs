//! The speed curve of an axis, sampled from the delays between its steps.
//!
//! A worker asks the step generator for one delay after the other and offers
//! each to the curve of its axis. The curve keeps a sample where the speed
//! changed and, while the speed is constant, one sample per hundredth of the
//! direction cycle. Each request for a new curve gets a generation number; a
//! worker of an earlier generation is turned away and cannot touch the curve.

use vstd::prelude::*;
use crate::enums::StepMode128;
use crate::limits::MAX_POINTS_GRAPHS;
use crate::protocols::Rotation;

verus! {

/// Microseconds in one minute: a step every `d` microseconds is
/// `MICROS_PER_MINUTE / d` steps per minute.
pub const MICROS_PER_MINUTE: u64 = 60_000_000;

/// Samples kept per direction cycle while the speed is constant.
pub const SAMPLES_PER_CYCLE: u64 = 100;

/// One sample of a speed curve: a step made `elapsed_us` microseconds after
/// the start of the cycle, `delay_us` microseconds before the next one.
#[derive(Debug, Copy, Clone, PartialEq, Eq, Structural)]
pub struct MotionPoint {
    pub elapsed_us: u64,
    pub delay_us: u64,
}

impl MotionPoint {
    /// Speed at the sample, rounded down to whole units: steps per minute at
    /// one step per `delay_us + 1` microseconds, divided by the microsteps
    /// per step.
    pub open spec fn rpm(self, mode: StepMode128) -> nat {
        MICROS_PER_MINUTE as nat / (mode.divisor() * (self.delay_us + 1)) as nat
    }

    /// Speed at the sample, rounded down.
    pub fn get_rpm(&self, mode: StepMode128) -> (rpm: u64)
        ensures
            rpm as nat == self.rpm(mode),
    {
        let multiplier: u64 = mode.get_multiplier() as u64;
        if self.delay_us >= MICROS_PER_MINUTE {
            assert(self.rpm(mode) == 0) by {
                let d = (mode.divisor() * (self.delay_us + 1)) as int;
                assert(d > 60_000_000);
                vstd::arithmetic::div_mod::lemma_basic_div(60_000_000, d);
            }
            0
        } else {
            assert(multiplier * (self.delay_us + 1) <= 128 * 60_000_000) by (nonlinear_arith)
                requires
                    1 <= multiplier <= 128,
                    self.delay_us + 1 <= 60_000_000,
            ;
            MICROS_PER_MINUTE / (multiplier * (self.delay_us + 1))
        }
    }
}

/// At a given microstepping mode two delays stand for the same speed only if
/// they are the same delay: the exact speeds `MICROS_PER_MINUTE / (m * (d +
/// 1))` are compared here by cross-multiplication.
pub proof fn lemma_speed_follows_delay(mode: StepMode128, first_delay: u64, second_delay: u64)
    ensures
        (MICROS_PER_MINUTE * (mode.divisor() * (second_delay + 1)) == MICROS_PER_MINUTE * (
        mode.divisor() * (first_delay + 1))) <==> first_delay == second_delay,
{
    let m = mode.divisor() as int;
    assert(1 <= m <= 128);
    let a = first_delay + 1;
    let b = second_delay + 1;
    if first_delay != second_delay {
        assert(m * a != m * b) by (nonlinear_arith)
            requires
                m >= 1,
                a != b,
        ;
    }
}

/// What a worker remembers between two steps.
#[derive(Debug, Copy, Clone, PartialEq, Eq, Structural)]
pub struct ProfileSampler {
    /// Generation of the curve that the worker computes.
    pub generation: u64,
    /// Time without a sample after which a constant speed is sampled again.
    pub threshold_us: u64,
    /// Sum of the delays of the steps taken so far.
    pub elapsed_us: u64,
    /// Sum of the delays since the last sample was taken.
    pub since_sample_us: u64,
    /// Delay of the last sample taken.
    pub last_delay_us: Option<u64>,
}

/// Sum of two times, held at `u64::MAX`.
pub open spec fn add_held(a: u64, b: u64) -> u64 {
    if a + b <= u64::MAX {
        (a + b) as u64
    } else {
        u64::MAX
    }
}

fn add_holding(a: u64, b: u64) -> (sum: u64)
    ensures
        sum == add_held(a, b),
{
    if a > u64::MAX - b {
        u64::MAX
    } else {
        a + b
    }
}

impl ProfileSampler {
    /// The time between two samples at constant speed for a direction cycle
    /// of `duration_ms`: a hundredth of the cycle, in microseconds.
    pub open spec fn threshold(duration_ms: u64) -> u64 {
        if duration_ms * 1000 / SAMPLES_PER_CYCLE as int <= u64::MAX {
            (duration_ms * 1000 / SAMPLES_PER_CYCLE as int) as u64
        } else {
            u64::MAX
        }
    }

    /// A worker that has taken no step yet.
    pub open spec fn fresh(generation: u64, duration_ms: u64) -> ProfileSampler {
        ProfileSampler {
            generation,
            threshold_us: ProfileSampler::threshold(duration_ms),
            elapsed_us: 0,
            since_sample_us: 0,
            last_delay_us: None,
        }
    }

    /// The speed of a step with this delay differs from the speed last
    /// sampled.
    pub open spec fn speed_changed(self, delay_us: u64) -> bool {
        self.last_delay_us != Some(delay_us)
    }

    /// A step with this delay is to be sampled: its speed differs from the
    /// one last sampled, or the threshold has passed since the last sample.
    pub open spec fn sample_due(self, delay_us: u64) -> bool {
        self.speed_changed(delay_us) || self.since_sample_us >= self.threshold_us
    }

    /// The sample that a step with this delay gives.
    pub open spec fn sample(self, delay_us: u64) -> MotionPoint {
        MotionPoint { elapsed_us: self.elapsed_us, delay_us }
    }

    /// The worker after a step with this delay. `room` says whether the
    /// curve could still take a sample; where it could not, the worker
    /// remembers nothing of the step but the time it took. A step that is
    /// sampled becomes the last sample, and the time since the last sample
    /// starts again with it.
    pub open spec fn after_step(self, delay_us: u64, room: bool) -> ProfileSampler {
        let sampled = room && self.sample_due(delay_us);
        ProfileSampler {
            last_delay_us: if sampled {
                Some(delay_us)
            } else {
                self.last_delay_us
            },
            since_sample_us: add_held(
                if sampled {
                    0
                } else {
                    self.since_sample_us
                },
                delay_us,
            ),
            elapsed_us: add_held(self.elapsed_us, delay_us),
            ..self
        }
    }

    /// A worker for the given generation of the curve of an axis.
    pub fn new(generation: u64, rotation: &Rotation) -> (sampler: Self)
        ensures
            sampler == ProfileSampler::fresh(
                generation,
                rotation.duration_of_one_direction_cycle_ms,
            ),
    {
        let duration_ms = rotation.duration_of_one_direction_cycle_ms;
        // 1000 microseconds per millisecond over SAMPLES_PER_CYCLE samples
        let threshold_us: u64 = if duration_ms > u64::MAX / 10 {
            u64::MAX
        } else {
            duration_ms * 10
        };
        ProfileSampler {
            generation,
            threshold_us,
            elapsed_us: 0,
            since_sample_us: 0,
            last_delay_us: None,
        }
    }
}

/// What became of a step offered to a curve.
#[derive(Debug, Copy, Clone, PartialEq, Eq, Structural)]
pub enum StepOutcome {
    /// The curve has been asked for anew since the worker began: the worker
    /// must stop. Nothing was changed.
    Stale,
    /// The step was sampled.
    Sampled,
    /// The step needed no sample.
    Skipped,
    /// The step was due for a sample but the curve is full.
    Full,
}

/// The curve of one axis as contracts see it.
pub struct ProfileView {
    pub points: Seq<MotionPoint>,
    pub generation: u64,
    /// A worker of the current generation is at work.
    pub generating: bool,
    /// A sample was dropped because the curve was full.
    pub truncated: bool,
}

impl ProfileView {
    /// An empty curve that nobody has asked for yet.
    pub open spec fn empty() -> ProfileView {
        ProfileView { points: Seq::empty(), generation: 0, generating: false, truncated: false }
    }

    /// The generation that follows; after `u64::MAX` it starts again at zero.
    pub open spec fn next_generation(self) -> u64 {
        if self.generation == u64::MAX {
            0
        } else {
            (self.generation + 1) as u64
        }
    }

    /// The curve after it was asked for anew: empty, one generation later.
    pub open spec fn regenerated(self) -> ProfileView {
        ProfileView {
            points: Seq::empty(),
            generation: self.next_generation(),
            generating: true,
            truncated: false,
        }
    }

    /// The curve holds no more samples than a curve may hold. This is true of
    /// an empty curve and stays true whatever is done to a curve.
    pub open spec fn within_ceiling(self) -> bool {
        self.points.len() <= MAX_POINTS_GRAPHS
    }

    /// The sample at `place` is the first one taken at or after a time.
    pub open spec fn is_first_from(self, elapsed_us: u64, place: int) -> bool {
        &&& 0 <= place < self.points.len()
        &&& self.points[place].elapsed_us >= elapsed_us
        &&& forall|k: int| 0 <= k < place ==> (#[trigger] self.points[k]).elapsed_us < elapsed_us
    }

    /// Every sample was taken before a time.
    pub open spec fn ends_before(self, elapsed_us: u64) -> bool {
        forall|k: int|
            0 <= k < self.points.len() ==> (#[trigger] self.points[k]).elapsed_us < elapsed_us
    }

    /// Of two neighbouring samples the later one has another delay than the
    /// earlier one, or was taken at least `threshold_us` after it, or at the
    /// time `u64::MAX`, at which times are held. It was never taken before
    /// the earlier one.
    pub open spec fn apart(earlier: MotionPoint, later: MotionPoint, threshold_us: u64) -> bool {
        &&& earlier.elapsed_us <= later.elapsed_us
        &&& later.delay_us != earlier.delay_us || later.elapsed_us - earlier.elapsed_us
            >= threshold_us || later.elapsed_us == u64::MAX
    }

    /// Every sample but the first is apart from the one before it.
    pub open spec fn is_spaced(self, threshold_us: u64) -> bool {
        forall|i: int|
            0 <= i && i + 1 < self.points.len() ==> ProfileView::apart(
                #[trigger] self.points[i],
                self.points[i + 1],
                threshold_us,
            )
    }

    /// The worker is the one that has filled the curve so far: it works for
    /// the generation of the curve, remembers the delay of the last sample
    /// of the curve, and its time is the time of that sample and the time
    /// that it has counted since.
    pub open spec fn in_step_with(self, worker: ProfileSampler) -> bool {
        &&& worker.generation == self.generation
        &&& if self.points.len() == 0 {
            worker.last_delay_us is None
        } else {
            &&& worker.last_delay_us == Some(self.points.last().delay_us)
            &&& worker.elapsed_us == add_held(self.points.last().elapsed_us, worker.since_sample_us)
        }
    }

    /// The curve can still take a sample.
    pub open spec fn has_room(self) -> bool {
        self.points.len() < MAX_POINTS_GRAPHS
    }

    /// What becomes of a step with this delay offered by this worker.
    pub open spec fn outcome(self, worker: ProfileSampler, delay_us: u64) -> StepOutcome {
        if worker.generation != self.generation {
            StepOutcome::Stale
        } else if !worker.sample_due(delay_us) {
            StepOutcome::Skipped
        } else if self.has_room() {
            StepOutcome::Sampled
        } else {
            StepOutcome::Full
        }
    }

    /// The curve after this worker offered a step with this delay.
    pub open spec fn after_step(self, worker: ProfileSampler, delay_us: u64) -> ProfileView {
        match self.outcome(worker, delay_us) {
            StepOutcome::Sampled => ProfileView {
                points: self.points.push(worker.sample(delay_us)),
                ..self
            },
            StepOutcome::Full => ProfileView { truncated: true, ..self },
            _ => self,
        }
    }

    /// The worker after it offered a step with this delay to this curve.
    pub open spec fn worker_after_step(
        self,
        worker: ProfileSampler,
        delay_us: u64,
    ) -> ProfileSampler {
        if worker.generation != self.generation {
            worker
        } else {
            worker.after_step(delay_us, self.has_room())
        }
    }

    /// The curve and the worker after the worker offered steps with these
    /// delays, one after the other.
    pub open spec fn run(self, worker: ProfileSampler, delays: Seq<u64>) -> (
        ProfileView,
        ProfileSampler,
    )
        decreases delays.len(),
    {
        if delays.len() == 0 {
            (self, worker)
        } else {
            let (curve, moved) = self.run(worker, delays.drop_last());
            (
                curve.after_step(moved, delays.last()),
                curve.worker_after_step(moved, delays.last()),
            )
        }
    }

    /// The curve and two workers after the two offered steps in any order.
    /// Each step is a delay, marked `true` where the first worker offers it
    /// and `false` where the second does.
    pub open spec fn race(
        self,
        first: ProfileSampler,
        second: ProfileSampler,
        steps: Seq<(bool, u64)>,
    ) -> (ProfileView, ProfileSampler, ProfileSampler)
        decreases steps.len(),
    {
        if steps.len() == 0 {
            (self, first, second)
        } else {
            let (curve, one, other) = self.race(first, second, steps.drop_last());
            let (by_first, delay_us) = steps.last();
            if by_first {
                (curve.after_step(one, delay_us), curve.worker_after_step(one, delay_us), other)
            } else {
                (curve.after_step(other, delay_us), one, curve.worker_after_step(other, delay_us))
            }
        }
    }

    /// The delays of the steps that the first worker offers in a race, in
    /// their order.
    pub open spec fn delays_of_first(steps: Seq<(bool, u64)>) -> Seq<u64>
        decreases steps.len(),
    {
        if steps.len() == 0 {
            Seq::empty()
        } else if steps.last().0 {
            ProfileView::delays_of_first(steps.drop_last()).push(steps.last().1)
        } else {
            ProfileView::delays_of_first(steps.drop_last())
        }
    }

    /// The curve after this worker said that it is done.
    pub open spec fn finished(self, worker: ProfileSampler) -> ProfileView {
        if worker.generation == self.generation {
            ProfileView { generating: false, ..self }
        } else {
            self
        }
    }
}

/// The curve of one axis.
#[derive(Debug, Clone)]
pub struct ProfileBuffer {
    points: Vec<MotionPoint>,
    generation: u64,
    generating: bool,
    truncated: bool,
}

impl View for ProfileBuffer {
    type V = ProfileView;

    closed spec fn view(&self) -> ProfileView {
        ProfileView {
            points: self.points@,
            generation: self.generation,
            generating: self.generating,
            truncated: self.truncated,
        }
    }
}

impl ProfileBuffer {
    /// An empty curve.
    pub fn new() -> (buffer: Self)
        ensures
            buffer@ == ProfileView::empty(),
            buffer@.within_ceiling(),
    {
        ProfileBuffer { points: Vec::new(), generation: 0, generating: false, truncated: false }
    }

    /// Number of samples in the curve.
    pub fn len(&self) -> (n: usize)
        ensures
            n == self@.points.len(),
    {
        self.points.len()
    }

    /// The samples of the curve, oldest first.
    pub fn points(&self) -> (points: &Vec<MotionPoint>)
        ensures
            points@ == self@.points,
    {
        &self.points
    }

    /// Generation of the samples in the curve.
    pub fn generation(&self) -> (generation: u64)
        ensures
            generation == self@.generation,
    {
        self.generation
    }

    /// Tells whether a worker of the current generation is at work.
    pub fn is_generating(&self) -> (generating: bool)
        ensures
            generating == self@.generating,
    {
        self.generating
    }

    /// Tells whether samples were dropped because the curve was full: the
    /// curve is then too long to be drawn.
    pub fn is_truncated(&self) -> (truncated: bool)
        ensures
            truncated == self@.truncated,
    {
        self.truncated
    }

    /// The sample that tells the speed at a time into the cycle: the first
    /// sample taken at or after that time, and none where the curve ends
    /// before it.
    pub fn point_at(&self, elapsed_us: u64) -> (found: Option<MotionPoint>)
        ensures
            found matches Some(point) ==> exists|place: int|
                self@.is_first_from(elapsed_us, place) && self@.points[place] == point,
            found is None ==> self@.ends_before(elapsed_us),
    {
        let mut i: usize = 0;
        while i < self.points.len()
            invariant
                i <= self.points.len(),
                forall|k: int| 0 <= k < i ==> (#[trigger] self.points@[k]).elapsed_us < elapsed_us,
            decreases self.points.len() - i,
        {
            if self.points[i].elapsed_us >= elapsed_us {
                assert(self@.is_first_from(elapsed_us, i as int));
                return Some(self.points[i]);
            }
            i = i + 1;
        }
        None
    }

    /// A copy of the curve.
    pub fn duplicate(&self) -> (copy: Self)
        ensures
            copy@ == self@,
    {
        let mut points: Vec<MotionPoint> = Vec::new();
        let mut i: usize = 0;
        while i < self.points.len()
            invariant
                i <= self.points.len(),
                points@ == self.points@.subrange(0, i as int),
            decreases self.points.len() - i,
        {
            points.push(self.points[i]);
            assert(points@ =~= self.points@.subrange(0, i + 1));
            i = i + 1;
        }
        assert(points@ =~= self.points@);
        ProfileBuffer {
            points,
            generation: self.generation,
            generating: self.generating,
            truncated: self.truncated,
        }
    }

    /// Asks for the curve anew: empties it and moves to the next
    /// generation, whose number is returned for the new worker.
    pub fn regenerate(&mut self) -> (generation: u64)
        ensures
            final(self)@ == old(self)@.regenerated(),
            generation == final(self)@.generation,
            generation != old(self)@.generation,
            final(self)@.within_ceiling(),
    {
        self.points = Vec::new();
        self.generation = if self.generation == u64::MAX {
            0
        } else {
            self.generation + 1
        };
        self.generating = true;
        self.truncated = false;
        self.generation
    }

    /// Offers the next step of a worker to the curve.
    ///
    /// A worker of an earlier generation is turned away and nothing changes.
    /// Otherwise the step is sampled where it is due and the curve has room,
    /// and the worker moves on by the delay of the step.
    pub fn record(&mut self, worker: &mut ProfileSampler, delay_us: u64) -> (outcome: StepOutcome)
        ensures
            outcome == old(self)@.outcome(*old(worker), delay_us),
            final(self)@ == old(self)@.after_step(*old(worker), delay_us),
            *final(worker) == old(self)@.worker_after_step(*old(worker), delay_us),
            old(self)@.within_ceiling() ==> final(self)@.within_ceiling(),
            old(self)@.in_step_with(*old(worker)) && old(self)@.is_spaced(old(worker).threshold_us)
                ==> final(self)@.in_step_with(*final(worker)) && final(self)@.is_spaced(
                final(worker).threshold_us,
            ),
    {
        proof {
            if self@.in_step_with(*worker) && self@.is_spaced(worker.threshold_us) {
                lemma_samples_are_spaced(self@, *worker, delay_us);
            }
        }
        if worker.generation != self.generation {
            return StepOutcome::Stale;
        }
        let room = self.points.len() < MAX_POINTS_GRAPHS;
        let changed = match worker.last_delay_us {
            Some(last) => last != delay_us,
            None => true,
        };
        let overdue = worker.since_sample_us >= worker.threshold_us;
        let outcome = if !changed && !overdue {
            StepOutcome::Skipped
        } else if room {
            self.points.push(MotionPoint { elapsed_us: worker.elapsed_us, delay_us });
            worker.last_delay_us = Some(delay_us);
            worker.since_sample_us = 0;
            StepOutcome::Sampled
        } else {
            self.truncated = true;
            StepOutcome::Full
        };
        worker.elapsed_us = add_holding(worker.elapsed_us, delay_us);
        worker.since_sample_us = add_holding(worker.since_sample_us, delay_us);
        outcome
    }

    /// Takes note that a worker is done. A worker of an earlier generation
    /// is ignored.
    pub fn finish(&mut self, worker: &ProfileSampler)
        ensures
            final(self)@ == old(self)@.finished(*worker),
    {
        if worker.generation == self.generation {
            self.generating = false;
        }
    }
}

/// Once a curve has been asked for anew, the worker of the generation before
/// is turned away at every step it offers and leaves the curve as it is: the
/// curve starts empty and holds samples of the new generation alone.
pub proof fn lemma_stale_worker_is_shut_out(
    curve: ProfileView,
    stale: ProfileSampler,
    current: ProfileSampler,
    delay_us: u64,
)
    requires
        stale.generation == curve.generation,
        current.generation == curve.regenerated().generation,
    ensures
        curve.regenerated().points.len() == 0,
        curve.regenerated().generation != curve.generation,
        curve.regenerated().outcome(stale, delay_us) == StepOutcome::Stale,
        curve.regenerated().after_step(stale, delay_us) == curve.regenerated(),
        curve.regenerated().worker_after_step(stale, delay_us) == stale,
        curve.regenerated().finished(stale) == curve.regenerated(),
        curve.regenerated().regenerated().after_step(current, delay_us)
            == curve.regenerated().regenerated(),
        curve.regenerated().outcome(current, delay_us) != StepOutcome::Stale,
{
}

/// A worker that races against the worker of an earlier generation fills
/// the curve as if it ran alone.
///
/// Whatever the order in which the two offer their steps, and however many,
/// the curve and the worker of its generation end as they would have without
/// the other, the other is where it was, and the generation of the curve
/// stays. As this holds of every order, it holds at every moment of a race:
/// the curve never has a sample of the earlier worker.
pub proof fn lemma_race_is_a_lone_run(
    curve: ProfileView,
    current: ProfileSampler,
    stale: ProfileSampler,
    steps: Seq<(bool, u64)>,
)
    requires
        stale.generation != curve.generation,
    ensures
        curve.race(current, stale, steps).0 == curve.run(
            current,
            ProfileView::delays_of_first(steps),
        ).0,
        curve.race(current, stale, steps).1 == curve.run(
            current,
            ProfileView::delays_of_first(steps),
        ).1,
        curve.race(current, stale, steps).2 == stale,
        curve.race(current, stale, steps).0.generation == curve.generation,
    decreases steps.len(),
{
    if steps.len() > 0 {
        lemma_race_is_a_lone_run(curve, current, stale, steps.drop_last());
        if steps.last().0 {
            let own = ProfileView::delays_of_first(steps);
            assert(own.drop_last() =~= ProfileView::delays_of_first(steps.drop_last()));
            assert(own.last() == steps.last().1);
        }
    }
}

/// Two requests for a curve in a row leave it empty, two generations on
/// where the count has room for two, and in any case at a generation other
/// than that of the first request: the worker of the first request is
/// stale from then on, so that `lemma_race_is_a_lone_run` holds of it and of
/// the worker of the second request.
pub proof fn lemma_two_requests(curve: ProfileView, first: ProfileSampler, second: ProfileSampler)
    requires
        first.generation == curve.regenerated().generation,
        second.generation == curve.regenerated().regenerated().generation,
    ensures
        curve.regenerated().regenerated().points.len() == 0,
        curve.generation < u64::MAX - 1 ==> curve.regenerated().regenerated().generation
            == curve.generation + 2,
        first.generation != curve.regenerated().regenerated().generation,
        forall|steps: Seq<(bool, u64)>|
            (#[trigger] curve.regenerated().regenerated().race(second, first, steps)).0
                == curve.regenerated().regenerated().run(
                second,
                ProfileView::delays_of_first(steps),
            ).0,
{
    let twice = curve.regenerated().regenerated();
    assert forall|steps: Seq<(bool, u64)>|
        (#[trigger] twice.race(second, first, steps)).0 == twice.run(
            second,
            ProfileView::delays_of_first(steps),
        ).0 by {
        lemma_race_is_a_lone_run(twice, second, first, steps);
    }
}

/// A sample follows the one before it with another delay or at least the
/// threshold later.
///
/// A curve asked for anew and the worker made for it are in step, and the
/// empty curve is spaced. A step of a worker that is in step with a spaced
/// curve leaves both so. The sample that such a step adds is apart from the
/// last sample of the curve, and the first sample of a curve is taken at the
/// time that its worker had counted, which is zero for a worker that begins.
pub proof fn lemma_samples_are_spaced(curve: ProfileView, worker: ProfileSampler, delay_us: u64)
    requires
        curve.in_step_with(worker),
        curve.is_spaced(worker.threshold_us),
    ensures
        curve.after_step(worker, delay_us).in_step_with(curve.worker_after_step(worker, delay_us)),
        curve.after_step(worker, delay_us).is_spaced(worker.threshold_us),
        curve.worker_after_step(worker, delay_us).threshold_us == worker.threshold_us,
        curve.outcome(worker, delay_us) == StepOutcome::Sampled && curve.points.len() > 0
            ==> ProfileView::apart(
            curve.points.last(),
            curve.after_step(worker, delay_us).points.last(),
            worker.threshold_us,
        ),
        curve.outcome(worker, delay_us) == StepOutcome::Sampled ==> curve.after_step(
            worker,
            delay_us,
        ).points.last() == (MotionPoint { elapsed_us: worker.elapsed_us, delay_us }),
{
    let after = curve.after_step(worker, delay_us);
    if curve.outcome(worker, delay_us) == StepOutcome::Sampled {
        let added = worker.sample(delay_us);
        assert(after.points.last() == added);
        assert forall|i: int| 0 <= i && i + 1 < after.points.len() implies ProfileView::apart(
            #[trigger] after.points[i],
            after.points[i + 1],
            worker.threshold_us,
        ) by {
            if i + 1 < curve.points.len() {
                assert(after.points[i] == curve.points[i]);
                assert(after.points[i + 1] == curve.points[i + 1]);
            } else {
                assert(after.points[i] == curve.points.last());
                assert(after.points[i + 1] == added);
            }
        }
    }
}

/// However many steps a worker offers to a curve that it is in step with,
/// the curve stays spaced and within the ceiling, and the two stay in step:
/// in the whole curve of a worker that began on a curve asked for anew, each
/// sample follows the one before it with another delay or at least the
/// threshold later, and never earlier.
pub proof fn lemma_run_is_spaced(curve: ProfileView, worker: ProfileSampler, delays: Seq<u64>)
    requires
        curve.in_step_with(worker),
        curve.is_spaced(worker.threshold_us),
        curve.within_ceiling(),
    ensures
        curve.run(worker, delays).0.in_step_with(curve.run(worker, delays).1),
        curve.run(worker, delays).0.is_spaced(worker.threshold_us),
        curve.run(worker, delays).0.within_ceiling(),
        curve.run(worker, delays).1.threshold_us == worker.threshold_us,
    decreases delays.len(),
{
    if delays.len() > 0 {
        lemma_run_is_spaced(curve, worker, delays.drop_last());
        let (reached, moved) = curve.run(worker, delays.drop_last());
        lemma_samples_are_spaced(reached, moved, delays.last());
    }
}

/// A curve that was asked for anew is empty, hence spaced, and in step with
/// the worker that begins for its generation.
pub proof fn lemma_new_curve_is_in_step(curve: ProfileView, duration_ms: u64, threshold_us: u64)
    ensures
        curve.regenerated().is_spaced(threshold_us),
        curve.regenerated().in_step_with(
            ProfileSampler::fresh(curve.regenerated().generation, duration_ms),
        ),
        ProfileSampler::fresh(curve.regenerated().generation, duration_ms).elapsed_us == 0,
{
}

/// A curve never holds more than `MAX_POINTS_GRAPHS` samples: an empty curve
/// and a curve asked for anew are within the ceiling, and a step or the end
/// of a worker keeps a curve within it. A step changes a curve by at most
/// one sample at its end and never changes its generation.
pub proof fn lemma_curve_stays_within_ceiling(
    curve: ProfileView,
    worker: ProfileSampler,
    delay_us: u64,
)
    requires
        curve.within_ceiling(),
    ensures
        ProfileView::empty().within_ceiling(),
        curve.regenerated().within_ceiling(),
        curve.finished(worker).within_ceiling(),
        curve.after_step(worker, delay_us).within_ceiling(),
        curve.after_step(worker, delay_us).generation == curve.generation,
        curve.after_step(worker, delay_us).points == curve.points || curve.after_step(
            worker,
            delay_us,
        ).points == curve.points.push(MotionPoint { elapsed_us: worker.elapsed_us, delay_us }),
        curve.outcome(worker, delay_us) == StepOutcome::Sampled <==> curve.after_step(
            worker,
            delay_us,
        ).points.len() == curve.points.len() + 1,
{
}

/// One of the two axes of a motor.
#[derive(Debug, Copy, Clone, PartialEq, Eq, Structural)]
pub enum Axis {
    Rotation,
    Agitation,
}

impl Axis {
    /// The other axis.
    pub open spec fn other(self) -> Axis {
        match self {
            Axis::Rotation => Axis::Agitation,
            Axis::Agitation => Axis::Rotation,
        }
    }
}

/// The curves of the two axes of a motor.
#[derive(Debug, Clone)]
pub struct Graph {
    pub rotation: ProfileBuffer,
    pub agitation: ProfileBuffer,
}

impl Graph {
    /// The curve of an axis.
    pub open spec fn curve(self, axis: Axis) -> ProfileBuffer {
        match axis {
            Axis::Rotation => self.rotation,
            Axis::Agitation => self.agitation,
        }
    }

    /// Two empty curves.
    pub fn new() -> (graph: Self)
        ensures
            graph.rotation@ == ProfileView::empty(),
            graph.agitation@ == ProfileView::empty(),
    {
        Graph { rotation: ProfileBuffer::new(), agitation: ProfileBuffer::new() }
    }
}

impl Default for Graph {
    fn default() -> (graph: Self)
        ensures
            graph.rotation@ == ProfileView::empty(),
            graph.agitation@ == ProfileView::empty(),
    {
        Graph::new()
    }
}

} // verus!
