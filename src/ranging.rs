use vstd::prelude::*;

verus! {

/// Ranging attempts made for one measurement.
pub const SAMPLE_COUNT: u64 = 20;

/// Time the trigger line is held low before the first attempt, so that earlier
/// echoes have died away.
pub const SETTLE_MS: u64 = 250;

/// Length of the high pulse on the trigger line.
pub const TRIGGER_PULSE_US: u64 = 10;

/// Longest wait for the echo line to go high before the attempt is abandoned.
pub const ECHO_TIMEOUT_NS: u64 = 5_000_000_000;

/// Pause between two attempts, against self-interference.
pub const INTER_SAMPLE_DELAY_MS: u64 = 15;

/// Half the speed of sound in centimetres per second: the echo travels there and back.
pub const HALF_SPEED_OF_SOUND_CM_PER_S: u64 = 17_150;

/// Distances at or below this (2 cm) are sensor noise.
pub const MIN_DISTANCE_UM: u64 = 20_000;

/// Distances at or above this (75 cm) are sensor noise.
pub const MAX_DISTANCE_UM: u64 = 750_000;

/// The sensed state of a door.
#[derive(Clone, Copy, Debug, PartialEq, Eq, Structural)]
pub enum DoorState {
    Open,
    Closed,
    /// No attempt gave a plausible distance.
    Unknown,
}

/// Micrometres travelled one way by sound in `width_ns` nanoseconds of echo:
/// `width_s * 17150` centimetres.
pub open spec fn echo_distance_um(width_ns: u64) -> int {
    (width_ns * HALF_SPEED_OF_SOUND_CM_PER_S) as int / 100_000
}

/// A distance strictly between 2 cm and 75 cm.
pub open spec fn in_band(d: u64) -> bool {
    MIN_DISTANCE_UM < d < MAX_DISTANCE_UM
}

/// The samples that take part in the average.
pub open spec fn valid_distances(s: Seq<u64>) -> Seq<u64> {
    s.filter(|d: u64| in_band(d))
}

pub open spec fn total(s: Seq<u64>) -> int
    decreases s.len(),
{
    if s.len() == 0 {
        0
    } else {
        total(s.drop_last()) + s.last()
    }
}

/// Whether the mean `sum / count` lies strictly above `threshold`.
pub open spec fn mean_exceeds(sum: int, count: int, threshold: int) -> bool {
    sum > threshold * count
}

/// The state of a door whose ranging gave the distances `s`.
pub open spec fn ranging_outcome(s: Seq<u64>, threshold_um: u64) -> DoorState {
    let v = valid_distances(s);
    if v.len() == 0 {
        DoorState::Unknown
    } else if mean_exceeds(total(v), v.len() as int, threshold_um as int) {
        DoorState::Open
    } else {
        DoorState::Closed
    }
}

proof fn lemma_valid_push(s: Seq<u64>, d: u64)
    ensures
        valid_distances(s.push(d)) == (if in_band(d) {
            valid_distances(s).push(d)
        } else {
            valid_distances(s)
        }),
{
    reveal(Seq::filter);
    assert(s.push(d).drop_last() =~= s);
}

proof fn lemma_total_push(s: Seq<u64>, d: u64)
    ensures
        total(s.push(d)) == total(s) + d,
{
    assert(s.push(d).drop_last() =~= s);
}

/// The valid samples of `s` are no more than `s`, and their sum stays under
/// `MAX_DISTANCE_UM` per sample.
proof fn lemma_valid_bounds(s: Seq<u64>)
    ensures
        valid_distances(s).len() <= s.len(),
        total(valid_distances(s)) <= MAX_DISTANCE_UM * valid_distances(s).len(),
        total(valid_distances(s)) >= 0,
    decreases s.len(),
{
    if s.len() > 0 {
        let p = s.drop_last();
        lemma_valid_bounds(p);
        assert(p.push(s.last()) =~= s);
        lemma_valid_push(p, s.last());
        if in_band(s.last()) {
            lemma_total_push(valid_distances(p), s.last());
        }
    } else {
        reveal(Seq::filter);
    }
}

/// Distance in micrometres for an echo that stayed high `width_ns` nanoseconds.
pub fn distance_um(width_ns: u64) -> (r: u64)
    ensures
        r == echo_distance_um(width_ns),
{
    let w = width_ns as u128;
    let speed = HALF_SPEED_OF_SOUND_CM_PER_S as u128;
    proof {
        assert(w * speed <= w * 100_000) by (nonlinear_arith)
            requires
                speed == 17150,
        ;
        vstd::arithmetic::div_mod::lemma_div_is_ordered(
            w * speed,
            w * 100_000,
            100_000,
        );
        vstd::arithmetic::div_mod::lemma_div_by_multiple(w as int, 100_000);
    }
    (w * speed / 100_000) as u64
}

/// Whether a distance is plausible rather than sensor noise.
pub fn is_plausible(d: u64) -> (r: bool)
    ensures
        r == in_band(d),
{
    MIN_DISTANCE_UM < d && d < MAX_DISTANCE_UM
}

/// Whether the wait for the echo has gone on too long.
pub fn echo_wait_expired(waited_ns: u64) -> (r: bool)
    ensures
        r == (waited_ns > ECHO_TIMEOUT_NS),
{
    waited_ns > ECHO_TIMEOUT_NS
}

fn decide(sum: u128, count: u128, threshold_um: u64) -> (r: DoorState)
    requires
        count <= u64::MAX,
    ensures
        r == (if count == 0 {
            DoorState::Unknown
        } else if mean_exceeds(sum as int, count as int, threshold_um as int) {
            DoorState::Open
        } else {
            DoorState::Closed
        }),
{
    if count == 0 {
        DoorState::Unknown
    } else {
        let t = threshold_um as u128;
        assert(t * count <= u64::MAX * u64::MAX) by (nonlinear_arith)
            requires
                t <= u64::MAX,
                count <= u64::MAX,
        ;
        if sum > t * count {
            DoorState::Open
        } else {
            DoorState::Closed
        }
    }
}

/// Classifies a door from the distances its ranging produced.
pub fn classify_distances(distances: &Vec<u64>, threshold_um: u64) -> (r: DoorState)
    ensures
        r == ranging_outcome(distances@, threshold_um),
{
    let mut sum: u128 = 0;
    let mut count: u64 = 0;
    let mut i: usize = 0;
    proof {
        reveal(Seq::filter);
        assert(distances@.take(0) =~= Seq::<u64>::empty());
    }
    while i < distances.len()
        invariant
            i <= distances@.len(),
            sum == total(valid_distances(distances@.take(i as int))),
            count == valid_distances(distances@.take(i as int)).len(),
            count <= i,
            sum <= MAX_DISTANCE_UM * count,
        decreases distances@.len() - i,
    {
        let d = distances[i];
        proof {
            let p = distances@.take(i as int);
            assert(distances@.take(i + 1) =~= p.push(d));
            lemma_valid_push(p, d);
            if in_band(d) {
                lemma_total_push(valid_distances(p), d);
            }
        }
        if is_plausible(d) {
            sum = sum + d as u128;
            count = count + 1;
        }
        i = i + 1;
    }
    assert(distances@.take(i as int) =~= distances@);
    decide(sum, count as u128, threshold_um)
}

/// One measurement in progress: attempts made so far and the running sum and
/// count of plausible distances.
pub struct RangingSession {
    threshold_um: u64,
    attempts: u64,
    sum_um: u64,
    valid: u64,
    distances: Ghost<Seq<u64>>,
}

impl RangingSession {
    /// The distances obtained so far; abandoned attempts give none.
    pub closed spec fn distances(&self) -> Seq<u64> {
        self.distances@
    }

    pub closed spec fn attempts(&self) -> nat {
        self.attempts as nat
    }

    pub closed spec fn threshold(&self) -> u64 {
        self.threshold_um
    }

    pub closed spec fn wf(&self) -> bool {
        &&& self.attempts <= SAMPLE_COUNT
        &&& self.distances@.len() <= self.attempts
        &&& self.sum_um == total(valid_distances(self.distances@))
        &&& self.valid == valid_distances(self.distances@).len()
    }

    /// Starts a measurement of a door with the given open threshold.
    pub fn new(threshold_um: u64) -> (r: RangingSession)
        ensures
            r.wf(),
            r.attempts() == 0,
            r.distances() == Seq::<u64>::empty(),
            r.threshold() == threshold_um,
    {
        proof {
            reveal(Seq::filter);
        }
        RangingSession {
            threshold_um,
            attempts: 0,
            sum_um: 0,
            valid: 0,
            distances: Ghost(Seq::empty()),
        }
    }

    /// Whether every attempt has been made.
    pub fn is_complete(&self) -> (r: bool)
        requires
            self.wf(),
        ensures
            r == (self.attempts() == SAMPLE_COUNT),
    {
        self.attempts == SAMPLE_COUNT
    }

    /// Records one attempt: `None` when the echo never came within
    /// `ECHO_TIMEOUT_NS`, else the time the echo line stayed high. Once all
    /// `SAMPLE_COUNT` attempts are in, further ones are ignored.
    pub fn record_echo(&mut self, echo_width_ns: Option<u64>)
        requires
            old(self).wf(),
        ensures
            final(self).wf(),
            old(self).attempts() == SAMPLE_COUNT ==> *final(self) == *old(self),
            old(self).attempts() < SAMPLE_COUNT ==> final(self).attempts() == old(self).attempts() + 1,
            final(self).threshold() == old(self).threshold(),
            old(self).attempts() < SAMPLE_COUNT ==> final(self).distances() == (match echo_width_ns {
                Some(w) => old(self).distances().push(echo_distance_um(w) as u64),
                None => old(self).distances(),
            }),
    {
        if self.attempts >= SAMPLE_COUNT {
            return;
        }
        proof {
            lemma_valid_bounds(self.distances@);
        }
        if let Some(w) = echo_width_ns {
            let d = distance_um(w);
            proof {
                lemma_valid_push(self.distances@, d);
                if in_band(d) {
                    lemma_total_push(valid_distances(self.distances@), d);
                }
            }
            if is_plausible(d) {
                assert(self.sum_um + d <= MAX_DISTANCE_UM * (self.valid + 1)) by (nonlinear_arith)
                    requires
                        self.sum_um <= MAX_DISTANCE_UM * self.valid,
                        d < MAX_DISTANCE_UM,
                ;
                assert(MAX_DISTANCE_UM * (self.valid + 1) <= MAX_DISTANCE_UM * SAMPLE_COUNT) by (nonlinear_arith)
                    requires
                        self.valid < SAMPLE_COUNT,
                ;
                self.sum_um = self.sum_um + d;
                self.valid = self.valid + 1;
            }
            self.distances = Ghost(self.distances@.push(d));
        }
        self.attempts = self.attempts + 1;
    }

    /// The state the distances recorded so far give.
    pub fn outcome(&self) -> (r: DoorState)
        requires
            self.wf(),
        ensures
            r == ranging_outcome(self.distances(), self.threshold()),
    {
        proof {
            lemma_valid_bounds(self.distances@);
        }
        decide(self.sum_um as u128, self.valid as u128, self.threshold_um)
    }
}

/// Distances outside the plausible band take no part in the result, wherever
/// they occur in the sequence.
pub proof fn lemma_out_of_band_excluded(before: Seq<u64>, d: u64, after: Seq<u64>, threshold_um: u64)
    requires
        !in_band(d),
    ensures
        ranging_outcome(before + seq![d] + after, threshold_um) == ranging_outcome(before + after, threshold_um),
{
    let p = |x: u64| in_band(x);
    Seq::filter_distributes_over_add(before + seq![d], after, p);
    Seq::filter_distributes_over_add(before, seq![d], p);
    Seq::filter_distributes_over_add(before, after, p);
    lemma_valid_push(Seq::<u64>::empty(), d);
    reveal(Seq::filter);
    assert(Seq::<u64>::empty().push(d) =~= seq![d]);
    assert(valid_distances(seq![d]) =~= Seq::<u64>::empty());
    assert(valid_distances(before) + Seq::<u64>::empty() =~= valid_distances(before));
}

/// With no plausible distance the state is `Unknown`.
pub proof fn lemma_no_valid_sample_is_unknown(s: Seq<u64>, threshold_um: u64)
    requires
        forall|i: int| 0 <= i < s.len() ==> !in_band(#[trigger] s[i]),
    ensures
        ranging_outcome(s, threshold_um) == DoorState::Unknown,
    decreases s.len(),
{
    if s.len() == 0 {
        reveal(Seq::filter);
    } else {
        let p = s.drop_last();
        lemma_no_valid_sample_is_unknown(p, threshold_um);
        assert(p.push(s.last()) =~= s);
        lemma_valid_push(p, s.last());
    }
}

/// With at least one plausible distance, the door is open exactly when the
/// mean of the plausible distances, `total / count`, is strictly above the
/// threshold, and closed otherwise.
pub proof fn lemma_open_iff_mean_above_threshold(s: Seq<u64>, threshold_um: u64)
    requires
        valid_distances(s).len() > 0,
    ensures
        ({
            let v = valid_distances(s);
            let q = total(v) / (v.len() as int);
            let rem = total(v) % (v.len() as int);
            &&& (ranging_outcome(s, threshold_um) == DoorState::Open) <==> (q > threshold_um || (q
                == threshold_um && rem > 0))
            &&& (ranging_outcome(s, threshold_um) == DoorState::Closed) <==> !(q > threshold_um
                || (q == threshold_um && rem > 0))
        }),
{
    let v = valid_distances(s);
    let n = v.len() as int;
    let sum = total(v);
    let t = threshold_um as int;
    let q = sum / n;
    let rem = sum % n;
    vstd::arithmetic::div_mod::lemma_fundamental_div_mod(sum, n);
    assert(0 <= rem < n);
    assert(sum == n * q + rem);
    assert(sum > t * n <==> (q > t || (q == t && rem > 0))) by (nonlinear_arith)
        requires
            sum == n * q + rem,
            0 <= rem < n,
            n > 0,
    {
        if q > t {
            assert(n * q >= n * (t + 1));
        } else if q < t {
            assert(n * q <= n * (t - 1));
        }
    }
}

} // verus!
