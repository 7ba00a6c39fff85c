//! Battery history, drain statistics and time-to-live estimates.
//!
//! Rates and variances are floating-point numbers. Here they are carried as
//! the bit patterns of IEEE 754 binary64 and never looked into: what is computed
//! with them comes in as an argument.

use smol_str::SmolStr;
use vstd::prelude::*;

use crate::airpods::protocol::{
    entry, law_every_mode_is_listed, BatteryInfo, BatteryState, BatteryStatus, NoiseControlMap,
    NoiseControlMode,
};
use crate::bluetooth::address::Address;
use crate::ringbuf::{newest, pushed, Ring};
use crate::text::smol_chars;

verus! {

/// Number of samples that a battery history keeps.
pub const BATTERY_HISTORY_SIZE: usize = 32;

/// Minimum number of samples to save a battery study.
pub const MIN_SAMPLES_TO_SAVE: usize = 3;

/// Minimum number of samples to compute a drain rate.
pub const MIN_SAMPLES: usize = 4;

/// Number of samples that are kept when a history is trimmed.
pub const KEEP_COUNT: usize = 5;

pub const NANOS_PER_SECOND: i64 = 1_000_000_000;

/// Two hours: samples older than that do not count for the drain rate.
pub const MAX_SAMPLE_AGE_NANOS: i64 = 7_200_000_000_000;

/// Five minutes: the time for which a rate from the study stays in the cache.
pub const CACHE_DURATION_NANOS: i64 = 300_000_000_000;

/// A day in minutes: no estimate reaches that far.
pub const MAX_TTL_MINUTES: u32 = 1440;

// === Time ===

/// A reading of the monotonic clock, in nanoseconds since the service started.
/// Readings from before the start are negative.
#[derive(Clone, Copy, Debug, PartialEq, Eq, Structural)]
pub struct Moment {
    pub nanos: i64,
}

/// Whole seconds since the service started.
#[derive(Clone, Copy, Debug, PartialEq, Eq, Structural)]
pub struct SecondsSinceInit(pub u32);

/// The low 32 bits of a number.
pub open spec fn low_u32(value: int) -> u32 {
    (value % 0x1_0000_0000) as u32
}

impl SecondsSinceInit {
    /// The whole seconds of a moment, counted in 32 bits. A moment before the
    /// start counts as the start.
    pub open spec fn of(t: Moment) -> SecondsSinceInit {
        if t.nanos < 0 {
            SecondsSinceInit(0)
        } else {
            SecondsSinceInit(low_u32(t.nanos as int / NANOS_PER_SECOND as int))
        }
    }

    /// The moment at which this second begins.
    pub open spec fn begin(self) -> Moment {
        Moment { nanos: (self.0 * NANOS_PER_SECOND) as i64 }
    }

    /// The whole seconds of a moment.
    pub fn new(t: Moment) -> (seconds: SecondsSinceInit)
        ensures
            seconds == Self::of(t),
    {
        if t.nanos < 0 {
            SecondsSinceInit(0)
        } else {
            let nanos: u64 = t.nanos as u64;
            let seconds: u64 = nanos / 1_000_000_000;
            SecondsSinceInit((seconds % 0x1_0000_0000) as u32)
        }
    }

    /// The seconds that passed since an earlier second, none if it is later.
    pub fn seconds_since(self, rhs: Self) -> (passed: u32)
        ensures
            passed == if self.0 >= rhs.0 {
                self.0 - rhs.0
            } else {
                0
            },
    {
        self.0.saturating_sub(rhs.0)
    }

    /// The moment at which this second begins.
    pub fn instant(self) -> (t: Moment)
        ensures
            t == self.begin(),
            t.nanos == self.0 * NANOS_PER_SECOND,
    {
        Moment { nanos: self.0 as i64 * NANOS_PER_SECOND }
    }
}

/// A moment that is not before the start and whose seconds fit in 32 bits is
/// less than a second after the beginning of its second.
pub proof fn law_second_holds_its_moment(t: Moment)
    requires
        0 <= t.nanos < 0x1_0000_0000 * NANOS_PER_SECOND,
    ensures
        ({
            let begin = SecondsSinceInit::of(t).begin();
            begin.nanos <= t.nanos < begin.nanos + NANOS_PER_SECOND
        }),
{
}

// === Samples of one bud ===

/// A battery level and the second in which it was reached.
pub type Sample = (SecondsSinceInit, u8);

/// A history after a report of a level: only a level lower than the last one
/// is a sample.
pub open spec fn recorded(samples: Seq<Sample>, level: u8, t: Moment) -> Seq<Sample> {
    if samples.len() > 0 && level >= samples.last().1 {
        samples
    } else {
        pushed(samples, (SecondsSinceInit::of(t), level), BATTERY_HISTORY_SIZE as nat)
    }
}

/// A history after a report of the state of its bud. A bud that charges loses
/// its history, and one that is not connected keeps it.
pub open spec fn after_report(samples: Seq<Sample>, state: BatteryState, t: Moment) -> Seq<Sample> {
    if !state.available() {
        samples
    } else if state.charging() {
        Seq::empty()
    } else {
        recorded(samples, state.level, t)
    }
}

/// Whether the level goes down from each sample to the next.
pub open spec fn falling(samples: Seq<Sample>) -> bool {
    forall|i: int, j: int| 0 <= i < j < samples.len() ==> samples[i].1 > samples[j].1
}

/// Whether no sample is older than one before it.
pub open spec fn in_order(samples: Seq<Sample>) -> bool {
    forall|i: int, j: int| 0 <= i < j < samples.len() ==> samples[i].0.0 <= samples[j].0.0
}

/// Reports keep the levels of a history falling.
pub proof fn law_levels_keep_falling(samples: Seq<Sample>, state: BatteryState, t: Moment)
    requires
        falling(samples),
    ensures
        falling(after_report(samples, state, t)),
{
}

/// Reports that come in the order of time keep the samples in that order.
pub proof fn law_samples_stay_in_order(samples: Seq<Sample>, state: BatteryState, t: Moment)
    requires
        in_order(samples),
        samples.len() > 0 ==> samples.last().0.0 <= SecondsSinceInit::of(t).0,
    ensures
        in_order(after_report(samples, state, t)),
{
}

/// A sample as plain numbers: the second and the level.
pub open spec fn plain(sample: Sample) -> (u32, u8) {
    (sample.0.0, sample.1)
}

/// Whether a sample is not older than the given moment.
pub open spec fn not_older(sample: Sample, oldest: Option<Moment>) -> bool {
    match oldest {
        Some(limit) => sample.0.0 * NANOS_PER_SECOND >= limit.nanos,
        None => true,
    }
}

/// The samples that are not older than the given moment.
pub open spec fn recent(samples: Seq<Sample>, oldest: Option<Moment>) -> Seq<(u32, u8)>
    decreases samples.len(),
{
    if samples.len() == 0 {
        Seq::empty()
    } else {
        let before = recent(samples.drop_last(), oldest);
        if not_older(samples.last(), oldest) {
            before.push(plain(samples.last()))
        } else {
            before
        }
    }
}

proof fn lemma_recent_is_no_longer(samples: Seq<Sample>, oldest: Option<Moment>)
    ensures
        recent(samples, oldest).len() <= samples.len(),
    decreases samples.len(),
{
    if samples.len() > 0 {
        lemma_recent_is_no_longer(samples.drop_last(), oldest);
    }
}

/// The vector of the crate `heapless`, which has a fixed capacity.
#[verifier::external_type_specification]
#[verifier::external_body]
#[verifier::reject_recursive_types(T)]
pub struct ExHeaplessVec<T, const N: usize>(heapless::Vec<T, N>);

/// Samples from which a drain rate is computed.
pub type DrainSamples = heapless::Vec<(u32, u8), 32>;

/// The items that the `heapless::Vec` holds, in their order.
pub uninterp spec fn drain_samples(samples: DrainSamples) -> Seq<(u32, u8)>;

/// `heapless::Vec::new` creates a vector without items.
#[verifier::external_body]
fn drain_samples_new() -> (samples: DrainSamples)
    ensures
        drain_samples(samples) == Seq::<(u32, u8)>::empty(),
{
    heapless::Vec::new()
}

/// `heapless::Vec::push` adds an item at the end, or hands it back and changes
/// nothing if the vector is full.
#[verifier::external_body]
fn drain_samples_push(samples: &mut DrainSamples, sample: (u32, u8)) -> (outcome: Result<
    (),
    (u32, u8),
>)
    ensures
        outcome is Ok <==> drain_samples(*old(samples)).len() < 32,
        outcome is Ok ==> drain_samples(*final(samples)) == drain_samples(*old(samples)).push(
            sample,
        ),
        outcome matches Err(back) ==> back == sample && drain_samples(*final(samples))
            == drain_samples(*old(samples)),
{
    samples.push(sample)
}

/// `heapless::Vec::as_slice` hands out all the items.
#[verifier::external_body]
fn drain_samples_slice(samples: &DrainSamples) -> (slice: &[(u32, u8)])
    ensures
        slice@ == drain_samples(*samples),
{
    samples.as_slice()
}

/// The samples for a drain rate, and how fast an estimate follows the rate.
pub struct DrainSelection {
    pub samples: DrainSamples,
    /// Weight of a new estimate against the last one, in tenths.
    pub alpha_tenths: u8,
}

/// Battery levels of one bud over time.
#[derive(Debug, Clone)]
pub struct BatteryHistory {
    samples: Ring<Sample, 32>,
}

impl View for BatteryHistory {
    type V = Seq<Sample>;

    closed spec fn view(&self) -> Seq<Sample> {
        self.samples@
    }
}

impl Default for BatteryHistory {
    fn default() -> (history: BatteryHistory)
        ensures
            history.wf(),
            history@ == Seq::<Sample>::empty(),
    {
        BatteryHistory { samples: Ring::new() }
    }
}

impl BatteryHistory {
    pub closed spec fn wf(self) -> bool {
        self.samples.wf()
    }

    /// A history never holds more than its size.
    pub proof fn lemma_bounded(self)
        requires
            self.wf(),
        ensures
            self@.len() <= BATTERY_HISTORY_SIZE,
    {
        self.samples.lemma_bounded();
    }

    /// Adds a sample. The oldest one goes if the history is full.
    pub fn push(&mut self, timestamp: Moment, level: u8)
        requires
            old(self).wf(),
        ensures
            final(self).wf(),
            final(self)@ == pushed(
                old(self)@,
                (SecondsSinceInit::of(timestamp), level),
                BATTERY_HISTORY_SIZE as nat,
            ),
    {
        self.samples.push((SecondsSinceInit::new(timestamp), level));
    }

    /// Copies the samples, oldest first.
    pub fn iter(&self) -> (samples: Vec<Sample>)
        requires
            self.wf(),
        ensures
            samples@ == self@,
    {
        self.samples.to_vec()
    }

    /// The number of samples.
    pub fn len(&self) -> (n: usize)
        requires
            self.wf(),
        ensures
            n == self@.len(),
            n <= BATTERY_HISTORY_SIZE,
    {
        self.samples.len()
    }

    /// Tells whether there is no sample.
    pub fn is_empty(&self) -> (empty: bool)
        requires
            self.wf(),
        ensures
            empty == (self@.len() == 0),
    {
        self.samples.is_empty()
    }

    /// Forgets every sample.
    pub fn clear(&mut self)
        requires
            old(self).wf(),
        ensures
            final(self).wf(),
            final(self)@ == Seq::<Sample>::empty(),
    {
        self.samples.clear();
    }

    /// The level of the newest sample.
    pub fn last_level(&self) -> (level: Option<u8>)
        requires
            self.wf(),
        ensures
            level is Some <==> self@.len() > 0,
            level matches Some(l) ==> l == self@.last().1,
    {
        match self.samples.last() {
            Some((_, level)) => Some(level),
            None => None,
        }
    }

    /// The beginning of the second of the oldest sample.
    pub fn oldest_timestamp(&self) -> (t: Option<Moment>)
        requires
            self.wf(),
        ensures
            t is Some <==> self@.len() > 0,
            t matches Some(oldest) ==> oldest == self@[0].0.begin(),
    {
        if self.samples.is_empty() {
            None
        } else {
            let (seconds, _) = self.samples.get(0);
            Some(seconds.instant())
        }
    }

    /// Records a level of a bud that is not charging, if it is lower than the
    /// last one.
    pub fn record_battery_drop(&mut self, level: u8, timestamp: Moment)
        requires
            old(self).wf(),
        ensures
            final(self).wf(),
            final(self)@ == recorded(old(self)@, level, timestamp),
    {
        if let Some(last_level) = self.last_level() {
            if level >= last_level {
                return;
            }
        }
        self.push(timestamp, level);
    }

    /// Selects the samples from which the drain rate is computed: those that
    /// are not older than `max_age`. There is none if they are fewer than
    /// `min_samples`.
    pub fn calculate_drain_rate(&self, min_samples: usize, max_age: Option<Moment>) -> (selection:
        Option<DrainSelection>)
        requires
            self.wf(),
        ensures
            selection is Some <==> recent(self@, max_age).len() >= min_samples,
            selection matches Some(selected) ==> drain_samples(selected.samples) == recent(
                self@,
                max_age,
            ) && selected.alpha_tenths == alpha_of(recent(self@, max_age).len()),
    {
        let total: usize = self.len();
        proof {
            lemma_recent_is_no_longer(self@, max_age);
        }
        if total < min_samples {
            return None;
        }
        let mut samples = drain_samples_new();
        let mut n: usize = 0;
        while n < total
            invariant
                self.wf(),
                total == self@.len(),
                total <= BATTERY_HISTORY_SIZE,
                n <= total,
                drain_samples(samples) == recent(self@.take(n as int), max_age),
            decreases total - n,
        {
            let (seconds, level) = self.samples.get(n);
            proof {
                lemma_recent_is_no_longer(self@.take(n as int), max_age);
                assert(self@.take(n + 1).drop_last() =~= self@.take(n as int));
                assert(self@.take(n + 1).last() == (seconds, level));
            }
            let wanted = match max_age {
                Some(limit) => seconds.instant().nanos >= limit.nanos,
                None => true,
            };
            if wanted {
                let _ = drain_samples_push(&mut samples, (seconds.0, level));
            }
            n = n + 1;
        }
        assert(self@.take(n as int) =~= self@);
        let found: usize = drain_samples_slice(&samples).len();
        if found < min_samples {
            None
        } else {
            Some(DrainSelection { samples, alpha_tenths: if found >= 10 { 3 } else { 1 } })
        }
    }

    /// Forgets all but the newest samples if there are many.
    pub fn trim(&mut self)
        requires
            old(self).wf(),
        ensures
            final(self).wf(),
            final(self)@ == newest(old(self)@, KEEP_COUNT as nat),
    {
        if self.samples.len() > KEEP_COUNT {
            self.samples.truncate_front(KEEP_COUNT);
        }
    }
}

/// Weight of a new estimate for a number of samples, in tenths.
pub open spec fn alpha_of(samples: nat) -> u8 {
    if samples >= 10 {
        3
    } else {
        1
    }
}

// === Rows of the study ===

/// Drain statistics of a device in one noise control mode.
#[derive(Clone, Copy, Debug, PartialEq, Eq, Structural)]
pub struct DrainRateStats {
    /// Percent per hour, as a bit pattern.
    pub rate: u64,
    /// Variance of the rate, as a bit pattern.
    pub variance: u64,
    pub samples: u32,
    /// Unix time in seconds.
    pub last_updated: u64,
}

/// What the study knows about a device.
#[derive(Debug, Clone)]
pub struct DeviceStudy {
    pub device_name: SmolStr,
    /// Unix time in seconds.
    pub last_updated: u64,
    pub total_sessions: u32,
    pub total_samples: u32,
    pub drain_rates: NoiseControlMap<DrainRateStats>,
}

/// A mean and a variance, as bit patterns.
#[derive(Clone, Copy, Debug, PartialEq, Eq, Structural)]
pub struct MeanAndVariance {
    pub mean: u64,
    pub variance: u64,
}

/// A rate from the study, and what its confidence interval is made of. The
/// interval is unbounded if there is nothing to make it of.
#[derive(Clone, Copy, Debug, PartialEq, Eq, Structural)]
pub struct StudiedRate {
    pub rate: u64,
    pub spread: Option<Spread>,
}

/// A variance, as a bit pattern, and the number of samples behind it.
#[derive(Clone, Copy, Debug, PartialEq, Eq, Structural)]
pub struct Spread {
    pub variance: u64,
    pub samples: u32,
}

/// Errors of the study that are not those of the database.
#[derive(Clone, Copy, Debug, PartialEq, Eq, Structural)]
pub enum Error {
    /// The device has no row.
    StudyNotFound,
}

/// What the study knows about a device.
#[verifier::ext_equal]
pub struct StudyView {
    pub device_name: Seq<char>,
    pub last_updated: u64,
    pub total_sessions: u32,
    pub total_samples: u32,
    pub drain_rates: Map<NoiseControlMode, DrainRateStats>,
}

impl View for DeviceStudy {
    type V = StudyView;

    open spec fn view(&self) -> StudyView {
        StudyView {
            device_name: smol_chars(self.device_name),
            last_updated: self.last_updated,
            total_sessions: self.total_sessions,
            total_samples: self.total_samples,
            drain_rates: self.drain_rates@,
        }
    }
}

/// The number of samples under a mode.
pub open spec fn samples_in(rates: Map<NoiseControlMode, DrainRateStats>, mode: NoiseControlMode)
    -> nat {
    match entry(rates, mode) {
        Some(stats) => stats.samples as nat,
        None => 0,
    }
}

/// The number of samples under all the modes.
pub open spec fn samples_in_all(rates: Map<NoiseControlMode, DrainRateStats>) -> nat {
    samples_in(rates, NoiseControlMode::Off) + samples_in(rates, NoiseControlMode::Active)
        + samples_in(rates, NoiseControlMode::Transparency) + samples_in(
        rates,
        NoiseControlMode::Adaptive,
    )
}

impl StudyView {
    /// The row of a device of which nothing is known yet.
    pub open spec fn new(device_name: Seq<char>, now: u64) -> StudyView {
        StudyView {
            device_name,
            last_updated: now,
            total_sessions: 0,
            total_samples: 0,
            drain_rates: Map::empty(),
        }
    }

    /// The samples of the row are those of its modes.
    pub open spec fn adds_up(self) -> bool {
        self.total_samples == samples_in_all(self.drain_rates)
    }

    /// The statistics that a new rate is combined with: those of the mode, or,
    /// where there are none, the rate itself without a sample.
    pub open spec fn basis(self, mode: NoiseControlMode, new_rate: u64) -> DrainRateStats {
        match entry(self.drain_rates, mode) {
            Some(stats) => stats,
            None => DrainRateStats { rate: new_rate, variance: 0, samples: 0, last_updated: 0 },
        }
    }

    /// Whether there is room to count a number of samples under a mode.
    pub open spec fn can_count(self, mode: NoiseControlMode, samples: u32) -> bool {
        &&& self.total_samples + samples <= u32::MAX
        &&& samples_in(self.drain_rates, mode) + samples <= u32::MAX
    }

    /// The row after a drain rate was measured from a number of samples.
    /// `combined` is the rate combined with the statistics of the mode; its
    /// variance counts only if the mode had samples before.
    pub open spec fn after_rate(
        self,
        mode: NoiseControlMode,
        new_rate: u64,
        samples: u32,
        combined: MeanAndVariance,
        now: u64,
    ) -> StudyView {
        let basis = self.basis(mode, new_rate);
        let stats = DrainRateStats {
            rate: combined.mean,
            variance: if basis.samples > 0 {
                combined.variance
            } else {
                basis.variance
            },
            samples: (basis.samples + samples) as u32,
            last_updated: now,
        };
        StudyView {
            last_updated: now,
            total_samples: (self.total_samples + samples) as u32,
            drain_rates: self.drain_rates.insert(mode, stats),
            ..self
        }
    }

    /// The row after one more session.
    pub open spec fn after_session(self, now: u64) -> StudyView {
        StudyView {
            total_sessions: (self.total_sessions + 1) as u32,
            last_updated: now,
            ..self
        }
    }

    /// The drain rate in a mode, if the row has one.
    pub open spec fn studied_rate(self, mode: NoiseControlMode) -> Option<StudiedRate> {
        match entry(self.drain_rates, mode) {
            Some(stats) => Some(
                StudiedRate {
                    rate: stats.rate,
                    spread: if stats.samples > 1 {
                        Some(Spread { variance: stats.variance, samples: stats.samples })
                    } else {
                        None
                    },
                },
            ),
            None => None,
        }
    }
}

/// What a row says, if there is one.
pub open spec fn row_view(row: Option<DeviceStudy>) -> Option<StudyView> {
    match row {
        Some(study) => Some(study@),
        None => None,
    }
}

/// A rate that was entered under a mode is read back from there, and what is
/// read from the other modes stays the same.
pub proof fn law_entered_rate_is_read_back(
    row: StudyView,
    mode: NoiseControlMode,
    new_rate: u64,
    samples: u32,
    combined: MeanAndVariance,
    now: u64,
    other: NoiseControlMode,
)
    requires
        row.can_count(mode, samples),
        other != mode,
    ensures
        ({
            let after = row.after_rate(mode, new_rate, samples, combined, now);
            &&& after.studied_rate(mode) matches Some(read) && read.rate == combined.mean
            &&& after.studied_rate(other) == row.studied_rate(other)
        }),
{
}

/// Neither rates nor sessions break the sum of the samples of a row.
pub proof fn law_samples_add_up(
    row: StudyView,
    mode: NoiseControlMode,
    new_rate: u64,
    samples: u32,
    combined: MeanAndVariance,
    now: u64,
)
    requires
        row.adds_up(),
        row.can_count(mode, samples),
    ensures
        StudyView::new(row.device_name, now).adds_up(),
        row.after_session(now).adds_up(),
        row.after_rate(mode, new_rate, samples, combined, now).adds_up(),
{
}

impl DeviceStudy {
    /// The statistics that a new rate is combined with.
    pub fn update_basis(&self, mode: NoiseControlMode, new_rate: u64) -> (stats: DrainRateStats)
        ensures
            stats == self@.basis(mode, new_rate),
    {
        match self.drain_rates.get(mode) {
            Some(stats) => *stats,
            None => DrainRateStats { rate: new_rate, variance: 0, samples: 0, last_updated: 0 },
        }
    }

    /// Tells whether there is room to count a number of samples under a mode.
    pub fn can_count_samples(&self, mode: NoiseControlMode, samples: u32) -> (room: bool)
        ensures
            room == self@.can_count(mode, samples),
    {
        let counted: u32 = match self.drain_rates.get(mode) {
            Some(stats) => stats.samples,
            None => 0,
        };
        self.total_samples <= u32::MAX - samples && counted <= u32::MAX - samples
    }
}

/// The rules by which the rows of the study change.
#[derive(Clone, Copy, Debug)]
pub struct BatteryStudy;

impl BatteryStudy {
    /// The row of a device: the one that is there, or a new one. Tells whether
    /// it is new.
    pub fn get_or_create_study(found: Option<DeviceStudy>, device_name: SmolStr, now: u64) -> (row: (
        DeviceStudy,
        bool,
    ))
        ensures
            row.1 == (found is None),
            row.0@ == match found {
                Some(study) => study@,
                None => StudyView::new(smol_chars(device_name), now),
            },
    {
        match found {
            Some(study) => (study, false),
            None => {
                let study = DeviceStudy {
                    device_name,
                    last_updated: now,
                    total_sessions: 0,
                    total_samples: 0,
                    drain_rates: NoiseControlMap::new(),
                };
                (study, true)
            },
        }
    }

    /// The row of a device after a drain rate was measured from a number of
    /// samples. `combined` is the rate combined with the statistics of the mode;
    /// its variance counts only if the mode had samples before.
    pub fn update_drain_rate(
        found: Option<DeviceStudy>,
        mode: NoiseControlMode,
        new_rate: u64,
        samples: u32,
        combined: MeanAndVariance,
        now: u64,
    ) -> (row: Result<DeviceStudy, Error>)
        requires
            found matches Some(study) ==> study@.can_count(mode, samples),
        ensures
            match found {
                None => row matches Err(error) && error == Error::StudyNotFound,
                Some(study) => row matches Ok(after) && after@ == study@.after_rate(
                    mode,
                    new_rate,
                    samples,
                    combined,
                    now,
                ),
            },
    {
        match found {
            None => Err(Error::StudyNotFound),
            Some(study) => {
                let mut study = study;
                let basis = study.update_basis(mode, new_rate);
                let stats = DrainRateStats {
                    rate: combined.mean,
                    variance: if basis.samples > 0 {
                        combined.variance
                    } else {
                        basis.variance
                    },
                    samples: basis.samples + samples,
                    last_updated: now,
                };
                study.drain_rates.insert(mode, stats);
                study.total_samples = study.total_samples + samples;
                study.last_updated = now;
                Ok(study)
            },
        }
    }

    /// The drain rate of a device in a mode, if the study has one.
    pub fn get_drain_rate(found: Option<&DeviceStudy>, mode: NoiseControlMode) -> (rate: Option<
        StudiedRate,
    >)
        ensures
            rate == match found {
                Some(study) => study@.studied_rate(mode),
                None => None,
            },
    {
        match found {
            None => None,
            Some(study) => match study.drain_rates.get(mode) {
                None => None,
                Some(stats) => {
                    let spread = if stats.samples > 1 {
                        Some(Spread { variance: stats.variance, samples: stats.samples })
                    } else {
                        None
                    };
                    Some(StudiedRate { rate: stats.rate, spread })
                },
            },
        }
    }

    /// The row of a device after one more session, if it has a row.
    pub fn increment_session_count(found: Option<DeviceStudy>, now: u64) -> (row: Option<
        DeviceStudy,
    >)
        requires
            found matches Some(study) ==> study.total_sessions < u32::MAX,
        ensures
            row_view(row) == match found {
                Some(study) => Some(study@.after_session(now)),
                None => None,
            },
    {
        match found {
            None => None,
            Some(study) => {
                let mut study = study;
                study.total_sessions = study.total_sessions + 1;
                study.last_updated = now;
                Some(study)
            },
        }
    }
}

/// The key under which the row of a device stands.
pub struct KeyCodec;

impl KeyCodec {
    /// The key of an address: its bytes.
    pub fn bytes_encode(address: &Address) -> (key: &[u8])
        ensures
            key@ == address.0@,
    {
        address.0.as_slice()
    }

    /// The address of a key, if it has the length of one.
    pub fn bytes_decode(key: &[u8]) -> (address: Option<Address>)
        ensures
            address is Some <==> key@.len() == 6,
            address matches Some(a) ==> a.0@ == key@,
    {
        if key.len() != 6 {
            return None;
        }
        let bytes: [u8; 6] = [key[0], key[1], key[2], key[3], key[4], key[5]];
        assert(bytes@ =~= key@);
        Some(Address(bytes))
    }
}

/// No two addresses have the same key.
pub proof fn law_keys_are_distinct(a: Address, b: Address)
    ensures
        a.0@ == b.0@ ==> a == b,
{
    if a.0@ == b.0@ {
        assert(a.0 =~= b.0);
    }
}

// === Tracker ===

/// A rate from the study and its confidence interval, as bit patterns.
#[derive(Clone, Copy, Debug, PartialEq, Eq, Structural)]
pub struct HistoricalRate {
    pub rate: u64,
    pub confidence: u64,
}

/// A rate from the study and when it was fetched.
#[derive(Clone, Copy, Debug, PartialEq, Eq, Structural)]
pub struct CachedRate {
    pub rate: HistoricalRate,
    pub at: Moment,
}

impl CachedRate {
    /// Whether the rate was fetched recently enough.
    pub open spec fn fresh(self, now: Moment) -> bool {
        now.nanos - self.at.nanos < CACHE_DURATION_NANOS
    }

    /// Tells whether the rate was fetched recently enough.
    pub fn is_fresh(&self, now: Moment) -> (fresh: bool)
        ensures
            fresh == self.fresh(now),
    {
        (now.nanos as i128) - (self.at.nanos as i128) < CACHE_DURATION_NANOS as i128
    }
}

/// A drain rate measured in the current session.
#[derive(Clone, Copy, Debug, PartialEq, Eq, Structural)]
pub struct LocalRate {
    /// Percent per hour, as a bit pattern.
    pub rate: u64,
    pub alpha_tenths: u8,
    /// Number of samples in the history that the rate comes from.
    pub samples: u32,
}

/// What the combined drain rate says about the time that is left.
#[derive(Clone, Copy, Debug, PartialEq, Eq, Structural)]
pub struct DrainForecast {
    /// Percent per hour, as a bit pattern.
    pub rate: u64,
    /// Minutes until the weaker bud is empty.
    pub minutes: u32,
    /// The same number, smoothed with the last estimate.
    pub smoothed: u32,
}

/// How the weight of the measured rate is adjusted before it is used.
#[derive(Clone, Copy, Debug, PartialEq, Eq, Structural)]
pub enum WeightShift {
    /// Four fifths of the weight.
    TowardHistory,
    /// The weight itself.
    Keep,
    /// Halfway between the weight and one.
    TowardLocal,
}

/// How the drain rate is made of a measured rate and one from the study. Rates
/// are percent per hour, as bit patterns; the weight of a new estimate against
/// the last one is in tenths.
#[derive(Clone, Copy, Debug, PartialEq, Eq, Structural)]
pub enum Blend {
    /// Only the measured rate.
    Local { rate: u64, alpha_tenths: u8 },
    /// Only the rate from the study.
    Historical { rate: u64, alpha_tenths: u8 },
    /// Both, with a weight for the measured rate.
    Weighted { local: u64, historical: u64, local_weight_tenths: u8, shift: WeightShift },
}

/// What an estimate is computed from.
#[derive(Clone, Copy, Debug, PartialEq, Eq, Structural)]
pub struct TtlPlan {
    pub blend: Blend,
    /// Level of the weaker bud in percent.
    pub lowest_level: u8,
    /// The last estimate, if there was one.
    pub last: Option<u32>,
}

// === Comparisons of bit patterns ===

/// The number one.
pub const ONE_BITS: u64 = 0x3ff0_0000_0000_0000;

/// The number two.
pub const TWO_BITS: u64 = 0x4000_0000_0000_0000;

/// The number five.
pub const FIVE_BITS: u64 = 0x4014_0000_0000_0000;

/// The distance from one to the next number.
pub const EPSILON_BITS: u64 = 0x3cb0_0000_0000_0000;

const SIGN_BIT: u64 = 0x8000_0000_0000_0000;

const INFINITY_BITS: u64 = 0x7ff0_0000_0000_0000;

/// Whether a bit pattern stands for a number: the exponent of one that does not
/// is the greatest, with a fraction behind it.
pub open spec fn is_number(bits: u64) -> bool {
    bits as int % 0x8000_0000_0000_0000 <= 0x7ff0_0000_0000_0000
}

/// Whether a number is below a positive limit. Among positive numbers the bit
/// patterns are in the order of the numbers, and the patterns of the others have
/// the sign bit.
pub open spec fn below(bits: u64, limit: u64) -> bool {
    is_number(bits) && (bits >= 0x8000_0000_0000_0000 || bits < limit)
}

/// Tells whether a number is below a positive limit.
fn is_below(bits: u64, limit: u64) -> (lower: bool)
    ensures
        lower == below(bits, limit),
{
    bits % SIGN_BIT <= INFINITY_BITS && (bits >= SIGN_BIT || bits < limit)
}

/// A rate to be entered in the study.
#[derive(Clone, Copy, Debug, PartialEq, Eq)]
pub struct DrainRecord {
    pub mode: NoiseControlMode,
    pub rate: u64,
    pub samples: u32,
}

/// The modes whose rates are looked up, in order: the current one first.
pub open spec fn lookup_order(noise_mode: Option<NoiseControlMode>) -> Seq<NoiseControlMode> {
    match noise_mode {
        Some(mode) => seq![mode] + NoiseControlMode::all(),
        None => NoiseControlMode::all(),
    }
}

/// Whether neither bud is charging and both are connected.
pub open spec fn estimable(battery: BatteryInfo) -> bool {
    &&& !battery.left.charging()
    &&& !battery.right.charging()
    &&& battery.left.available()
    &&& battery.right.available()
}

/// The estimate for a battery report, given the last estimate and what the
/// combined drain rate says, if there is one. A rate that is effectively zero
/// gives none.
pub open spec fn ttl_of(
    battery: BatteryInfo,
    last: Option<u32>,
    forecast: Option<DrainForecast>,
) -> Option<u32> {
    match forecast {
        Some(drain) => if estimable(battery) && !negligible(drain.rate) && 0 < drain.minutes
            < MAX_TTL_MINUTES {
            if last is Some {
                Some(drain.smoothed)
            } else {
                Some(drain.minutes)
            }
        } else {
            None
        },
        None => None,
    }
}

/// Whether a drain rate is effectively zero.
pub open spec fn negligible(rate: u64) -> bool {
    below(rate, (EPSILON_BITS + 1) as u64)
}

/// How a measured rate from a number of samples and a rate from the study are
/// combined. The narrower the confidence interval of the latter, the more it
/// counts.
pub open spec fn blend_of(
    local: Option<LocalRate>,
    historical: Option<HistoricalRate>,
    local_samples: nat,
) -> Option<Blend> {
    match (local, historical) {
        (Some(measured), Some(studied)) => Some(
            Blend::Weighted {
                local: measured.rate,
                historical: studied.rate,
                local_weight_tenths: if local_samples < 4 {
                    0
                } else if local_samples <= 10 {
                    7
                } else {
                    9
                },
                shift: if below(studied.confidence, ONE_BITS) {
                    WeightShift::TowardHistory
                } else if below(studied.confidence, TWO_BITS) {
                    WeightShift::Keep
                } else {
                    WeightShift::TowardLocal
                },
            },
        ),
        (Some(measured), None) => Some(
            Blend::Local { rate: measured.rate, alpha_tenths: measured.alpha_tenths },
        ),
        (None, Some(studied)) => Some(
            Blend::Historical {
                rate: studied.rate,
                alpha_tenths: if below(studied.confidence, FIVE_BITS) {
                    5
                } else {
                    7
                },
            },
        ),
        (None, None) => None,
    }
}

/// The number of samples behind a measured rate.
pub open spec fn samples_of(local: Option<LocalRate>) -> nat {
    match local {
        Some(measured) => measured.samples as nat,
        None => 0,
    }
}

/// The rate measured from a history, if its samples allow one and their
/// regression gave a slope.
pub open spec fn rate_of(samples: Seq<Sample>, now: Moment, slope: Option<u64>) -> Option<
    LocalRate,
> {
    let oldest = Moment { nanos: (now.nanos - MAX_SAMPLE_AGE_NANOS) as i64 };
    let selected = recent(samples, Some(oldest));
    if selected.len() >= MIN_SAMPLES && slope is Some {
        Some(
            LocalRate {
                rate: slope->0,
                alpha_tenths: alpha_of(selected.len()),
                samples: samples.len() as u32,
            },
        )
    } else {
        None
    }
}

/// What a tracker holds.
#[verifier::ext_equal]
pub struct TrackerView {
    pub left: Seq<Sample>,
    pub right: Seq<Sample>,
    pub last_ttl: Option<u32>,
    pub studied: bool,
    pub cache: Map<NoiseControlMode, CachedRate>,
}

impl TrackerView {
    /// A tracker before the first report.
    pub open spec fn initial(studied: bool) -> TrackerView {
        TrackerView {
            left: Seq::empty(),
            right: Seq::empty(),
            last_ttl: None,
            studied,
            cache: Map::empty(),
        }
    }

    /// The tracker after a report on the two buds.
    pub open spec fn after_reports(self, l: BatteryState, r: BatteryState, now: Moment)
        -> TrackerView {
        TrackerView {
            left: after_report(self.left, l, now),
            right: after_report(self.right, r, now),
            ..self
        }
    }

    /// The rate measured in the session, from the slopes of the two buds.
    pub open spec fn local_rate(
        self,
        now: Moment,
        left_slope: Option<u64>,
        right_slope: Option<u64>,
    ) -> Option<LocalRate> {
        match rate_of(self.left, now, left_slope) {
            Some(left) => Some(left),
            None => rate_of(self.right, now, right_slope),
        }
    }

    /// The row of a device at the beginning of a session, given the one that was
    /// found.
    pub open spec fn session_row(self, found: Option<StudyView>, name: Seq<char>, now: u64)
        -> Option<StudyView> {
        if self.studied {
            match found {
                Some(row) => Some(row.after_session(now)),
                None => Some(StudyView::new(name, now)),
            }
        } else {
            None
        }
    }

    /// Whether the rows of the study are needed to find a rate.
    pub open spec fn asks_study(self, noise_mode: Option<NoiseControlMode>, now: Moment) -> bool {
        self.studied && !self.cached_fresh(lookup_order(noise_mode)[0], now)
    }

    /// Whether a rate for a mode was fetched recently.
    pub open spec fn cached_fresh(self, mode: NoiseControlMode, now: Moment) -> bool {
        self.cache.dom().contains(mode) && self.cache[mode].fresh(now)
    }

    /// The rate for a mode: one that was fetched recently, or else what the
    /// study holds.
    pub open spec fn rate_for(
        self,
        mode: NoiseControlMode,
        row: Option<HistoricalRate>,
        now: Moment,
    ) -> Option<HistoricalRate> {
        if self.cached_fresh(mode, now) {
            Some(self.cache[mode].rate)
        } else if self.studied {
            row
        } else {
            None
        }
    }

    /// The tracker after a rate for a mode was looked up: one that came from the
    /// study is kept.
    pub open spec fn after_lookup(
        self,
        mode: NoiseControlMode,
        rate: Option<HistoricalRate>,
        now: Moment,
    ) -> TrackerView {
        if self.cached_fresh(mode, now) || rate is None {
            self
        } else {
            TrackerView {
                cache: self.cache.insert(mode, CachedRate { rate: rate->0, at: now }),
                ..self
            }
        }
    }

    /// What an estimate is computed from, if there can be one.
    pub open spec fn plan(
        self,
        battery: BatteryInfo,
        noise_mode: Option<NoiseControlMode>,
        local: Option<LocalRate>,
        rows: Map<NoiseControlMode, HistoricalRate>,
        now: Moment,
    ) -> Option<TtlPlan> {
        let historical = match first_rate(self, lookup_order(noise_mode), rows, now, 0) {
            Some((rate, _)) => Some(rate),
            None => None,
        };
        match blend_of(local, historical, samples_of(local)) {
            Some(blend) => if estimable(battery) {
                Some(TtlPlan { blend, lowest_level: battery.lowest_bud(), last: self.last_ttl })
            } else {
                None
            },
            None => None,
        }
    }

    /// The tracker after an estimate was planned: the rate that was found is
    /// kept.
    pub open spec fn after_plan(
        self,
        battery: BatteryInfo,
        noise_mode: Option<NoiseControlMode>,
        rows: Map<NoiseControlMode, HistoricalRate>,
        now: Moment,
    ) -> TrackerView {
        match first_rate(self, lookup_order(noise_mode), rows, now, 0) {
            Some((rate, mode)) => if estimable(battery) {
                self.after_lookup(mode, Some(rate), now)
            } else {
                self
            },
            None => self,
        }
    }

    /// The tracker after an estimate: it remembers the estimate, or that there
    /// was none.
    pub open spec fn after_estimate(self, battery: BatteryInfo, forecast: Option<DrainForecast>)
        -> TrackerView {
        TrackerView { last_ttl: ttl_of(battery, self.last_ttl, forecast), ..self }
    }

    /// The beginning of the oldest sample of the two buds.
    pub open spec fn oldest_sample(self) -> Moment {
        if self.left.len() > 0 && (self.right.len() == 0 || self.left[0].0.begin().nanos
            <= self.right[0].0.begin().nanos) {
            self.left[0].0.begin()
        } else {
            self.right[0].0.begin()
        }
    }

    /// Whether only time can put a save off: there are enough samples, and no
    /// bud charges.
    pub open spec fn save_ready(self, battery: BatteryInfo) -> bool {
        &&& self.left.len() >= MIN_SAMPLES_TO_SAVE || self.right.len() >= MIN_SAMPLES_TO_SAVE
        &&& !battery.left.charging()
        &&& !battery.right.charging()
    }

    /// Whether there are enough samples, over enough time, for a save.
    pub open spec fn save_due(self, interval_minutes: u32, battery: BatteryInfo, now: Moment)
        -> bool {
        &&& self.save_ready(battery)
        &&& interval_minutes == 0 || now.nanos - self.oldest_sample().nanos >= interval_minutes
            * 60 * NANOS_PER_SECOND
    }

    /// What a save enters in the study.
    pub open spec fn record_of(self, mode: NoiseControlMode, local: Option<LocalRate>) -> Option<
        DrainRecord,
    > {
        match local {
            Some(measured) => if self.studied && measured.samples >= 4 {
                Some(DrainRecord { mode, rate: measured.rate, samples: measured.samples })
            } else {
                None
            },
            None => None,
        }
    }

    /// The tracker after a save: the rate of the mode is fetched anew, and only
    /// the newest samples stay.
    pub open spec fn after_save(self, mode: NoiseControlMode, local: Option<LocalRate>)
        -> TrackerView {
        TrackerView {
            left: newest(self.left, KEEP_COUNT as nat),
            right: newest(self.right, KEEP_COUNT as nat),
            cache: if self.record_of(mode, local) is Some {
                self.cache.remove(mode)
            } else {
                self.cache
            },
            ..self
        }
    }
}

/// Follows the batteries of a device while it is connected.
#[derive(Debug, Clone)]
pub struct BatteryTracker {
    pub left_history: BatteryHistory,
    pub right_history: BatteryHistory,
    pub last_ttl_estimate: Option<u32>,
    /// Whether there is a study to draw from and to save to.
    pub studied: bool,
    /// Rates from the study that were fetched a short while ago.
    pub historical_cache: NoiseControlMap<CachedRate>,
}

impl View for BatteryTracker {
    type V = TrackerView;

    open spec fn view(&self) -> TrackerView {
        TrackerView {
            left: self.left_history@,
            right: self.right_history@,
            last_ttl: self.last_ttl_estimate,
            studied: self.studied,
            cache: self.historical_cache@,
        }
    }
}

impl BatteryTracker {
    pub open spec fn wf(self) -> bool {
        self.left_history.wf() && self.right_history.wf()
    }

    /// Creates a tracker, with or without a study.
    pub fn new(studied: bool) -> (tracker: BatteryTracker)
        ensures
            tracker.wf(),
            tracker@ == TrackerView::initial(studied),
    {
        BatteryTracker {
            left_history: BatteryHistory::default(),
            right_history: BatteryHistory::default(),
            last_ttl_estimate: None,
            studied,
            historical_cache: NoiseControlMap::new(),
        }
    }

    /// The row of a device at the beginning of a session, if there is a study. A
    /// row that is there counts one more session, and one that is new counts
    /// none.
    pub fn init_session(&self, found: Option<DeviceStudy>, device_name: SmolStr, now: u64) -> (row:
        Option<DeviceStudy>)
        requires
            self@.studied ==> (found matches Some(study) ==> study.total_sessions < u32::MAX),
        ensures
            row_view(row) == if self@.studied {
                match found {
                    Some(study) => Some(study@.after_session(now)),
                    None => Some(StudyView::new(smol_chars(device_name), now)),
                }
            } else {
                None
            },
            row_view(row) == self@.session_row(row_view(found), smol_chars(device_name), now),
    {
        if self.studied {
            let counted = BatteryStudy::increment_session_count(found, now);
            let (row, _) = BatteryStudy::get_or_create_study(counted, device_name, now);
            Some(row)
        } else {
            None
        }
    }

    /// Takes note of the states of the two buds.
    pub fn record_battery_drop(&mut self, l: BatteryState, r: BatteryState, now: Moment)
        requires
            old(self).wf(),
        ensures
            final(self).wf(),
            final(self)@ == old(self)@.after_reports(l, r, now),
    {
        Self::record_state(&mut self.left_history, l, now);
        Self::record_state(&mut self.right_history, r, now);
    }

    fn record_state(history: &mut BatteryHistory, state: BatteryState, now: Moment)
        requires
            old(history).wf(),
        ensures
            final(history).wf(),
            final(history)@ == after_report(old(history)@, state, now),
    {
        if state.is_available() {
            if state.is_charging() {
                if history.last_level().is_some() {
                    history.clear();
                } else {
                    assert(history@ =~= Seq::<Sample>::empty());
                }
            } else {
                history.record_battery_drop(state.level, now);
            }
        }
    }

    /// Tells whether an estimate can be made for a battery report.
    pub fn can_estimate(battery: &BatteryInfo) -> (possible: bool)
        ensures
            possible == estimable(*battery),
    {
        let (left, right) = battery.split_ref();
        !left.is_charging() && !right.is_charging() && left.is_available() && right.is_available()
    }

    /// Decides what an estimate is computed from: the measured rate, if there is
    /// one, and a rate that the study or the cache holds. There is no estimate if
    /// one of the buds charges or is not connected, or if there is no rate.
    pub fn plan_ttl(
        &mut self,
        battery_info: &BatteryInfo,
        noise_mode: Option<NoiseControlMode>,
        local: Option<LocalRate>,
        rows: &NoiseControlMap<HistoricalRate>,
        now: Moment,
    ) -> (plan: Option<TtlPlan>)
        requires
            old(self).wf(),
        ensures
            final(self).wf(),
            plan == old(self)@.plan(*battery_info, noise_mode, local, rows@, now),
            final(self)@ == old(self)@.after_plan(*battery_info, noise_mode, rows@, now),
    {
        if !Self::can_estimate(battery_info) {
            return None;
        }
        let last = self.last_ttl_estimate;
        let historical = match self.find_historical_rate(noise_mode, rows, now) {
            Some((rate, _)) => Some(rate),
            None => None,
        };
        let count: usize = match local {
            Some(measured) => measured.samples as usize,
            None => 0,
        };
        let (left, right) = battery_info.split_ref();
        let lowest_level: u8 = if left.level <= right.level { left.level } else { right.level };
        match Self::combine_drain_rates(local, historical, count) {
            Some(blend) => Some(TtlPlan { blend, lowest_level, last }),
            None => None,
        }
    }

    /// Estimates the minutes that are left, given what the combined drain rate
    /// says, and remembers the estimate.
    pub fn estimate_ttl(&mut self, battery_info: &BatteryInfo, forecast: Option<DrainForecast>)
        -> (ttl: Option<u32>)
        requires
            old(self).wf(),
        ensures
            final(self).wf(),
            ttl == ttl_of(*battery_info, old(self)@.last_ttl, forecast),
            final(self)@ == old(self)@.after_estimate(*battery_info, forecast),
    {
        let prev_estimate = self.last_ttl_estimate;
        self.last_ttl_estimate = None;
        let (left, right) = battery_info.split_ref();
        if left.is_charging() || right.is_charging() {
            return None;
        }
        if !left.is_available() || !right.is_available() {
            return None;
        }
        let drain = match forecast {
            Some(drain) => drain,
            None => {
                return None;
            },
        };
        if is_below(drain.rate, EPSILON_BITS + 1) {
            return None;
        }
        if drain.minutes > 0 && drain.minutes < MAX_TTL_MINUTES {
            let estimate: u32 = if prev_estimate.is_some() {
                drain.smoothed
            } else {
                drain.minutes
            };
            self.last_ttl_estimate = Some(estimate);
            Some(estimate)
        } else {
            None
        }
    }

    /// The drain rate of the current session, from the slopes that a regression
    /// gave for the selected samples of the two buds. The left bud goes first.
    pub fn calculate_local_drain_rate(
        &self,
        now: Moment,
        left_slope: Option<u64>,
        right_slope: Option<u64>,
    ) -> (rate: Option<LocalRate>)
        requires
            self.wf(),
            i64::MIN + MAX_SAMPLE_AGE_NANOS <= now.nanos,
        ensures
            rate == match rate_of(self.left_history@, now, left_slope) {
                Some(left) => Some(left),
                None => rate_of(self.right_history@, now, right_slope),
            },
            rate == self@.local_rate(now, left_slope, right_slope),
    {
        let oldest = Moment { nanos: now.nanos - MAX_SAMPLE_AGE_NANOS };
        proof {
            self.left_history.lemma_bounded();
            self.right_history.lemma_bounded();
        }
        if let Some(rate) = left_slope {
            if let Some(selection) = self.left_history.calculate_drain_rate(
                MIN_SAMPLES,
                Some(oldest),
            ) {
                return Some(
                    LocalRate {
                        rate,
                        alpha_tenths: selection.alpha_tenths,
                        samples: self.left_history.len() as u32,
                    },
                );
            }
        }
        if let Some(rate) = right_slope {
            if let Some(selection) = self.right_history.calculate_drain_rate(
                MIN_SAMPLES,
                Some(oldest),
            ) {
                return Some(
                    LocalRate {
                        rate,
                        alpha_tenths: selection.alpha_tenths,
                        samples: self.right_history.len() as u32,
                    },
                );
            }
        }
        None
    }

    /// The rate for a mode: one that was fetched recently, or else what the
    /// study holds, which is then kept for a while.
    pub fn get_historical_rate_cached(
        &mut self,
        mode: NoiseControlMode,
        row: Option<HistoricalRate>,
        now: Moment,
    ) -> (rate: Option<HistoricalRate>)
        requires
            old(self).wf(),
        ensures
            final(self).wf(),
            rate == old(self)@.rate_for(mode, row, now),
            final(self)@ == old(self)@.after_lookup(mode, rate, now),
    {
        if let Some(cached) = self.historical_cache.get(mode) {
            if cached.is_fresh(now) {
                return Some(cached.rate);
            }
        }
        if self.studied {
            if let Some(rate) = row {
                self.historical_cache.insert(mode, CachedRate { rate, at: now });
                return Some(rate);
            }
        }
        None
    }

    /// Tells whether the rows of the study are needed to find a rate: they are
    /// not if there is no study, nor if the first rate to be looked up was
    /// fetched recently.
    pub fn needs_study(&self, noise_mode: Option<NoiseControlMode>, now: Moment) -> (needed: bool)
        ensures
            needed == (self.studied && !self@.cached_fresh(lookup_order(noise_mode)[0], now)),
            needed == self@.asks_study(noise_mode, now),
    {
        let first = match noise_mode {
            Some(mode) => mode,
            None => NoiseControlMode::Off,
        };
        match self.historical_cache.get(first) {
            Some(cached) => self.studied && !cached.is_fresh(now),
            None => self.studied,
        }
    }

    /// Looks for a rate of the device, in the current mode first and in every
    /// mode after that. `rows` is what the study holds.
    pub fn find_historical_rate(
        &mut self,
        noise_mode: Option<NoiseControlMode>,
        rows: &NoiseControlMap<HistoricalRate>,
        now: Moment,
    ) -> (found: Option<(HistoricalRate, NoiseControlMode)>)
        requires
            old(self).wf(),
        ensures
            final(self).wf(),
            found == first_rate(old(self)@, lookup_order(noise_mode), rows@, now, 0),
            final(self)@ == match found {
                Some((rate, mode)) => old(self)@.after_lookup(mode, Some(rate), now),
                None => old(self)@,
            },
    {
        let mut order: Vec<NoiseControlMode> = Vec::new();
        if let Some(mode) = noise_mode {
            order.push(mode);
        }
        let mut all = NoiseControlMode::iter();
        order.append(&mut all);
        assert(order@ =~= lookup_order(noise_mode));
        let ghost start = self@;
        let mut n: usize = 0;
        while n < order.len()
            invariant
                order@ == lookup_order(noise_mode),
                n <= order@.len(),
                self.wf(),
                start == old(self)@,
                self@ == start,
                first_rate(start, order@, rows@, now, 0) == first_rate(
                    start,
                    order@,
                    rows@,
                    now,
                    n as int,
                ),
            decreases order@.len() - n,
        {
            let mode = order[n];
            let row = match rows.get(mode) {
                Some(rate) => Some(*rate),
                None => None,
            };
            assert(row == entry(rows@, mode));
            if let Some(rate) = self.get_historical_rate_cached(mode, row, now) {
                return Some((rate, mode));
            }
            n = n + 1;
        }
        None
    }

    /// Decides how a measured rate and one from the study are combined.
    pub fn combine_drain_rates(
        local_rate: Option<LocalRate>,
        historical_rate: Option<HistoricalRate>,
        local_sample_count: usize,
    ) -> (blend: Option<Blend>)
        ensures
            blend == blend_of(local_rate, historical_rate, local_sample_count as nat),
    {
        match (local_rate, historical_rate) {
            (Some(measured), Some(studied)) => {
                let local_weight_tenths: u8 = if local_sample_count < 4 {
                    0
                } else if local_sample_count <= 10 {
                    7
                } else {
                    9
                };
                let shift = if is_below(studied.confidence, ONE_BITS) {
                    WeightShift::TowardHistory
                } else if is_below(studied.confidence, TWO_BITS) {
                    WeightShift::Keep
                } else {
                    WeightShift::TowardLocal
                };
                Some(
                    Blend::Weighted {
                        local: measured.rate,
                        historical: studied.rate,
                        local_weight_tenths,
                        shift,
                    },
                )
            },
            (Some(measured), None) => Some(
                Blend::Local { rate: measured.rate, alpha_tenths: measured.alpha_tenths },
            ),
            (None, Some(studied)) => {
                let alpha_tenths: u8 = if is_below(studied.confidence, FIVE_BITS) { 5 } else { 7 };
                Some(Blend::Historical { rate: studied.rate, alpha_tenths })
            },
            (None, None) => None,
        }
    }

    /// Tells whether there are enough samples, over enough time, for a save. A
    /// charging bud puts it off.
    pub fn should_save(&self, interval_minutes: u32, battery_info: &BatteryInfo, now: Moment)
        -> (save: bool)
        requires
            self.wf(),
            self@.save_ready(*battery_info) ==> interval_minutes * 60 <= u32::MAX,
        ensures
            save == self@.save_due(interval_minutes, *battery_info, now),
    {
        let left_count: usize = self.left_history.len();
        let right_count: usize = self.right_history.len();
        if left_count < MIN_SAMPLES_TO_SAVE && right_count < MIN_SAMPLES_TO_SAVE {
            return false;
        }
        let (left, right) = battery_info.split_ref();
        if left.is_charging() || right.is_charging() {
            return false;
        }
        let oldest = match (
            self.left_history.oldest_timestamp(),
            self.right_history.oldest_timestamp(),
        ) {
            (Some(l), Some(r)) => if l.nanos <= r.nanos { l } else { r },
            (Some(l), None) => l,
            (None, Some(r)) => r,
            (None, None) => {
                return false;
            },
        };
        assert(oldest == self@.oldest_sample());
        let since: i128 = (now.nanos as i128) - (oldest.nanos as i128);
        let elapsed: i128 = if since < 0 { 0 } else { since };
        let required: i128 = (interval_minutes as i128) * 60 * 1_000_000_000;
        elapsed >= required
    }

    /// Decides what goes to the study at the end of a session or from time to
    /// time. The rate of the mode is then fetched anew, and only the newest
    /// samples stay.
    pub fn save_to_study(&mut self, noise_mode: NoiseControlMode, local: Option<LocalRate>) -> (save:
        Option<DrainRecord>)
        requires
            old(self).wf(),
        ensures
            final(self).wf(),
            save == old(self)@.record_of(noise_mode, local),
            final(self)@ == old(self)@.after_save(noise_mode, local),
    {
        let mut save: Option<DrainRecord> = None;
        if self.studied {
            if let Some(measured) = local {
                if measured.samples >= 4 {
                    save = Some(
                        DrainRecord {
                            mode: noise_mode,
                            rate: measured.rate,
                            samples: measured.samples,
                        },
                    );
                    self.historical_cache.remove(noise_mode);
                }
            }
        }
        self.trim_history();
        save
    }

    /// Keeps only the newest samples of the two buds.
    pub fn trim_history(&mut self)
        requires
            old(self).wf(),
        ensures
            final(self).wf(),
            final(self)@ == (TrackerView {
                left: newest(old(self)@.left, KEEP_COUNT as nat),
                right: newest(old(self)@.right, KEEP_COUNT as nat),
                ..old(self)@
            }),
    {
        self.left_history.trim();
        self.right_history.trim();
    }
}

/// The first rate in a list of modes, from position `k` on, with its mode.
pub open spec fn first_rate(
    tracker: TrackerView,
    order: Seq<NoiseControlMode>,
    rows: Map<NoiseControlMode, HistoricalRate>,
    now: Moment,
    k: int,
) -> Option<(HistoricalRate, NoiseControlMode)>
    decreases order.len() - k,
{
    if k < 0 || k >= order.len() {
        None
    } else {
        match tracker.rate_for(order[k], entry(rows, order[k]), now) {
            Some(rate) => Some((rate, order[k])),
            None => first_rate(tracker, order, rows, now, k + 1),
        }
    }
}

/// A rate that was fetched from the study is used again, whatever the study
/// holds by then, as long as it is fresh.
pub proof fn law_fetched_rate_is_used_again(
    tracker: TrackerView,
    mode: NoiseControlMode,
    rate: HistoricalRate,
    row: Option<HistoricalRate>,
    now: Moment,
    later: Moment,
)
    requires
        !tracker.cached_fresh(mode, now),
        later.nanos - now.nanos < CACHE_DURATION_NANOS,
    ensures
        tracker.after_lookup(mode, Some(rate), now).rate_for(mode, row, later) == Some(rate),
{
}

/// Once a rate was entered under a mode, the rate of that mode is fetched anew.
pub proof fn law_entered_mode_is_fetched_anew(
    tracker: TrackerView,
    mode: NoiseControlMode,
    local: LocalRate,
    row: Option<HistoricalRate>,
    now: Moment,
)
    requires
        tracker.record_of(mode, Some(local)) is Some,
    ensures
        tracker.after_save(mode, Some(local)).rate_for(mode, row, now) == row,
{
}

/// Whether a number lies between two others, in whichever order they are.
pub open spec fn between(number: u32, a: u32, b: u32) -> bool {
    a <= number <= b || b <= number <= a
}

/// Whether an estimate, if there is one, is more than nothing and less than a
/// day.
pub open spec fn plausible(estimate: Option<u32>) -> bool {
    estimate matches Some(minutes) ==> 0 < minutes < MAX_TTL_MINUTES
}

/// Whether the smoothed minutes of a forecast lie between its minutes and the
/// last estimate, if there was one.
pub open spec fn smooths(forecast: Option<DrainForecast>, last: Option<u32>) -> bool {
    match (forecast, last) {
        (Some(drain), Some(q)) => between(drain.smoothed, q, drain.minutes),
        _ => true,
    }
}

/// There is an estimate only for two buds that are connected and not charging,
/// and only if the minutes at the current drain rate are more than nothing and
/// less than a day. The first estimate is those minutes. A later one lies
/// between them and the last estimate, and is itself more than nothing and less
/// than a day, if the last estimate was and the forecast smooths with it.
pub proof fn law_estimates_are_plausible(
    battery: BatteryInfo,
    last: Option<u32>,
    forecast: Option<DrainForecast>,
)
    ensures
        !estimable(battery) ==> ttl_of(battery, last, forecast) is None,
        ttl_of(battery, last, forecast) matches Some(m) ==> {
            &&& forecast matches Some(drain)
            &&& 0 < drain.minutes < MAX_TTL_MINUTES
            &&& last is None ==> m == drain.minutes
            &&& last matches Some(q) ==> (smooths(forecast, last) ==> between(m, q, drain.minutes))
        },
        plausible(last) && smooths(forecast, last) ==> plausible(ttl_of(battery, last, forecast)),
{
}

/// The estimate that a tracker remembers stays more than nothing and less than a
/// day: it does for a new tracker, an estimate from a forecast that smooths with
/// it keeps it so, and nothing else changes it.
pub proof fn law_remembered_estimate_stays_plausible(
    tracker: TrackerView,
    battery: BatteryInfo,
    forecast: Option<DrainForecast>,
    mode: NoiseControlMode,
    noise_mode: Option<NoiseControlMode>,
    rate: Option<HistoricalRate>,
    rows: Map<NoiseControlMode, HistoricalRate>,
    local: Option<LocalRate>,
    now: Moment,
)
    ensures
        plausible(TrackerView::initial(tracker.studied).last_ttl),
        plausible(tracker.last_ttl) && smooths(forecast, tracker.last_ttl) ==> plausible(
            tracker.after_estimate(battery, forecast).last_ttl,
        ),
        tracker.after_reports(battery.left, battery.right, now).last_ttl == tracker.last_ttl,
        tracker.after_lookup(mode, rate, now).last_ttl == tracker.last_ttl,
        tracker.after_plan(battery, noise_mode, rows, now).last_ttl == tracker.last_ttl,
        tracker.after_save(mode, local).last_ttl == tracker.last_ttl,
{
}

// === Laws of the histories ===

/// A second begins a thousand million nanoseconds after the one before it, the
/// first one at the start. A moment before the start counts as the start.
pub proof fn law_seconds_of_moments(seconds: SecondsSinceInit, t: Moment)
    ensures
        seconds.begin().nanos == seconds.0 * 1_000_000_000,
        SecondsSinceInit::of(seconds.begin()) == seconds,
        t.nanos < 0 ==> SecondsSinceInit::of(t).0 == 0,
        0 <= t.nanos && t.nanos < 0x1_0000_0000 * 1_000_000_000 ==> {
            let second = SecondsSinceInit::of(t).0;
            second * 1_000_000_000 <= t.nanos < (second + 1) * 1_000_000_000
        },
{
}

/// A connected bud that does not charge adds its level to its history if the
/// history is empty or the level is lower than the last one, together with the
/// second of the report; the samples before it stay, except that the oldest goes
/// once there are thirty-two. A level that is not lower changes nothing.
pub proof fn law_lower_level_is_added(samples: Seq<Sample>, level: u8, t: Moment)
    requires
        samples.len() <= 32,
    ensures
        ({
            let state = BatteryState { level, status: BatteryStatus::Normal };
            let after = after_report(samples, state, t);
            let lower = samples.len() == 0 || level < samples.last().1;
            let gone = if samples.len() < 32 { 0int } else { 1int };
            &&& lower ==> {
                &&& after.len() == samples.len() + 1 - gone
                &&& after.last().1 == level
                &&& after.last().0 == SecondsSinceInit::of(t)
                &&& forall|k: int| 0 <= k < samples.len() - gone ==> after[k] == samples[k + gone]
            }
            &&& !lower ==> after == samples
        }),
{
}

/// A bud that charges loses its history, and one that is not connected keeps it,
/// whatever level is reported.
pub proof fn law_charging_forgets(samples: Seq<Sample>, level: u8, t: Moment)
    ensures
        after_report(samples, (BatteryState { level, status: BatteryStatus::Charging }), t).len()
            == 0,
        after_report(samples, (BatteryState { level, status: BatteryStatus::Disconnected }), t)
            == samples,
{
}

/// The two buds are followed apart: a report of one of them goes into its own
/// history and does not touch the other. Nothing else of the tracker changes.
pub proof fn law_buds_are_followed_apart(
    tracker: TrackerView,
    left: BatteryState,
    right: BatteryState,
    other: BatteryState,
    now: Moment,
)
    ensures
        ({
            let after = tracker.after_reports(left, right, now);
            &&& after.left == after_report(tracker.left, left, now)
            &&& after.right == after_report(tracker.right, right, now)
            &&& after.left == tracker.after_reports(left, other, now).left
            &&& after.right == tracker.after_reports(other, right, now).right
            &&& after.last_ttl == tracker.last_ttl
            &&& after.studied == tracker.studied
            &&& after.cache == tracker.cache
        }),
{
}

/// A new tracker has no samples, no estimate and no rates.
pub proof fn law_new_tracker_is_empty(studied: bool, mode: NoiseControlMode)
    ensures
        TrackerView::initial(studied).left.len() == 0,
        TrackerView::initial(studied).right.len() == 0,
        TrackerView::initial(studied).last_ttl is None,
        TrackerView::initial(studied).studied == studied,
        !TrackerView::initial(studied).cache.dom().contains(mode),
{
}

/// What a tracker holds is what is in its parts.
pub proof fn law_tracker_holds_its_parts(tracker: BatteryTracker)
    ensures
        tracker@.left == tracker.left_history@,
        tracker@.right == tracker.right_history@,
        tracker@.last_ttl == tracker.last_ttl_estimate,
        tracker@.studied == tracker.studied,
        tracker@.cache == tracker.historical_cache@,
{
}

/// Of two histories, one behind the other, the recent samples are those of the
/// first and those of the second. A single sample is recent if its second did not
/// begin before the limit; without a limit every sample is.
pub proof fn law_recent_samples_are_kept_in_order(
    first: Seq<Sample>,
    second: Seq<Sample>,
    sample: Sample,
    oldest: Option<Moment>,
)
    ensures
        recent(first + second, oldest) == recent(first, oldest) + recent(second, oldest),
        recent(Seq::empty(), oldest).len() == 0,
        oldest is None ==> recent(seq![sample], oldest) == seq![(sample.0.0, sample.1)],
        oldest matches Some(limit) ==> {
            &&& sample.0.0 * 1_000_000_000 >= limit.nanos ==> recent(seq![sample], oldest) == seq![
                (sample.0.0, sample.1),
            ]
            &&& sample.0.0 * 1_000_000_000 < limit.nanos ==> recent(seq![sample], oldest).len() == 0
        },
    decreases second.len(),
{
    let one = seq![sample];
    assert(one.drop_last() =~= Seq::empty());
    assert(recent(one.drop_last(), oldest) =~= Seq::empty());
    assert(Seq::<(u32, u8)>::empty().push(plain(sample)) =~= seq![plain(sample)]);
    if second.len() == 0 {
        assert(first + second =~= first);
        assert(recent(first, oldest) + recent(second, oldest) =~= recent(first, oldest));
    } else {
        law_recent_samples_are_kept_in_order(first, second.drop_last(), sample, oldest);
        assert((first + second).drop_last() =~= first + second.drop_last());
        assert(recent(first + second, oldest) =~= recent(first, oldest) + recent(second, oldest));
    }
}

/// A rate is measured from a history if at least four of its samples are at most
/// two hours old and their regression gave a slope. The rate is that slope, it
/// counts all the samples of the history, and an estimate follows it faster from
/// ten recent samples on.
pub proof fn law_measured_rate(samples: Seq<Sample>, now: Moment, slope: Option<u64>)
    requires
        samples.len() <= 32,
        i64::MIN + 7_200_000_000_000 <= now.nanos,
    ensures
        ({
            let limit = Moment { nanos: (now.nanos - 7_200_000_000_000) as i64 };
            let count = recent(samples, Some(limit)).len();
            &&& rate_of(samples, now, slope) is Some <==> count >= 4 && slope is Some
            &&& rate_of(samples, now, slope) matches Some(measured) ==> {
                &&& Some(measured.rate) == slope
                &&& measured.samples == samples.len()
                &&& measured.alpha_tenths == if count >= 10 { 3int } else { 1int }
            }
        }),
{
}

/// The rate of the session is that of the left bud if its history gives one, and
/// otherwise that of the right bud, each from its own samples and its own slope.
pub proof fn law_left_bud_goes_first(
    tracker: TrackerView,
    now: Moment,
    left_slope: Option<u64>,
    right_slope: Option<u64>,
)
    ensures
        ({
            let left = rate_of(tracker.left, now, left_slope);
            let right = rate_of(tracker.right, now, right_slope);
            let rate = tracker.local_rate(now, left_slope, right_slope);
            &&& left is Some ==> rate == left
            &&& left is None ==> rate == right
            &&& left_slope is None && right_slope is None ==> rate is None
            &&& rate matches Some(measured) ==> Some(measured.rate) == left_slope || Some(
                measured.rate,
            ) == right_slope
        }),
{
}

/// At the beginning of a session a row that is there counts one more session, and a
/// new one counts none. Without a study there is no row.
pub proof fn law_session_begins_with_a_row(
    tracker: TrackerView,
    found: Option<StudyView>,
    name: Seq<char>,
    now: u64,
)
    requires
        found matches Some(row) ==> row.total_sessions < u32::MAX,
    ensures
        ({
            let row = tracker.session_row(found, name, now);
            &&& row is Some <==> tracker.studied
            &&& row matches Some(after) ==> {
                &&& after.last_updated == now
                &&& found matches Some(before) ==> {
                    &&& after.total_sessions == before.total_sessions + 1
                    &&& after.device_name == before.device_name
                    &&& after.drain_rates == before.drain_rates
                    &&& after.total_samples == before.total_samples
                }
                &&& found is None ==> {
                    &&& after.total_sessions == 0
                    &&& after.device_name == name
                    &&& after.total_samples == 0
                }
            }
        }),
{
}

/// The study is asked unless there is none, or the rate that is looked up first, of
/// the current mode or else of noise control that is off, is fresh in the cache.
pub proof fn law_fresh_rate_spares_the_study(
    tracker: TrackerView,
    noise_mode: Option<NoiseControlMode>,
    now: Moment,
)
    ensures
        ({
            let first = match noise_mode {
                Some(mode) => mode,
                None => NoiseControlMode::Off,
            };
            let fresh = tracker.cache.dom().contains(first) && now.nanos
                < tracker.cache[first].at.nanos + 300_000_000_000;
            tracker.asks_study(noise_mode, now) <==> tracker.studied && !fresh
        }),
{
}

// === Laws of the rows ===

/// A new row has the name of its device and the time of its making, and counts
/// neither sessions nor samples.
pub proof fn law_new_row_is_empty(name: Seq<char>, now: u64, mode: NoiseControlMode)
    ensures
        StudyView::new(name, now).device_name == name,
        StudyView::new(name, now).last_updated == now,
        StudyView::new(name, now).total_sessions == 0,
        StudyView::new(name, now).total_samples == 0,
        StudyView::new(name, now).studied_rate(mode) is None,
        !StudyView::new(name, now).drain_rates.dom().contains(mode),
{
}

/// One more session counts one more, at its time, and leaves the rest of the row.
pub proof fn law_session_counts_one(row: StudyView, now: u64)
    requires
        row.total_sessions < u32::MAX,
    ensures
        row.after_session(now).total_sessions == row.total_sessions + 1,
        row.after_session(now).last_updated == now,
        row.after_session(now).device_name == row.device_name,
        row.after_session(now).total_samples == row.total_samples,
        row.after_session(now).drain_rates == row.drain_rates,
{
}

/// A measured rate is combined with the statistics of its mode, or, where there
/// are none, with itself as a rate without samples and without variance.
pub proof fn law_rate_is_combined_with_its_mode(
    row: StudyView,
    mode: NoiseControlMode,
    new_rate: u64,
)
    ensures
        row.drain_rates.dom().contains(mode) ==> row.basis(mode, new_rate)
            == row.drain_rates[mode],
        !row.drain_rates.dom().contains(mode) ==> {
            &&& row.basis(mode, new_rate).rate == new_rate
            &&& row.basis(mode, new_rate).variance == 0
            &&& row.basis(mode, new_rate).samples == 0
        },
{
}

/// An entered rate counts its samples, in its mode and in the row, at its time.
/// The combined rate takes the place of the old one; the combined variance does so
/// only if the mode had samples before. Sessions, the name and the other modes
/// stay as they are.
pub proof fn law_entered_rate_is_counted(
    row: StudyView,
    mode: NoiseControlMode,
    new_rate: u64,
    samples: u32,
    combined: MeanAndVariance,
    now: u64,
    other: NoiseControlMode,
)
    requires
        row.can_count(mode, samples),
    ensures
        ({
            let after = row.after_rate(mode, new_rate, samples, combined, now);
            let known = row.drain_rates.dom().contains(mode);
            let had = known && row.drain_rates[mode].samples > 0;
            &&& after.drain_rates.dom().contains(mode)
            &&& after.drain_rates[mode].rate == combined.mean
            &&& after.drain_rates[mode].last_updated == now
            &&& known ==> after.drain_rates[mode].samples == row.drain_rates[mode].samples + samples
            &&& !known ==> after.drain_rates[mode].samples == samples
            &&& had ==> after.drain_rates[mode].variance == combined.variance
            &&& known && !had ==> after.drain_rates[mode].variance == row.drain_rates[mode].variance
            &&& !known ==> after.drain_rates[mode].variance == 0
            &&& after.total_samples == row.total_samples + samples
            &&& after.last_updated == now
            &&& after.total_sessions == row.total_sessions
            &&& after.device_name == row.device_name
            &&& other != mode ==> after.drain_rates.dom().contains(other)
                == row.drain_rates.dom().contains(other)
            &&& other != mode && row.drain_rates.dom().contains(other) ==> after.drain_rates[other]
                == row.drain_rates[other]
        }),
{
}

/// There is room for samples exactly if neither the count of the row nor that of
/// the mode would become too great.
pub proof fn law_room_for_samples(row: StudyView, mode: NoiseControlMode, samples: u32)
    ensures
        row.can_count(mode, samples) <==> {
            &&& row.total_samples + samples < 0x1_0000_0000
            &&& row.drain_rates.dom().contains(mode) ==> row.drain_rates[mode].samples + samples
                < 0x1_0000_0000
        },
{
}

/// The rate of a mode is read from the statistics of that mode. Its interval is
/// made of their variance and samples if there is more than one sample.
pub proof fn law_read_rate_is_that_of_the_mode(row: StudyView, mode: NoiseControlMode)
    ensures
        row.studied_rate(mode) is Some <==> row.drain_rates.dom().contains(mode),
        row.studied_rate(mode) matches Some(read) ==> {
            let stats = row.drain_rates[mode];
            &&& read.rate == stats.rate
            &&& read.spread is Some <==> stats.samples > 1
            &&& read.spread matches Some(spread) ==> spread.variance == stats.variance
                && spread.samples == stats.samples
        },
{
}

/// What a row says is what is in it.
pub proof fn law_row_says_what_it_holds(row: DeviceStudy)
    ensures
        row@.device_name == smol_chars(row.device_name),
        row@.last_updated == row.last_updated,
        row@.total_sessions == row.total_sessions,
        row@.total_samples == row.total_samples,
        row@.drain_rates == row.drain_rates@,
        row_view(Some(row)) == Some(row@),
        row_view(None) is None,
{
}

// === Laws of the estimates ===

/// An estimate is possible exactly if both buds are connected and neither charges.
pub proof fn law_estimate_needs_both_buds(battery: BatteryInfo)
    ensures
        estimable(battery) <==> battery.left.status is Normal && battery.right.status is Normal,
{
}

/// An estimate is owed whenever both buds are connected and not charging, and the
/// drain rate is not effectively zero and gives more than nothing and less than a
/// day. It is the number of minutes at that rate, or that number smoothed with the
/// last estimate if there was one.
pub proof fn law_estimate_is_owed(
    battery: BatteryInfo,
    last: Option<u32>,
    drain: DrainForecast,
)
    ensures
        ttl_of(battery, last, None) is None,
        ttl_of(battery, last, Some(drain)) is Some <==> {
            &&& battery.left.status is Normal
            &&& battery.right.status is Normal
            &&& !negligible(drain.rate)
            &&& 0 < drain.minutes < 1440
        },
        ttl_of(battery, last, Some(drain)) is Some && last is None ==> ttl_of(
            battery,
            last,
            Some(drain),
        ) == Some(drain.minutes),
        ttl_of(battery, last, Some(drain)) is Some && last is Some ==> ttl_of(
            battery,
            last,
            Some(drain),
        ) == Some(drain.smoothed),
{
}

/// An estimate is remembered, and so is that there was none; the rest of the
/// tracker stays.
pub proof fn law_estimate_is_remembered(
    tracker: TrackerView,
    battery: BatteryInfo,
    forecast: Option<DrainForecast>,
)
    ensures
        ({
            let after = tracker.after_estimate(battery, forecast);
            &&& after.last_ttl == ttl_of(battery, tracker.last_ttl, forecast)
            &&& after.left == tracker.left
            &&& after.right == tracker.right
            &&& after.studied == tracker.studied
            &&& after.cache == tracker.cache
        }),
{
}

/// A drain rate is effectively zero if it is negative, zero, or positive and no
/// greater than the distance from one to the next number. What is not a number is
/// not.
pub proof fn law_negligible_rates(rate: u64)
    ensures
        rate <= 0x3cb0_0000_0000_0000 ==> negligible(rate),
        0x3cb0_0000_0000_0000 < rate < 0x8000_0000_0000_0000 ==> !negligible(rate),
        0x8000_0000_0000_0000 <= rate <= 0xfff0_0000_0000_0000 ==> negligible(rate),
        0xfff0_0000_0000_0000 < rate ==> !negligible(rate),
{
}

/// A number is below a positive limit if it has a sign, or if it has none and its
/// bit pattern is smaller. What is not a number is below nothing.
pub proof fn law_numbers_below_a_limit(bits: u64, limit: u64)
    requires
        limit <= 0x7ff0_0000_0000_0000,
    ensures
        bits < 0x8000_0000_0000_0000 ==> (below(bits, limit) <==> bits < limit),
        0x8000_0000_0000_0000 <= bits <= 0xfff0_0000_0000_0000 ==> below(bits, limit),
        0xfff0_0000_0000_0000 < bits ==> !below(bits, limit),
{
}

/// A measured rate alone is taken with its own weight. A rate of the study alone
/// is taken with a weight of five tenths if its interval is narrower than five, and
/// of seven tenths otherwise. Without either there is no rate.
pub proof fn law_single_rate_is_taken(
    measured: LocalRate,
    studied: HistoricalRate,
    samples: nat,
)
    ensures
        blend_of(None, None, samples) is None,
        blend_of(Some(measured), None, samples) == Some(
            Blend::Local { rate: measured.rate, alpha_tenths: measured.alpha_tenths },
        ),
        blend_of(None, Some(studied), samples) matches Some(
            Blend::Historical { rate, alpha_tenths },
        ) && rate == studied.rate && alpha_tenths == if below(
            studied.confidence,
            0x4014_0000_0000_0000,
        ) {
            5int
        } else {
            7int
        },
{
}

/// Of two rates the measured one counts the more the more samples are behind it:
/// not at all below four, seven tenths up to ten, nine tenths from there on. The
/// weight moves towards the study if the interval is narrower than one, and towards
/// the measured rate if it is not narrower than two.
pub proof fn law_two_rates_are_weighted(
    measured: LocalRate,
    studied: HistoricalRate,
    samples: nat,
)
    ensures
        blend_of(Some(measured), Some(studied), samples) matches Some(
            Blend::Weighted { local, historical, local_weight_tenths, shift },
        ) && {
            &&& local == measured.rate
            &&& historical == studied.rate
            &&& samples < 4 ==> local_weight_tenths == 0
            &&& 4 <= samples <= 10 ==> local_weight_tenths == 7
            &&& samples > 10 ==> local_weight_tenths == 9
            &&& shift is TowardHistory <==> below(studied.confidence, 0x3ff0_0000_0000_0000)
            &&& shift is TowardLocal <==> !below(studied.confidence, 0x4000_0000_0000_0000)
        },
        samples_of(Some(measured)) == measured.samples,
        samples_of(None) == 0,
{
    law_numbers_below_a_limit(studied.confidence, 0x3ff0_0000_0000_0000);
    law_numbers_below_a_limit(studied.confidence, 0x4000_0000_0000_0000);
}

/// A rate stays in the cache for five minutes and no longer.
pub proof fn law_cached_rate_ages(cached: CachedRate, now: Moment)
    ensures
        cached.fresh(now) <==> now.nanos < cached.at.nanos + 5 * 60 * 1_000_000_000,
{
}

/// The rate of a mode comes from the cache while it is fresh there, and from the
/// study otherwise; without a study there is none then.
pub proof fn law_rate_comes_from_cache_or_study(
    tracker: TrackerView,
    mode: NoiseControlMode,
    row: Option<HistoricalRate>,
    now: Moment,
)
    ensures
        ({
            let fresh = tracker.cache.dom().contains(mode) && now.nanos
                < tracker.cache[mode].at.nanos + 300_000_000_000;
            &&& tracker.cached_fresh(mode, now) <==> fresh
            &&& fresh ==> tracker.rate_for(mode, row, now) == Some(tracker.cache[mode].rate)
            &&& !fresh && tracker.studied ==> tracker.rate_for(mode, row, now) == row
            &&& !fresh && !tracker.studied ==> tracker.rate_for(mode, row, now) is None
        }),
{
}

/// A rate that was looked up is kept under its mode, with the time of the look-up,
/// unless it came from the cache. Nothing else of the tracker changes.
pub proof fn law_looked_up_rate_is_kept(
    tracker: TrackerView,
    mode: NoiseControlMode,
    rate: Option<HistoricalRate>,
    now: Moment,
    other: NoiseControlMode,
)
    ensures
        ({
            let after = tracker.after_lookup(mode, rate, now);
            &&& rate is Some && !tracker.cached_fresh(mode, now) ==> after.cache.dom().contains(mode)
                && after.cache[mode].rate == rate->0 && after.cache[mode].at == now
            &&& rate is None || tracker.cached_fresh(mode, now) ==> after.cache == tracker.cache
            &&& other != mode ==> after.cache.dom().contains(other) == tracker.cache.dom().contains(
                other,
            )
            &&& other != mode && tracker.cache.dom().contains(other) ==> after.cache[other]
                == tracker.cache[other]
            &&& after.left == tracker.left
            &&& after.right == tracker.right
            &&& after.last_ttl == tracker.last_ttl
            &&& after.studied == tracker.studied
        }),
{
}

/// The rate of the current mode is looked up first, and every mode is looked up.
pub proof fn law_current_mode_comes_first(
    noise_mode: Option<NoiseControlMode>,
    mode: NoiseControlMode,
)
    ensures
        lookup_order(noise_mode).contains(mode),
        lookup_order(noise_mode).len() > 0,
        noise_mode matches Some(current) ==> lookup_order(noise_mode)[0] == current,
        noise_mode is None ==> lookup_order(noise_mode) == NoiseControlMode::all(),
        noise_mode matches Some(current) ==> lookup_order(noise_mode).skip(1)
            == NoiseControlMode::all(),
{
    law_every_mode_is_listed(mode);
    let all = NoiseControlMode::all();
    let k = all.index_of(mode);
    let order = lookup_order(noise_mode);
    if let Some(current) = noise_mode {
        assert(order[k + 1] == mode);
        assert(order.skip(1) =~= all);
    } else {
        assert(order[k] == mode);
    }
}

proof fn lemma_first_rate(
    tracker: TrackerView,
    order: Seq<NoiseControlMode>,
    rows: Map<NoiseControlMode, HistoricalRate>,
    now: Moment,
    k: int,
)
    requires
        0 <= k <= order.len(),
    ensures
        match first_rate(tracker, order, rows, now, k) {
            Some((rate, mode)) => exists|n: int|
                k <= n < order.len() && #[trigger] order[n] == mode && tracker.rate_for(
                    mode,
                    entry(rows, mode),
                    now,
                ) == Some(rate) && (forall|j: int|
                    k <= j < n ==> tracker.rate_for(
                        #[trigger] order[j],
                        entry(rows, order[j]),
                        now,
                    ) is None),
            None => forall|j: int|
                k <= j < order.len() ==> tracker.rate_for(
                    #[trigger] order[j],
                    entry(rows, order[j]),
                    now,
                ) is None,
        },
    decreases order.len() - k,
{
    if k < order.len() && tracker.rate_for(order[k], entry(rows, order[k]), now) is None {
        lemma_first_rate(tracker, order, rows, now, k + 1);
    }
}

/// The rate that is found is the one of the earliest mode in the list that has
/// one, and there is none only if no mode has one.
pub proof fn law_earliest_mode_with_a_rate(
    tracker: TrackerView,
    order: Seq<NoiseControlMode>,
    rows: Map<NoiseControlMode, HistoricalRate>,
    now: Moment,
)
    ensures
        match first_rate(tracker, order, rows, now, 0) {
            Some((rate, mode)) => exists|n: int|
                0 <= n < order.len() && #[trigger] order[n] == mode && tracker.rate_for(
                    mode,
                    entry(rows, mode),
                    now,
                ) == Some(rate) && (forall|j: int|
                    0 <= j < n ==> tracker.rate_for(
                        #[trigger] order[j],
                        entry(rows, order[j]),
                        now,
                    ) is None),
            None => forall|j: int|
                0 <= j < order.len() ==> tracker.rate_for(
                    #[trigger] order[j],
                    entry(rows, order[j]),
                    now,
                ) is None,
        },
{
    lemma_first_rate(tracker, order, rows, now, 0);
}

/// An estimate is planned from the measured rate and from the rate of the current
/// mode if that mode has one; otherwise from the rate of another mode. It is for
/// the weaker bud, and smoothed with the last estimate. There is no plan while a
/// bud charges or is not connected, nor without any rate.
pub proof fn law_plan_takes_the_current_mode(
    tracker: TrackerView,
    battery: BatteryInfo,
    mode: NoiseControlMode,
    local: Option<LocalRate>,
    rows: Map<NoiseControlMode, HistoricalRate>,
    now: Moment,
)
    ensures
        ({
            let possible = battery.left.status is Normal && battery.right.status is Normal;
            let plan = tracker.plan(battery, Some(mode), local, rows, now);
            let own = tracker.rate_for(mode, entry(rows, mode), now);
            &&& !possible ==> plan is None
            &&& possible && (local is Some || own is Some) ==> plan is Some
            &&& plan matches Some(p) ==> {
                &&& p.lowest_level <= battery.left.level && p.lowest_level <= battery.right.level
                &&& p.lowest_level == battery.left.level || p.lowest_level == battery.right.level
                &&& p.last == tracker.last_ttl
            }
            &&& possible && own is Some ==> (plan matches Some(p) && Some(p.blend) == blend_of(
                local,
                own,
                samples_of(local),
            ))
            &&& possible && own is Some ==> tracker.after_plan(battery, Some(mode), rows, now)
                == tracker.after_lookup(mode, own, now)
            &&& !possible ==> tracker.after_plan(battery, Some(mode), rows, now) == tracker
        }),
{
    let order = lookup_order(Some(mode));
    assert(order[0] == mode);
    reveal_with_fuel(first_rate, 2);
}

/// Without a rate from cache or study in any mode, an estimate is planned from the
/// measured rate alone, and not at all without one. With a rate in some mode there
/// is a plan.
pub proof fn law_plan_uses_what_there_is(
    tracker: TrackerView,
    battery: BatteryInfo,
    noise_mode: Option<NoiseControlMode>,
    local: Option<LocalRate>,
    rows: Map<NoiseControlMode, HistoricalRate>,
    now: Moment,
)
    requires
        battery.left.status is Normal,
        battery.right.status is Normal,
    ensures
        ({
            let plan = tracker.plan(battery, noise_mode, local, rows, now);
            let none = forall|mode: NoiseControlMode|
                (#[trigger] tracker.rate_for(mode, entry(rows, mode), now)) is None;
            &&& none && local is None ==> plan is None
            &&& none && local is Some ==> (plan matches Some(p) && p.blend == (Blend::Local {
                rate: local->0.rate,
                alpha_tenths: local->0.alpha_tenths,
            }))
            &&& none ==> tracker.after_plan(battery, noise_mode, rows, now) == tracker
            &&& !none ==> plan is Some
            &&& !none && local is None ==> (plan matches Some(p) && p.blend is Historical)
        }),
{
    let order = lookup_order(noise_mode);
    lemma_first_rate(tracker, order, rows, now, 0);
    if exists|mode: NoiseControlMode|
        (#[trigger] tracker.rate_for(mode, entry(rows, mode), now)) is Some {
        let mode = choose|mode: NoiseControlMode|
            (#[trigger] tracker.rate_for(mode, entry(rows, mode), now)) is Some;
        law_current_mode_comes_first(noise_mode, mode);
        let k = order.index_of(mode);
        assert(order[k] == mode);
    }
}

// === Laws of the saves ===

/// A save is due once one of the histories has three samples, no bud charges, and
/// the first sample of one of the histories is as old as the interval is long.
pub proof fn law_save_is_due(
    tracker: TrackerView,
    interval_minutes: u32,
    battery: BatteryInfo,
    now: Moment,
)
    ensures
        tracker.save_due(interval_minutes, battery, now) <==> {
            let needed = interval_minutes * 60 * 1_000_000_000;
            &&& tracker.left.len() >= 3 || tracker.right.len() >= 3
            &&& !(battery.left.status is Charging) && !(battery.right.status is Charging)
            &&& {
                ||| interval_minutes == 0
                ||| tracker.left.len() > 0 && now.nanos - tracker.left[0].0.0 * 1_000_000_000
                    >= needed
                ||| tracker.right.len() > 0 && now.nanos - tracker.right[0].0.0 * 1_000_000_000
                    >= needed
            }
        },
{
}

/// A save enters the measured rate under the given mode, with its samples, if
/// there is a study and at least four samples are behind the rate.
pub proof fn law_save_enters_the_measured_rate(
    tracker: TrackerView,
    mode: NoiseControlMode,
    local: Option<LocalRate>,
)
    ensures
        tracker.record_of(mode, local) is Some <==> (local matches Some(measured)
            && measured.samples >= 4 && tracker.studied),
        tracker.record_of(mode, local) matches Some(record) ==> {
            &&& record.mode == mode
            &&& record.rate == local->0.rate
            &&& record.samples == local->0.samples
        },
{
}

/// A save leaves the last five samples of each bud, in their order, and forgets
/// the cached rate of the mode that was entered. The last estimate and the other
/// cached rates stay.
pub proof fn law_save_keeps_the_last_samples(
    tracker: TrackerView,
    mode: NoiseControlMode,
    local: Option<LocalRate>,
    other: NoiseControlMode,
)
    ensures
        ({
            let after = tracker.after_save(mode, local);
            let left = tracker.left.len();
            let right = tracker.right.len();
            &&& left <= 5 ==> after.left == tracker.left
            &&& left > 5 ==> after.left == tracker.left.subrange(left - 5, left as int)
            &&& right <= 5 ==> after.right == tracker.right
            &&& right > 5 ==> after.right == tracker.right.subrange(right - 5, right as int)
            &&& tracker.record_of(mode, local) is Some ==> !after.cache.dom().contains(mode)
            &&& tracker.record_of(mode, local) is None ==> after.cache == tracker.cache
            &&& other != mode ==> after.cache.dom().contains(other) == tracker.cache.dom().contains(
                other,
            )
            &&& other != mode && tracker.cache.dom().contains(other) ==> after.cache[other]
                == tracker.cache[other]
            &&& after.last_ttl == tracker.last_ttl
            &&& after.studied == tracker.studied
        }),
{
    let after = tracker.after_save(mode, local);
    let left = tracker.left.len();
    let right = tracker.right.len();
    if left > 5 {
        assert(after.left =~= tracker.left.subrange(left - 5, left as int));
    }
    if right > 5 {
        assert(after.right =~= tracker.right.subrange(right - 5, right as int));
    }
}

} // verus!
