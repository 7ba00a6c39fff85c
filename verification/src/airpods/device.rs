//! A headset and what is known about it.

use smol_str::SmolStr;
use vstd::prelude::*;
use vstd::std_specs::cmp::PartialEqSpec;

use crate::airpods::protocol::{
    law_members_are_those_with_flags, members_below, BatteryInfo, EarDetectionStatus,
    FeatureBitmap, FeatureId, NoiseControlMap, NoiseControlMode, FEATURE_COUNT,
};
use crate::battery_study::{
    law_save_is_due, law_save_keeps_the_last_samples, ttl_of, BatteryTracker, DrainForecast,
    DrainRecord, HistoricalRate, LocalRate, Moment, SecondsSinceInit, TrackerView, TtlPlan,
};
use crate::bluetooth::address::Address;
use crate::bluetooth::rfcomm::Packet;
use crate::error::{AirPodsError, Unsupported};
use crate::event::{event_view, AirPodsEvent, EventView};
use crate::nothing::device::{
    anc_request, eq_request, law_level_request_names_its_level, law_request_is_one_frame,
    ring_request, set_anc_level, set_eq_preset, set_noise_control, set_ring, NothingDocument,
    NothingState, NothingView,
};
use crate::nothing::protocol::{
    anc_level_to_mode, level_of_mode, mode_of_level, mode_to_anc_level, reported_level,
    reported_preset, scan, status_of_level, FrameView, CMD_RING, CMD_SET_ANC,
    CMD_SET_LISTENING_MODE,
};
use crate::text::{
    contains_run, lower, lowered, occurs_at, occurs_in, same_text, smol_as_str, smol_chars,
    smol_new, to_lower,
};

verus! {

// === Kinds of devices ===

/// Which protocol a device speaks.
#[derive(Clone, Copy, Debug, PartialEq, Eq, Structural)]
pub enum DeviceKind {
    AirPods,
    Nothing { model: NothingModel },
}

impl Default for DeviceKind {
    fn default() -> (kind: DeviceKind)
        ensures
            kind == DeviceKind::AirPods,
    {
        DeviceKind::AirPods
    }
}

impl DeviceKind {
    /// The name of the protocol.
    pub fn protocol(self) -> (name: &'static str)
        ensures
            name@ == match self {
                DeviceKind::AirPods => "airpods_aap"@,
                DeviceKind::Nothing { .. } => "nothing_spp"@,
            },
    {
        match self {
            DeviceKind::AirPods => "airpods_aap",
            DeviceKind::Nothing { .. } => "nothing_spp",
        }
    }

    /// The name of the vendor.
    pub fn vendor(self) -> (name: &'static str)
        ensures
            name@ == match self {
                DeviceKind::AirPods => "apple"@,
                DeviceKind::Nothing { .. } => "nothing"@,
            },
    {
        match self {
            DeviceKind::AirPods => "apple",
            DeviceKind::Nothing { .. } => "nothing",
        }
    }
}

/// Models of Nothing/CMF headsets.
#[derive(Clone, Copy, Debug, PartialEq, Eq, Structural)]
pub enum NothingModel {
    CmfHeadphonePro,
    Generic,
}

/// The model that a device name gives away.
pub open spec fn model_of_name(name: Seq<char>) -> Option<NothingModel> {
    let name = lowered(name);
    if occurs_in("cmf headphone pro"@, name) {
        Some(NothingModel::CmfHeadphonePro)
    } else if occurs_in("nothing"@, name) || occurs_in("cmf"@, name) {
        Some(NothingModel::Generic)
    } else {
        None
    }
}

impl NothingModel {
    /// The model that a device name gives away, if it does.
    pub fn from_name(name: &str) -> (model: Option<NothingModel>)
        ensures
            model == model_of_name(name@),
    {
        let name = to_lower(name);
        if contains_run(&name, "cmf headphone pro") {
            Some(NothingModel::CmfHeadphonePro)
        } else if contains_run(&name, "nothing") || contains_run(&name, "cmf") {
            Some(NothingModel::Generic)
        } else {
            None
        }
    }

    /// The code of the model.
    pub fn model_base(self) -> (code: &'static str)
        ensures
            code@ == match self {
                NothingModel::CmfHeadphonePro => "B175"@,
                NothingModel::Generic => "unknown"@,
            },
    {
        match self {
            NothingModel::CmfHeadphonePro => "B175",
            NothingModel::Generic => "unknown",
        }
    }

    /// The name of the model.
    pub fn display_name(self) -> (name: &'static str)
        ensures
            name@ == match self {
                NothingModel::CmfHeadphonePro => "CMF Headphone Pro"@,
                NothingModel::Generic => "Nothing/CMF Device"@,
            },
    {
        match self {
            NothingModel::CmfHeadphonePro => "CMF Headphone Pro",
            NothingModel::Generic => "Nothing/CMF Device",
        }
    }
}

/// The letter case of a name does not matter for its model.
pub proof fn law_letter_case_does_not_matter(a: Seq<char>, b: Seq<char>)
    requires
        a.len() == b.len(),
        forall|n: int| 0 <= n < a.len() ==> lower(#[trigger] a[n]) == lower(b[n]),
    ensures
        model_of_name(a) == model_of_name(b),
{
    assert(lowered(a) =~= lowered(b));
}

/// Whether a run of small letters and spaces stands in a name at a position, in
/// whatever letter case.
pub open spec fn spells(name: Seq<char>, at: int, run: Seq<char>) -> bool {
    &&& 0 <= at
    &&& at + run.len() <= name.len()
    &&& forall|k: int|
        0 <= k < run.len() ==> {
            let c = #[trigger] name[at + k];
            ||| c == run[k]
            ||| 'A' <= c && c <= 'Z' && c as int + 32 == run[k] as int
        }
}

proof fn lemma_spells(name: Seq<char>, run: Seq<char>)
    requires
        forall|k: int| 0 <= k < run.len() ==> !('A' <= #[trigger] run[k] && run[k] <= 'Z'),
    ensures
        occurs_in(run, lowered(name)) <==> exists|at: int| spells(name, at, run),
{
    let text = lowered(name);
    if occurs_in(run, text) {
        let at = choose|at: int| occurs_at(run, text, at);
        assert forall|k: int| 0 <= k < run.len() implies ({
            let c = #[trigger] name[at + k];
            ||| c == run[k]
            ||| 'A' <= c && c <= 'Z' && c as int + 32 == run[k] as int
        }) by {
            assert(text.subrange(at, at + run.len())[k] == text[at + k]);
            assert(text[at + k] == lower(name[at + k]));
        }
        assert(spells(name, at, run));
    }
    if exists|at: int| spells(name, at, run) {
        let at = choose|at: int| spells(name, at, run);
        assert forall|k: int| 0 <= k < run.len() implies text.subrange(at, at + run.len())[k]
            == run[k] by {
            let c = name[at + k];
            assert(text[at + k] == lower(c));
        }
        assert(text.subrange(at, at + run.len()) =~= run);
        assert(occurs_at(run, text, at));
    }
}

/// A name gives a model away by what it spells somewhere, in whatever letter case:
/// the full name of the known model, or else one of the two brands.
pub proof fn law_name_spells_its_model(name: Seq<char>)
    ensures
        ({
            let pro = exists|at: int| spells(name, at, "cmf headphone pro"@);
            let nothing = exists|at: int| spells(name, at, "nothing"@);
            let cmf = exists|at: int| spells(name, at, "cmf"@);
            &&& model_of_name(name) == Some(NothingModel::CmfHeadphonePro) <==> pro
            &&& model_of_name(name) == Some(NothingModel::Generic) <==> !pro && (nothing || cmf)
            &&& model_of_name(name) is None <==> !nothing && !cmf && !pro
        }),
{
    reveal_strlit("cmf headphone pro");
    reveal_strlit("nothing");
    reveal_strlit("cmf");
    lemma_spells(name, "cmf headphone pro"@);
    lemma_spells(name, "nothing"@);
    lemma_spells(name, "cmf"@);
}

// === Updates ===

/// What became of a value that was reported.
#[derive(Clone, Copy, Debug, PartialEq)]
pub enum UpdateOp<T> {
    /// Nothing changed.
    Noop,
    /// There was no value before.
    Inserted,
    /// There is no value any more.
    Deleted(T),
    /// There was another value before.
    Updated(T),
}

impl<T> UpdateOp<T> {
    /// Whether there is a value now that was not there before.
    pub open spec fn updated(self) -> bool {
        self is Inserted || self is Updated
    }

    /// Tells whether there is a value now that was not there before.
    pub fn is_updated(&self) -> (updated: bool)
        ensures
            updated == self.updated(),
    {
        matches!(self, UpdateOp::Inserted | UpdateOp::Updated(_))
    }
}

impl<T: PartialEq> UpdateOp<T> {
    /// What becomes of a value `prev` that is replaced by `new`.
    pub open spec fn of(prev: Option<T>, new: Option<T>) -> UpdateOp<T> {
        match (prev, new) {
            (None, None) => UpdateOp::Noop,
            (None, Some(n)) => UpdateOp::Inserted,
            (Some(p), None) => UpdateOp::Deleted(p),
            (Some(p), Some(n)) => if p.eq_spec(&n) {
                UpdateOp::Noop
            } else {
                UpdateOp::Updated(n)
            },
        }
    }

    /// Tells what becomes of a value that is replaced by another.
    pub fn new(prev: Option<T>, new: Option<T>) -> (op: UpdateOp<T>)
        ensures
            (prev is Some && new is Some ==> T::obeys_eq_spec()) ==> op == Self::of(prev, new),
    {
        match prev {
            None => match new {
                None => UpdateOp::Noop,
                Some(_) => UpdateOp::Inserted,
            },
            Some(p) => match new {
                None => UpdateOp::Deleted(p),
                Some(n) => if p == n {
                    UpdateOp::Noop
                } else {
                    UpdateOp::Updated(n)
                },
            },
        }
    }

    /// Replaces a value and tells what became of it.
    pub fn apply(dst: &mut Option<T>, new: Option<T>) -> (op: UpdateOp<T>) where T: Copy
        ensures
            *final(dst) == new,
            (*old(dst) is Some && new is Some ==> T::obeys_eq_spec()) ==> op == Self::of(
                *old(dst),
                new,
            ),
    {
        let prev = *dst;
        *dst = new;
        UpdateOp::new(prev, new)
    }
}

/// An update is told of exactly when there is a value now and it was not there
/// before.
pub proof fn law_update_tells_of_change<T: PartialEq>(prev: Option<T>, new: Option<T>)
    requires
        forall|a: T, b: T| #[trigger] a.eq_spec(&b) == (a == b),
    ensures
        UpdateOp::of(prev, new).updated() <==> new is Some && prev != new,
{
}

/// An update says what was there: nothing changed if the values are the same, a
/// value that is gone is handed back, and one that takes the place of another is
/// named.
pub proof fn law_update_says_what_happened<T: PartialEq>(prev: Option<T>, new: Option<T>)
    requires
        forall|a: T, b: T| #[trigger] a.eq_spec(&b) == (a == b),
    ensures
        UpdateOp::of(prev, new) is Noop <==> prev == new,
        UpdateOp::of(prev, new) is Inserted <==> prev is None && new is Some,
        prev is Some && new is None ==> UpdateOp::of(prev, new) == UpdateOp::Deleted(prev->0),
        prev is Some && new is Some && prev != new ==> UpdateOp::of(prev, new)
            == UpdateOp::Updated(new->0),
        UpdateOp::<T>::Inserted.updated(),
        !UpdateOp::<T>::Noop.updated(),
        new matches Some(value) ==> UpdateOp::Updated(value).updated() && !UpdateOp::Deleted(
            value,
        ).updated(),
{
}

// === Devices ===

/// The connection over which a device is controlled.
#[derive(Clone, Copy, Debug, PartialEq, Eq, Structural)]
pub enum Link {
    AirPods,
    Nothing,
}

/// A headset and what is known about it.
#[derive(Debug)]
pub struct AirPods {
    address: Address,
    address_str: SmolStr,
    name: SmolStr,
    kind: DeviceKind,
    battery: Option<BatteryInfo>,
    is_connected: bool,
    ear_detection: Option<EarDetectionStatus>,
    noise_mode: Option<NoiseControlMode>,
    features: FeatureBitmap,
    features_present: FeatureBitmap,
    conn: Option<Link>,
    battery_tracker: BatteryTracker,
    nothing: NothingState,
}

/// What is known about a headset.
#[verifier::ext_equal]
pub struct AirPodsView {
    pub address: Address,
    pub name: Seq<char>,
    pub kind: DeviceKind,
    pub battery: Option<BatteryInfo>,
    pub connected: bool,
    pub ear_detection: Option<EarDetectionStatus>,
    pub noise_mode: Option<NoiseControlMode>,
    /// The features that are on, by identifier.
    pub features: Seq<bool>,
    /// The features that were heard of, by identifier.
    pub features_present: Seq<bool>,
    pub link: Option<Link>,
    pub tracker: TrackerView,
    pub nothing: NothingView,
}

/// Minutes until a charge is used up at 16.9 percent per hour.
pub open spec fn default_ttl(level: u8) -> u32 {
    (level * 600 / 169) as u32
}

impl AirPodsView {
    /// A headset that was just found.
    pub open spec fn found(address: Address, name: Seq<char>, kind: DeviceKind, studied: bool)
        -> AirPodsView {
        AirPodsView {
            address,
            name,
            kind,
            battery: None,
            connected: false,
            ear_detection: None,
            noise_mode: None,
            features: FeatureBitmap::no_flags(),
            features_present: FeatureBitmap::no_flags(),
            link: None,
            tracker: TrackerView::initial(studied),
            nothing: NothingView::initial(),
        }
    }

    /// The headset after a feature was heard of.
    pub open spec fn with_feature(self, feature: FeatureId, enabled: bool) -> AirPodsView {
        AirPodsView {
            features: self.features.update(feature.0 as int, enabled),
            features_present: self.features_present.update(feature.0 as int, true),
            ..self
        }
    }

    /// The features that were heard of, and which of them are on.
    pub open spec fn feature_list(self) -> Seq<(FeatureId, bool)> {
        let flags = self.features;
        members_below(self.features_present, FEATURE_COUNT as nat).map_values(
            |feature: FeatureId| (feature, flags[feature.0 as int]),
        )
    }

    /// The mode under which battery data are entered in the study.
    pub open spec fn study_mode(self) -> NoiseControlMode {
        match self.noise_mode {
            Some(mode) => mode,
            None => NoiseControlMode::Off,
        }
    }

    /// The headset after its battery data were saved.
    pub open spec fn after_save(self, local: Option<LocalRate>) -> AirPodsView {
        AirPodsView { tracker: self.tracker.after_save(self.study_mode(), local), ..self }
    }

    /// What a save enters in the study.
    pub open spec fn record_of(self, local: Option<LocalRate>) -> Option<DrainRecord> {
        self.tracker.record_of(self.study_mode(), local)
    }

    /// The headset after its connection was given up.
    pub open spec fn after_disconnect(self, local: Option<LocalRate>) -> AirPodsView {
        AirPodsView { connected: false, link: None, ..self.after_save(local) }
    }

    /// Whether battery data are to be saved.
    pub open spec fn save_due(self, interval_minutes: u32, now: Moment) -> bool {
        match self.battery {
            Some(battery) => self.tracker.save_due(interval_minutes, battery, now),
            None => false,
        }
    }

    /// The minutes that are left, given what the drain rate says.
    pub open spec fn ttl(self, forecast: Option<DrainForecast>) -> Option<u32> {
        match self.battery {
            Some(battery) => match ttl_of(battery, self.tracker.last_ttl, forecast) {
                Some(minutes) => Some(minutes),
                None => Some(default_ttl(battery.lowest_bud())),
            },
            None => None,
        }
    }

    /// The headset after the minutes that are left were asked for.
    pub open spec fn after_ttl(self, forecast: Option<DrainForecast>) -> AirPodsView {
        match self.battery {
            Some(battery) => AirPodsView {
                tracker: self.tracker.after_estimate(battery, forecast),
                ..self
            },
            None => self,
        }
    }
}

impl View for AirPods {
    type V = AirPodsView;

    closed spec fn view(&self) -> AirPodsView {
        AirPodsView {
            address: self.address,
            name: smol_chars(self.name),
            kind: self.kind,
            battery: self.battery,
            connected: self.is_connected,
            ear_detection: self.ear_detection,
            noise_mode: self.noise_mode,
            features: self.features@,
            features_present: self.features_present@,
            link: self.conn,
            tracker: self.battery_tracker@,
            nothing: self.nothing@,
        }
    }
}

/// Minutes between two saves of battery data.
pub const SAVE_INTERVAL_MINUTES: u32 = 5;

impl AirPods {
    /// The parts of the device are sound, and its address is written out.
    pub closed spec fn wf(self) -> bool {
        &&& smol_chars(self.address_str) == self.address.text()
        &&& self.features.wf()
        &&& self.features_present.wf()
        &&& self.battery_tracker.wf()
    }

    /// A device has one flag for each feature identifier.
    pub proof fn lemma_feature_flags(self)
        requires
            self.wf(),
        ensures
            self@.features.len() == FEATURE_COUNT,
            self@.features_present.len() == FEATURE_COUNT,
    {
    }

    /// The histories of a device are never longer than they may be.
    pub proof fn lemma_histories_are_bounded(self)
        requires
            self.wf(),
        ensures
            self@.tracker.left.len() <= 32,
            self@.tracker.right.len() <= 32,
    {
        self.battery_tracker.left_history.lemma_bounded();
        self.battery_tracker.right_history.lemma_bounded();
    }

    /// Creates a device of the common kind.
    pub fn new(address: Address, name: String, studied: bool) -> (device: AirPods)
        ensures
            device.wf(),
            device@ == AirPodsView::found(address, name@, DeviceKind::AirPods, studied),
    {
        AirPods::new_with_kind(address, name, DeviceKind::AirPods, studied)
    }

    /// Creates a device, with or without a battery study behind it.
    pub fn new_with_kind(address: Address, name: String, kind: DeviceKind, studied: bool)
        -> (device: AirPods)
        ensures
            device.wf(),
            device@ == AirPodsView::found(address, name@, kind, studied),
    {
        let text = address.to_text();
        AirPods {
            address,
            address_str: smol_new(text.as_str()),
            name: smol_new(name.as_str()),
            kind,
            battery: None,
            is_connected: false,
            ear_detection: None,
            noise_mode: None,
            features: FeatureBitmap::new(),
            features_present: FeatureBitmap::new(),
            conn: None,
            battery_tracker: BatteryTracker::new(studied),
            nothing: NothingState::default(),
        }
    }

    /// The address of the device.
    pub fn address(&self) -> (address: Address)
        ensures
            address == self@.address,
    {
        self.address
    }

    /// The address of the device as text.
    pub fn address_str(&self) -> (text: &SmolStr)
        requires
            self.wf(),
        ensures
            smol_chars(*text) == self@.address.text(),
    {
        &self.address_str
    }

    /// The kind of the device.
    pub fn kind(&self) -> (kind: DeviceKind)
        ensures
            kind == self@.kind,
    {
        self.kind
    }

    /// The name of the device.
    pub fn name(&self) -> (name: SmolStr)
        ensures
            smol_chars(name) == self@.name,
    {
        self.name.clone()
    }

    /// Takes note of a name. The name that it replaces is handed back.
    pub fn update_name(&mut self, name: SmolStr) -> (op: UpdateOp<SmolStr>)
        requires
            old(self).wf(),
        ensures
            final(self).wf(),
            final(self)@ == (AirPodsView { name: smol_chars(name), ..old(self)@ }),
            if smol_chars(name) == old(self)@.name {
                op is Noop
            } else {
                op matches UpdateOp::Updated(prev) && smol_chars(prev) == old(self)@.name
            },
    {
        if same_text(smol_as_str(&self.name), smol_as_str(&name)) {
            return UpdateOp::Noop;
        }
        let mut prev = name;
        std::mem::swap(&mut self.name, &mut prev);
        UpdateOp::Updated(prev)
    }

    /// The last battery report.
    pub fn battery_info(&self) -> (battery: Option<BatteryInfo>)
        ensures
            battery == self@.battery,
    {
        self.battery
    }

    /// Replaces the battery report.
    pub fn update_battery_info(&mut self, battery: Option<BatteryInfo>) -> (op: UpdateOp<
        BatteryInfo,
    >)
        requires
            old(self).wf(),
        ensures
            final(self).wf(),
            op == UpdateOp::of(old(self)@.battery, battery),
            final(self)@ == (AirPodsView { battery, ..old(self)@ }),
    {
        UpdateOp::apply(&mut self.battery, battery)
    }

    /// Tells whether the device is connected.
    pub fn is_connected(&self) -> (connected: bool)
        ensures
            connected == self@.connected,
    {
        self.is_connected
    }

    /// The last report on which buds are worn.
    pub fn ear_detection(&self) -> (status: Option<EarDetectionStatus>)
        ensures
            status == self@.ear_detection,
    {
        self.ear_detection
    }

    /// Replaces the report on which buds are worn.
    pub fn update_ear_detection(&mut self, status: Option<EarDetectionStatus>) -> (op: UpdateOp<
        EarDetectionStatus,
    >)
        requires
            old(self).wf(),
        ensures
            final(self).wf(),
            op == UpdateOp::of(old(self)@.ear_detection, status),
            final(self)@ == (AirPodsView { ear_detection: status, ..old(self)@ }),
    {
        UpdateOp::apply(&mut self.ear_detection, status)
    }

    /// The noise control mode, if it is known.
    pub fn noise_mode(&self) -> (mode: Option<NoiseControlMode>)
        ensures
            mode == self@.noise_mode,
    {
        self.noise_mode
    }

    /// Replaces the noise control mode.
    pub fn update_noise_mode(&mut self, mode: Option<NoiseControlMode>) -> (op: UpdateOp<
        NoiseControlMode,
    >)
        requires
            old(self).wf(),
        ensures
            final(self).wf(),
            op == UpdateOp::of(old(self)@.noise_mode, mode),
            final(self)@ == (AirPodsView { noise_mode: mode, ..old(self)@ }),
    {
        UpdateOp::apply(&mut self.noise_mode, mode)
    }

    /// Tells whether a feature is on.
    pub fn feature_enabled(&self, feature: FeatureId) -> (enabled: bool)
        requires
            self.wf(),
        ensures
            enabled == self@.features[feature.0 as int],
    {
        self.features.get(feature)
    }

    /// The features that were heard of, and which of them are on.
    pub fn features(&self) -> (list: Vec<(FeatureId, bool)>)
        requires
            self.wf(),
        ensures
            list@ == self@.feature_list(),
    {
        let present = self.features_present.iter();
        let mut list: Vec<(FeatureId, bool)> = Vec::new();
        let mut n: usize = 0;
        while n < present.len()
            invariant
                self.wf(),
                present@ == members_below(self@.features_present, FEATURE_COUNT as nat),
                n <= present@.len(),
                list@ == self@.feature_list().take(n as int),
            decreases present@.len() - n,
        {
            let feature = present[n];
            list.push((feature, self.feature_enabled(feature)));
            n = n + 1;
            assert(self@.feature_list().take(n as int) =~= self@.feature_list().take(n - 1).push(
                (feature, self@.features[feature.0 as int]),
            ));
        }
        assert(self@.feature_list().take(n as int) =~= self@.feature_list());
        list
    }

    /// Takes note of a feature. Tells whether it was on.
    pub fn set_feature_enabled(&mut self, feature: FeatureId, enabled: bool) -> (before: bool)
        requires
            old(self).wf(),
        ensures
            final(self).wf(),
            before == old(self)@.features[feature.0 as int],
            final(self)@ == old(self)@.with_feature(feature, enabled),
    {
        self.features_present.set(feature, true);
        self.features.set(feature, enabled)
    }

    /// The connection over which the device is controlled, if there is one.
    pub fn link(&self) -> (link: Option<Link>)
        ensures
            link == self@.link,
    {
        self.conn
    }

    /// The state that only Nothing/CMF headsets have.
    pub fn nothing(&self) -> (state: &NothingState)
        ensures
            state@ == self@.nothing,
    {
        &self.nothing
    }

    /// The state that only Nothing/CMF headsets have, to be changed.
    pub fn nothing_mut(&mut self) -> (state: &mut NothingState)
        requires
            old(self).wf(),
        ensures
            state@ == old(self)@.nothing,
            final(self).wf(),
            final(self)@ == (AirPodsView { nothing: final(state)@, ..old(self)@ }),
    {
        &mut self.nothing
    }

    /// The battery history of the device.
    pub fn battery_tracker(&self) -> (tracker: &BatteryTracker)
        requires
            self.wf(),
        ensures
            tracker.wf(),
            tracker@ == self@.tracker,
    {
        &self.battery_tracker
    }
}

// === Batteries ===

impl AirPods {
    /// Estimates the minutes that are left, given what the drain rate says. If
    /// the tracker has no estimate, a drain of 16.9 percent per hour is taken.
    pub fn estimate_battery_ttl(&mut self, forecast: Option<DrainForecast>) -> (ttl: Option<u32>)
        requires
            old(self).wf(),
        ensures
            final(self).wf(),
            ttl == old(self)@.ttl(forecast),
            final(self)@ == old(self)@.after_ttl(forecast),
    {
        match self.battery {
            None => None,
            Some(battery) => {
                match self.battery_tracker.estimate_ttl(&battery, forecast) {
                    Some(minutes) => Some(minutes),
                    None => {
                        let (left, right) = battery.split_ref();
                        let lowest: u8 = if left.level <= right.level {
                            left.level
                        } else {
                            right.level
                        };
                        Some((lowest as u32) * 600 / 169)
                    },
                }
            },
        }
    }

    /// Decides what an estimate of the minutes that are left is computed from.
    /// `local` is the drain rate of the session, and `rows` is what the study
    /// holds.
    pub fn plan_battery_ttl(
        &mut self,
        local: Option<LocalRate>,
        rows: &NoiseControlMap<HistoricalRate>,
        now: Moment,
    ) -> (plan: Option<TtlPlan>)
        requires
            old(self).wf(),
        ensures
            final(self).wf(),
            match old(self)@.battery {
                Some(battery) => {
                    &&& plan == old(self)@.tracker.plan(
                        battery,
                        old(self)@.noise_mode,
                        local,
                        rows@,
                        now,
                    )
                    &&& final(self)@ == (AirPodsView {
                        tracker: old(self)@.tracker.after_plan(
                            battery,
                            old(self)@.noise_mode,
                            rows@,
                            now,
                        ),
                        ..old(self)@
                    })
                },
                None => plan is None && final(self)@ == old(self)@,
            },
    {
        match self.battery {
            None => None,
            Some(battery) => {
                let mode = self.noise_mode;
                self.battery_tracker.plan_ttl(&battery, mode, local, rows, now)
            },
        }
    }

    /// Decides what is entered in the study, under the current mode or else the
    /// default one.
    pub fn save_battery_study(&mut self, local: Option<LocalRate>) -> (save: Option<DrainRecord>)
        requires
            old(self).wf(),
        ensures
            final(self).wf(),
            save == old(self)@.record_of(local),
            final(self)@ == old(self)@.after_save(local),
    {
        let mode = match self.noise_mode {
            Some(mode) => mode,
            None => NoiseControlMode::default(),
        };
        self.battery_tracker.save_to_study(mode, local)
    }

    /// Tells whether battery data are to be saved.
    pub fn should_save_battery_study(&self, interval_minutes: u32, now: Moment) -> (save: bool)
        requires
            self.wf(),
            self@.battery matches Some(battery) ==> (self@.tracker.save_ready(battery)
                ==> interval_minutes * 60 <= u32::MAX),
        ensures
            save == self@.save_due(interval_minutes, now),
    {
        match self.battery {
            Some(battery) => self.battery_tracker.should_save(interval_minutes, &battery, now),
            None => false,
        }
    }

    /// Saves battery data while the device is connected.
    pub fn periodic_battery_save(&mut self, local: Option<LocalRate>) -> (save: Option<DrainRecord>)
        requires
            old(self).wf(),
        ensures
            final(self).wf(),
            save == old(self)@.record_of(local),
            final(self)@ == old(self)@.after_save(local),
    {
        self.save_battery_study(local)
    }

    /// Does what is to be done from time to time: a connected device saves its
    /// battery data when they are due.
    pub fn tick(&mut self, now: Moment, local: Option<LocalRate>) -> (save: Option<DrainRecord>)
        requires
            old(self).wf(),
        ensures
            final(self).wf(),
            if old(self)@.connected && old(self)@.save_due(SAVE_INTERVAL_MINUTES, now) {
                &&& save == old(self)@.record_of(local)
                &&& final(self)@ == old(self)@.after_save(local)
            } else {
                &&& save is None
                &&& final(self)@ == old(self)@
            },
    {
        if self.is_connected && self.should_save_battery_study(SAVE_INTERVAL_MINUTES, now) {
            self.periodic_battery_save(local)
        } else {
            None
        }
    }
}

// === Connections ===

/// The connection that a kind of device is controlled over.
pub open spec fn link_of(kind: DeviceKind) -> Link {
    match kind {
        DeviceKind::AirPods => Link::AirPods,
        DeviceKind::Nothing { .. } => Link::Nothing,
    }
}

impl AirPodsView {
    /// The headset once its connection is open.
    pub open spec fn after_open(self) -> AirPodsView {
        AirPodsView { link: Some(link_of(self.kind)), connected: true, ..self }
    }

    /// Whether a session of the battery study begins once the connection is open.
    pub open spec fn begins_session(self) -> bool {
        self.kind is AirPods && self.tracker.studied
    }
}

impl AirPods {
    /// Drops the old connection. Returns which connection is to be opened.
    pub fn connect(&mut self) -> (link: Link)
        requires
            old(self).wf(),
        ensures
            final(self).wf(),
            link == link_of(old(self)@.kind),
            final(self)@ == (AirPodsView { link: None, ..old(self)@ }),
    {
        self.conn = None;
        match self.kind {
            DeviceKind::AirPods => Link::AirPods,
            DeviceKind::Nothing { .. } => Link::Nothing,
        }
    }

    /// Takes note that the connection is open. Tells whether a session of the
    /// battery study begins.
    pub fn connected(&mut self) -> (begins_session: bool)
        requires
            old(self).wf(),
        ensures
            final(self).wf(),
            begins_session == (old(self)@.kind == DeviceKind::AirPods && old(self)@.tracker.studied),
            final(self)@ == (AirPodsView {
                link: Some(link_of(old(self)@.kind)),
                connected: true,
                ..old(self)@
            }),
            begins_session == old(self)@.begins_session(),
            final(self)@ == old(self)@.after_open(),
    {
        self.is_connected = true;
        match self.kind {
            DeviceKind::AirPods => {
                self.conn = Some(Link::AirPods);
                self.battery_tracker.studied
            },
            DeviceKind::Nothing { .. } => {
                self.conn = Some(Link::Nothing);
                false
            },
        }
    }

    /// Gives the connection up. Returns what is to be entered in the study.
    pub fn disconnect(&mut self, local: Option<LocalRate>) -> (save: Option<DrainRecord>)
        requires
            old(self).wf(),
        ensures
            final(self).wf(),
            save == old(self)@.record_of(local),
            final(self)@ == old(self)@.after_disconnect(local),
    {
        let save = self.save_battery_study(local);
        self.is_connected = false;
        self.conn = None;
        save
    }

    /// Takes note that the connection broke. Returns what is to be entered in
    /// the study, and what listeners are to be told.
    pub fn notify_transport_disconnected(&mut self, local: Option<LocalRate>) -> (outcome: (
        Option<DrainRecord>,
        AirPodsEvent,
    ))
        requires
            old(self).wf(),
        ensures
            final(self).wf(),
            outcome.0 == old(self)@.record_of(local),
            outcome.1@ == EventView::DeviceDisconnected,
            final(self)@ == old(self)@.after_disconnect(local),
    {
        let save = self.disconnect(local);
        (save, AirPodsEvent::DeviceDisconnected)
    }
}

/// AirPods are controlled over their own kind of connection, and every model of
/// Nothing/CMF headset over the other.
pub proof fn law_connection_follows_the_kind(kind: DeviceKind)
    ensures
        link_of(kind) is AirPods <==> kind is AirPods,
        link_of(kind) is Nothing <==> kind is Nothing,
{
}

/// A headset whose connection is open is connected over the connection of its kind,
/// and can then be asked for what its kind can do; giving the connection up undoes
/// that. Only AirPods with a study begin a session.
pub proof fn law_open_connection_is_that_of_the_kind(
    device: AirPodsView,
    local: Option<LocalRate>,
)
    ensures
        ({
            let open = device.after_open();
            &&& open.connected
            &&& device.kind is AirPods ==> open.link == Some(Link::AirPods)
            &&& device.kind is Nothing ==> open.link == Some(Link::Nothing)
            &&& open == AirPodsView { connected: true, link: open.link, ..device }
            &&& !open.after_disconnect(local).connected
            &&& open.after_disconnect(local).link is None
            &&& device.begins_session() <==> device.kind is AirPods && device.tracker.studied
        }),
{
}

/// A headset that was just found has the address, the name and the kind that it
/// was found with. It is not connected, and nothing was reported of it yet.
pub proof fn law_found_headset_is_as_found(
    address: Address,
    name: Seq<char>,
    kind: DeviceKind,
    studied: bool,
    feature: FeatureId,
)
    ensures
        ({
            let device = AirPodsView::found(address, name, kind, studied);
            &&& device.address == address
            &&& device.name == name
            &&& device.kind == kind
            &&& !device.connected
            &&& device.link is None
            &&& device.battery is None
            &&& device.ear_detection is None
            &&& device.noise_mode is None
            &&& device.features.len() == 256 && !device.features[feature.0 as int]
            &&& device.features_present.len() == 256 && !device.features_present[feature.0 as int]
            &&& device.tracker.studied == studied
            &&& device.tracker.left.len() == 0 && device.tracker.right.len() == 0
            &&& device.tracker.last_ttl is None
            &&& device.nothing.firmware is None
            &&& device.nothing.anc_level is None
            &&& device.nothing.eq_preset is None
            &&& !device.nothing.ringing
            &&& device.nothing.operation_id == 0
        }),
{
}

/// A feature that was heard of is noted as it was heard, and no other feature is
/// touched, nor anything else of the headset.
pub proof fn law_feature_is_noted(
    device: AirPodsView,
    feature: FeatureId,
    enabled: bool,
    other: FeatureId,
)
    requires
        device.features.len() == 256,
        device.features_present.len() == 256,
    ensures
        ({
            let after = device.with_feature(feature, enabled);
            &&& after.features[feature.0 as int] == enabled
            &&& after.features_present[feature.0 as int]
            &&& other != feature ==> after.features[other.0 as int] == device.features[other.0 as int]
            &&& other != feature ==> after.features_present[other.0 as int]
                == device.features_present[other.0 as int]
            &&& after.features.len() == 256 && after.features_present.len() == 256
            &&& after == AirPodsView {
                features: after.features,
                features_present: after.features_present,
                ..device
            }
        }),
{
}

/// The features that were heard of are listed in ascending order, each once, and
/// each with whether it is on. No other feature is listed.
pub proof fn law_heard_features_are_listed(device: AirPodsView, feature: FeatureId, on: bool)
    requires
        device.features.len() == 256,
        device.features_present.len() == 256,
    ensures
        device.feature_list().contains((feature, on)) <==> device.features_present[feature.0 as int]
            && device.features[feature.0 as int] == on,
        forall|i: int, j: int|
            #![trigger device.feature_list()[i], device.feature_list()[j]]
            0 <= i < j < device.feature_list().len() ==> device.feature_list()[i].0.0
                < device.feature_list()[j].0.0,
{
    let present = members_below(device.features_present, 256);
    let list = device.feature_list();
    law_members_are_those_with_flags(device.features_present, 256, feature);
    assert forall|i: int| 0 <= i < list.len() implies #[trigger] list[i] == (
        present[i],
        device.features[present[i].0 as int],
    ) by {}
    if list.contains((feature, on)) {
        let k = list.index_of((feature, on));
        assert(list[k] == (feature, on));
        assert(present[k] == feature);
        assert(present.contains(feature));
    }
    if device.features_present[feature.0 as int] && device.features[feature.0 as int] == on {
        let k = present.index_of(feature);
        assert(list[k] == (feature, on));
    }
    assert forall|i: int, j: int|
        #![trigger list[i], list[j]]
        0 <= i < j < list.len() implies list[i].0.0 < list[j].0.0 by {
        assert(present[i].0 < present[j].0);
    }
}

/// Battery data are saved under the current noise control mode, or as if noise
/// control were off while the mode is not known. What is entered is the measured
/// rate with its samples, if there is a study and enough samples.
pub proof fn law_study_entry_is_under_the_mode(device: AirPodsView, local: Option<LocalRate>)
    ensures
        device.record_of(local) is Some <==> (local matches Some(measured) && measured.samples >= 4
            && device.tracker.studied),
        device.record_of(local) matches Some(record) ==> {
            &&& device.noise_mode matches Some(mode) ==> record.mode == mode
            &&& device.noise_mode is None ==> record.mode == NoiseControlMode::Off
            &&& record.rate == local->0.rate
            &&& record.samples == local->0.samples
        },
        device.noise_mode matches Some(mode) ==> device.study_mode() == mode,
        device.noise_mode is None ==> device.study_mode() == NoiseControlMode::Off,
{
}

/// A save shortens the histories to the last five samples and forgets the cached
/// rate of the mode that was entered. The headset is otherwise as before.
pub proof fn law_save_touches_only_the_tracker(device: AirPodsView, local: Option<LocalRate>)
    ensures
        ({
            let after = device.after_save(local);
            let left = device.tracker.left.len();
            let right = device.tracker.right.len();
            let mode = match device.noise_mode {
                Some(mode) => mode,
                None => NoiseControlMode::Off,
            };
            &&& after == AirPodsView { tracker: after.tracker, ..device }
            &&& left <= 5 ==> after.tracker.left == device.tracker.left
            &&& left > 5 ==> after.tracker.left == device.tracker.left.subrange(
                left - 5,
                left as int,
            )
            &&& right <= 5 ==> after.tracker.right == device.tracker.right
            &&& right > 5 ==> after.tracker.right == device.tracker.right.subrange(
                right - 5,
                right as int,
            )
            &&& device.record_of(local) is Some ==> after.tracker.cache
                == device.tracker.cache.remove(mode)
            &&& device.record_of(local) is None ==> after.tracker.cache == device.tracker.cache
            &&& after.tracker.last_ttl == device.tracker.last_ttl
            &&& after.tracker.studied == device.tracker.studied
        }),
{
    let mode = device.study_mode();
    law_save_keeps_the_last_samples(device.tracker, mode, local, mode);
}

/// A headset whose connection was given up is not connected and has no link. Its
/// battery data are saved, and what was reported of it is kept.
pub proof fn law_disconnected_headset_keeps_its_reports(
    device: AirPodsView,
    local: Option<LocalRate>,
)
    ensures
        ({
            let after = device.after_disconnect(local);
            &&& !after.connected
            &&& after.link is None
            &&& after.tracker == device.after_save(local).tracker
            &&& after == AirPodsView {
                connected: false,
                link: None,
                tracker: after.tracker,
                ..device
            }
        }),
{
}

/// Battery data are due for a save once a battery report is there, no bud charges,
/// one of the histories has three samples, and the first sample of one of them is
/// as old as the interval is long.
pub proof fn law_save_of_a_headset_is_due(device: AirPodsView, interval_minutes: u32, now: Moment)
    ensures
        device.save_due(interval_minutes, now) <==> {
            let left = device.tracker.left;
            let right = device.tracker.right;
            let needed = interval_minutes * 60 * 1_000_000_000;
            &&& device.battery matches Some(battery)
            &&& !(battery.left.status is Charging) && !(battery.right.status is Charging)
            &&& left.len() >= 3 || right.len() >= 3
            &&& {
                ||| interval_minutes == 0
                ||| left.len() > 0 && now.nanos - left[0].0.0 * 1_000_000_000 >= needed
                ||| right.len() > 0 && now.nanos - right[0].0.0 * 1_000_000_000 >= needed
            }
        },
{
    if let Some(battery) = device.battery {
        law_save_is_due(device.tracker, interval_minutes, battery, now);
    }
}

/// There are five minutes between two saves.
pub proof fn law_saves_are_five_minutes_apart(device: AirPodsView, now: Moment)
    ensures
        device.save_due(SAVE_INTERVAL_MINUTES, now) <==> device.save_due(5, now),
{
}

/// While there is a battery report there is an estimate: that of the tracker, and
/// where it has none, the whole minutes that the weaker bud lasts at 16.9 percent
/// per hour. Without a report there is none.
pub proof fn law_headset_estimate(device: AirPodsView, forecast: Option<DrainForecast>)
    ensures
        device.ttl(forecast) is Some <==> device.battery is Some,
        device.battery matches Some(battery) ==> {
            let own = ttl_of(battery, device.tracker.last_ttl, forecast);
            let weaker = if battery.left.level <= battery.right.level {
                battery.left.level
            } else {
                battery.right.level
            };
            let minutes = device.ttl(forecast)->0;
            &&& own is Some ==> device.ttl(forecast) == own
            &&& own is None ==> minutes * 169 <= weaker * 600 < (minutes + 1) * 169
            &&& device.after_ttl(forecast).tracker.last_ttl == own
        },
        device.battery is None ==> device.after_ttl(forecast) == device,
        device.after_ttl(forecast) == (AirPodsView {
            tracker: TrackerView {
                last_ttl: device.after_ttl(forecast).tracker.last_ttl,
                ..device.tracker
            },
            ..device
        }),
{
}

// === Requests ===

/// A request to a device. The first two are for the AirPods protocol.
pub enum Outgoing {
    /// A control command with a mode as its value.
    NoiseControl { command: u8, mode: NoiseControlMode },
    /// A command to turn a feature on or off.
    Feature { feature: FeatureId, enabled: bool },
    /// Bytes that are sent as they are.
    Frame(Packet),
}

/// What a request says.
pub enum OutgoingView {
    NoiseControl { command: u8, mode: NoiseControlMode },
    Feature { feature: FeatureId, enabled: bool },
    Frame(Seq<u8>),
}

impl View for Outgoing {
    type V = OutgoingView;

    open spec fn view(&self) -> OutgoingView {
        match *self {
            Outgoing::NoiseControl { command, mode } => OutgoingView::NoiseControl {
                command,
                mode,
            },
            Outgoing::Feature { feature, enabled } => OutgoingView::Feature { feature, enabled },
            Outgoing::Frame(packet) => OutgoingView::Frame(packet@),
        }
    }
}

/// What a request says, or why there is none.
pub open spec fn request_view(request: Result<Outgoing, AirPodsError>) -> Result<
    OutgoingView,
    AirPodsError,
> {
    match request {
        Ok(outgoing) => Ok(outgoing@),
        Err(error) => Err(error),
    }
}

/// The control command that sets the noise control mode.
pub const NOISE_CONTROL_COMMAND: u8 = 0x0D;

impl AirPodsView {
    /// The headset after a request took an identifier.
    pub open spec fn after_request(self) -> AirPodsView {
        AirPodsView { nothing: self.nothing.after_id(), ..self }
    }

    /// The answer to a request for a noise control mode, and the headset after
    /// it.
    pub open spec fn noise_control_request(self, mode: NoiseControlMode) -> (
        Result<OutgoingView, AirPodsError>,
        AirPodsView,
    ) {
        match self.link {
            None => (Err(AirPodsError::DeviceNotConnected), self),
            Some(Link::AirPods) => (
                Ok(OutgoingView::NoiseControl { command: NOISE_CONTROL_COMMAND, mode }),
                self,
            ),
            Some(Link::Nothing) => (
                Ok(OutgoingView::Frame(anc_request(level_of_mode(mode), self.nothing.next_id()))),
                self.after_request(),
            ),
        }
    }

    /// The headset once a request for a noise control mode was sent.
    pub open spec fn with_noise_control(self, mode: NoiseControlMode) -> AirPodsView {
        match self.link {
            None => self,
            Some(Link::AirPods) => AirPodsView { noise_mode: Some(mode), ..self },
            Some(Link::Nothing) => AirPodsView {
                noise_mode: Some(mode),
                nothing: NothingView { anc_level: Some(level_of_mode(mode)), ..self.nothing },
                ..self
            },
        }
    }

    /// The answer to a request for a level of noise control, and the headset
    /// after it.
    pub open spec fn anc_level_request(self, level: u8) -> (
        Result<OutgoingView, AirPodsError>,
        AirPodsView,
    ) {
        match self.link {
            None => (Err(AirPodsError::DeviceNotConnected), self),
            Some(Link::AirPods) => (
                Err(AirPodsError::FeatureNotSupported(Unsupported::AncLevels)),
                self,
            ),
            Some(Link::Nothing) => if 1 <= level <= 6 {
                (
                    Ok(OutgoingView::Frame(anc_request(level, self.nothing.next_id()))),
                    self.after_request(),
                )
            } else {
                (Err(AirPodsError::FeatureNotSupported(Unsupported::AncLevel(level))), self)
            },
        }
    }

    /// The headset once a request for a level of noise control was sent.
    pub open spec fn with_anc_level(self, level: u8) -> AirPodsView {
        AirPodsView {
            noise_mode: match mode_of_level(level) {
                Some(mode) => Some(mode),
                None => self.noise_mode,
            },
            nothing: NothingView { anc_level: Some(level), ..self.nothing },
            ..self
        }
    }

    /// The answer to a request for an equaliser preset, and the headset after it.
    pub open spec fn eq_preset_request(self, preset: u8) -> (
        Result<OutgoingView, AirPodsError>,
        AirPodsView,
    ) {
        match self.link {
            None => (Err(AirPodsError::DeviceNotConnected), self),
            Some(Link::AirPods) => (
                Err(AirPodsError::FeatureNotSupported(Unsupported::EqPresets)),
                self,
            ),
            Some(Link::Nothing) => (
                Ok(OutgoingView::Frame(eq_request(preset, self.nothing.next_id()))),
                self.after_request(),
            ),
        }
    }

    /// The answer to a request to start or stop the ringing, and the headset
    /// after it.
    pub open spec fn ring_request(self, enabled: bool) -> (
        Result<OutgoingView, AirPodsError>,
        AirPodsView,
    ) {
        match self.link {
            None => (Err(AirPodsError::DeviceNotConnected), self),
            Some(Link::AirPods) => (
                Err(AirPodsError::FeatureNotSupported(Unsupported::Ring)),
                self,
            ),
            Some(Link::Nothing) => (
                Ok(OutgoingView::Frame(ring_request(enabled, self.nothing.next_id()))),
                self.after_request(),
            ),
        }
    }
}

impl AirPodsView {
    /// The answer to a request to turn a feature on or off.
    pub open spec fn feature_request(self, feature: FeatureId, enabled: bool) -> Result<
        OutgoingView,
        AirPodsError,
    > {
        match self.link {
            None => Err(AirPodsError::DeviceNotConnected),
            Some(Link::AirPods) => Ok(OutgoingView::Feature { feature, enabled }),
            Some(Link::Nothing) => Err(
                AirPodsError::FeatureNotSupported(Unsupported::FeatureFlags),
            ),
        }
    }

    /// The headset once a request for an equaliser preset was sent.
    pub open spec fn with_eq_preset(self, preset: u8) -> AirPodsView {
        AirPodsView {
            nothing: NothingView { eq_preset: Some(preset), ..self.nothing },
            ..self
        }
    }

    /// The headset once a request to start or stop the ringing was sent.
    pub open spec fn with_ringing(self, enabled: bool) -> AirPodsView {
        AirPodsView { nothing: NothingView { ringing: enabled, ..self.nothing }, ..self }
    }
}

impl AirPods {
    /// The request for a noise control mode.
    pub fn set_noise_control(&mut self, mode: NoiseControlMode) -> (request: Result<
        Outgoing,
        AirPodsError,
    >)
        requires
            old(self).wf(),
        ensures
            final(self).wf(),
            request_view(request) == old(self)@.noise_control_request(mode).0,
            final(self)@ == old(self)@.noise_control_request(mode).1,
    {
        match self.conn {
            None => Err(AirPodsError::DeviceNotConnected),
            Some(Link::AirPods) => {
                Ok(Outgoing::NoiseControl { command: NOISE_CONTROL_COMMAND, mode })
            },
            Some(Link::Nothing) => {
                match set_noise_control(&mut self.nothing, mode) {
                    Ok(packet) => Ok(Outgoing::Frame(packet)),
                    Err(error) => Err(error),
                }
            },
        }
    }

    /// Takes note that the request for a noise control mode was sent.
    pub fn noise_control_sent(&mut self, mode: NoiseControlMode)
        requires
            old(self).wf(),
        ensures
            final(self).wf(),
            final(self)@ == old(self)@.with_noise_control(mode),
    {
        match self.conn {
            None => {},
            Some(Link::AirPods) => {
                self.noise_mode = Some(mode);
            },
            Some(Link::Nothing) => {
                let _ = self.nothing.update_anc_level(mode_to_anc_level(mode));
                self.noise_mode = Some(mode);
            },
        }
    }

    /// Tells over which connection raw bytes are sent.
    pub fn passthrough(&self) -> (link: Result<Link, AirPodsError>)
        ensures
            link == match self@.link {
                Some(link) => Ok::<Link, AirPodsError>(link),
                None => Err(AirPodsError::DeviceNotConnected),
            },
    {
        match self.conn {
            Some(link) => Ok(link),
            None => Err(AirPodsError::DeviceNotConnected),
        }
    }

    /// The request for a level of noise control.
    pub fn set_nothing_anc_level(&mut self, level: u8) -> (request: Result<Outgoing, AirPodsError>)
        requires
            old(self).wf(),
        ensures
            final(self).wf(),
            request_view(request) == old(self)@.anc_level_request(level).0,
            final(self)@ == old(self)@.anc_level_request(level).1,
    {
        match self.conn {
            None => Err(AirPodsError::DeviceNotConnected),
            Some(Link::AirPods) => {
                Err(AirPodsError::FeatureNotSupported(Unsupported::AncLevels))
            },
            Some(Link::Nothing) => {
                match set_anc_level(&mut self.nothing, level) {
                    Ok(packet) => Ok(Outgoing::Frame(packet)),
                    Err(error) => Err(error),
                }
            },
        }
    }

    /// Takes note that the request for a level of noise control was sent.
    pub fn anc_level_sent(&mut self, level: u8)
        requires
            old(self).wf(),
        ensures
            final(self).wf(),
            final(self)@ == old(self)@.with_anc_level(level),
    {
        let _ = self.nothing.update_anc_level(level);
        if let Some(mode) = anc_level_to_mode(level) {
            self.noise_mode = Some(mode);
        }
    }

    /// The request for an equaliser preset.
    pub fn set_nothing_eq_preset(&mut self, preset: u8) -> (request: Result<Outgoing, AirPodsError>)
        requires
            old(self).wf(),
        ensures
            final(self).wf(),
            request_view(request) == old(self)@.eq_preset_request(preset).0,
            final(self)@ == old(self)@.eq_preset_request(preset).1,
    {
        match self.conn {
            None => Err(AirPodsError::DeviceNotConnected),
            Some(Link::AirPods) => {
                Err(AirPodsError::FeatureNotSupported(Unsupported::EqPresets))
            },
            Some(Link::Nothing) => Ok(Outgoing::Frame(set_eq_preset(&mut self.nothing, preset))),
        }
    }

    /// Takes note that the request for an equaliser preset was sent.
    pub fn eq_preset_sent(&mut self, preset: u8)
        requires
            old(self).wf(),
        ensures
            final(self).wf(),
            final(self)@ == (AirPodsView {
                nothing: NothingView { eq_preset: Some(preset), ..old(self)@.nothing },
                ..old(self)@
            }),
            final(self)@ == old(self)@.with_eq_preset(preset),
    {
        let _ = self.nothing.update_eq_preset(preset);
    }

    /// The request that starts or stops the ringing.
    pub fn set_nothing_ring(&mut self, enabled: bool) -> (request: Result<Outgoing, AirPodsError>)
        requires
            old(self).wf(),
        ensures
            final(self).wf(),
            request_view(request) == old(self)@.ring_request(enabled).0,
            final(self)@ == old(self)@.ring_request(enabled).1,
    {
        match self.conn {
            None => Err(AirPodsError::DeviceNotConnected),
            Some(Link::AirPods) => Err(AirPodsError::FeatureNotSupported(Unsupported::Ring)),
            Some(Link::Nothing) => Ok(Outgoing::Frame(set_ring(&mut self.nothing, enabled))),
        }
    }

    /// Takes note that the request to start or stop the ringing was sent.
    pub fn ring_sent(&mut self, enabled: bool)
        requires
            old(self).wf(),
        ensures
            final(self).wf(),
            final(self)@ == (AirPodsView {
                nothing: NothingView { ringing: enabled, ..old(self)@.nothing },
                ..old(self)@
            }),
            final(self)@ == old(self)@.with_ringing(enabled),
    {
        self.nothing.set_ringing(enabled);
    }

    /// The request that turns a feature on or off.
    pub fn set_feature(&self, feature: FeatureId, enabled: bool) -> (request: Result<
        Outgoing,
        AirPodsError,
    >)
        ensures
            request_view(request) == match self@.link {
                None => Err::<OutgoingView, AirPodsError>(AirPodsError::DeviceNotConnected),
                Some(Link::AirPods) => Ok(OutgoingView::Feature { feature, enabled }),
                Some(Link::Nothing) => Err(
                    AirPodsError::FeatureNotSupported(Unsupported::FeatureFlags),
                ),
            },
            request_view(request) == self@.feature_request(feature, enabled),
    {
        match self.conn {
            None => Err(AirPodsError::DeviceNotConnected),
            Some(Link::AirPods) => Ok(Outgoing::Feature { feature, enabled }),
            Some(Link::Nothing) => {
                Err(AirPodsError::FeatureNotSupported(Unsupported::FeatureFlags))
            },
        }
    }

    /// Takes note that the request to turn a feature on or off was sent.
    pub fn feature_sent(&mut self, feature: FeatureId, enabled: bool)
        requires
            old(self).wf(),
        ensures
            final(self).wf(),
            final(self)@ == old(self)@.with_feature(feature, enabled),
    {
        let _ = self.set_feature_enabled(feature, enabled);
    }
}

/// A device without a connection refuses every request and stays as it is.
pub proof fn law_disconnected_device_refuses(
    device: AirPodsView,
    mode: NoiseControlMode,
    value: u8,
    enabled: bool,
)
    requires
        device.link is None,
    ensures
        ({
            let refusal = (
                Err::<OutgoingView, AirPodsError>(AirPodsError::DeviceNotConnected),
                device,
            );
            &&& device.noise_control_request(mode) == refusal
            &&& device.anc_level_request(value) == refusal
            &&& device.eq_preset_request(value) == refusal
            &&& device.ring_request(enabled) == refusal
        }),
{
}

/// Once a mode was requested and sent, the device has that mode, and a level
/// that belongs to it if the device has levels.
pub proof fn law_sent_mode_is_kept(device: AirPodsView, mode: NoiseControlMode)
    requires
        device.link is Some,
    ensures
        ({
            let after = device.noise_control_request(mode).1.with_noise_control(mode);
            &&& after.noise_mode == Some(mode)
            &&& device.link == Some(Link::Nothing) ==> mode_of_level(after.nothing.anc_level->0)
                == Some(mode)
        }),
{
}

/// What a request says is what it holds.
pub proof fn law_request_says_what_it_holds(
    command: u8,
    mode: NoiseControlMode,
    feature: FeatureId,
    enabled: bool,
    packet: Packet,
    error: AirPodsError,
)
    ensures
        (Outgoing::NoiseControl { command, mode })@ == (OutgoingView::NoiseControl {
            command,
            mode,
        }),
        (Outgoing::Feature { feature, enabled })@ == (OutgoingView::Feature { feature, enabled }),
        Outgoing::Frame(packet)@ == OutgoingView::Frame(packet@),
        request_view(Err(error)) == Err::<OutgoingView, AirPodsError>(error),
        forall|outgoing: Outgoing| #[trigger] request_view(Ok(outgoing)) == Ok::<
            OutgoingView,
            AirPodsError,
        >(outgoing@),
{
}

/// Over an AirPods connection the request for a mode is the control command 0x0D
/// with that very mode, so requests for different modes differ. The headset stays
/// as it is until the request was sent, and is then in the mode that the request
/// carries; nothing else of it changes.
pub proof fn law_airpods_are_asked_for_the_mode(
    device: AirPodsView,
    mode: NoiseControlMode,
    other: NoiseControlMode,
)
    requires
        device.link == Some(Link::AirPods),
    ensures
        ({
            let (request, after) = device.noise_control_request(mode);
            let sent = after.with_noise_control(mode);
            &&& request matches Ok(OutgoingView::NoiseControl { command, mode: asked })
            &&& command == 0x0d
            &&& asked == mode
            &&& other != mode ==> device.noise_control_request(other).0 != request
            &&& after == device
            &&& sent.noise_mode == Some(asked)
            &&& sent == AirPodsView { noise_mode: sent.noise_mode, ..device }
        }),
{
}

/// Over a Nothing/CMF connection the request for a mode is a single frame that, if
/// its payload were reported, would give a level of that mode, so requests for
/// different modes differ. Only the identifier of the request is used up. Once it
/// was sent the headset is in that mode, at the level that the request carries.
pub proof fn law_nothing_headset_is_asked_for_the_mode(
    device: AirPodsView,
    mode: NoiseControlMode,
    other: NoiseControlMode,
)
    requires
        device.link == Some(Link::Nothing),
    ensures
        ({
            let (request, after) = device.noise_control_request(mode);
            let sent = after.with_noise_control(mode);
            let id = (device.nothing.operation_id % 255 + 1) as u8;
            let status = match mode {
                NoiseControlMode::Off => 5u8,
                NoiseControlMode::Transparency => 7u8,
                NoiseControlMode::Active => 1u8,
                NoiseControlMode::Adaptive => 4u8,
            };
            let frame = FrameView {
                command: 0xf00f,
                operation_id: id,
                payload: seq![1u8, status, 0u8],
            };
            &&& request matches Ok(OutgoingView::Frame(bytes))
            &&& scan(bytes) == (seq![frame], Seq::<u8>::empty())
            &&& reported_level(frame.payload) matches Some(level) && mode_of_level(level) == Some(
                mode,
            )
            &&& other != mode ==> device.noise_control_request(other).0 != request
            &&& after == AirPodsView {
                nothing: NothingView { operation_id: id, ..device.nothing },
                ..device
            }
            &&& sent.noise_mode == Some(mode)
            &&& sent.nothing.anc_level == reported_level(frame.payload)
            &&& sent == AirPodsView {
                noise_mode: sent.noise_mode,
                nothing: NothingView { anc_level: sent.nothing.anc_level, ..after.nothing },
                ..after
            }
        }),
{
    let id = device.nothing.next_id();
    let level = level_of_mode(mode);
    let payload = seq![0x01u8, status_of_level(level)->0, 0x00u8];
    law_request_is_one_frame(CMD_SET_ANC, payload, id);
    let other_payload = seq![0x01u8, status_of_level(level_of_mode(other))->0, 0x00u8];
    law_request_is_one_frame(CMD_SET_ANC, other_payload, id);
    let read = scan(anc_request(level, id)).0;
    let other_read = scan(anc_request(level_of_mode(other), id)).0;
    assert(read[0].payload == payload);
    assert(other_read[0].payload == other_payload);
    assert(payload[1] == other_payload[1] ==> mode == other);
}

/// Over a Nothing/CMF connection the request for a level is a single frame that, if
/// its payload were reported, would give that level. A level that there is not is
/// refused by its number, and no identifier is used up.
pub proof fn law_nothing_headset_is_asked_for_the_level(device: AirPodsView, level: u8)
    requires
        device.link == Some(Link::Nothing),
    ensures
        ({
            let (request, after) = device.anc_level_request(level);
            let id = (device.nothing.operation_id % 255 + 1) as u8;
            if 1 <= level <= 6 {
                &&& request matches Ok(OutgoingView::Frame(bytes))
                &&& scan(bytes).0.len() == 1
                &&& scan(bytes).0[0].command == 0xf00f
                &&& scan(bytes).0[0].operation_id == id
                &&& scan(bytes).0[0].payload.len() == 3
                &&& scan(bytes).0[0].payload[0] == 1
                &&& scan(bytes).0[0].payload[2] == 0
                &&& reported_level(scan(bytes).0[0].payload) == Some(level)
                &&& scan(bytes).1.len() == 0
                &&& after == AirPodsView {
                    nothing: NothingView { operation_id: id, ..device.nothing },
                    ..device
                }
            } else {
                &&& request == Err::<OutgoingView, AirPodsError>(
                    AirPodsError::FeatureNotSupported(Unsupported::AncLevel(level)),
                )
                &&& after == device
            }
        }),
{
    if 1 <= level <= 6 {
        law_level_request_names_its_level(level, device.nothing.next_id());
    }
}

/// Once a level was sent it is noted, together with the mode that it belongs to;
/// a level without a mode leaves the mode as it was. Nothing else changes.
pub proof fn law_sent_level_is_kept(device: AirPodsView, level: u8)
    ensures
        ({
            let sent = device.with_anc_level(level);
            &&& sent.nothing.anc_level == Some(level)
            &&& level == 1 ==> sent.noise_mode == Some(NoiseControlMode::Off)
            &&& level == 2 ==> sent.noise_mode == Some(NoiseControlMode::Transparency)
            &&& 3 <= level <= 5 ==> sent.noise_mode == Some(NoiseControlMode::Active)
            &&& level == 6 ==> sent.noise_mode == Some(NoiseControlMode::Adaptive)
            &&& level == 0 || level > 6 ==> sent.noise_mode == device.noise_mode
            &&& sent == AirPodsView {
                noise_mode: sent.noise_mode,
                nothing: NothingView { anc_level: sent.nothing.anc_level, ..device.nothing },
                ..device
            }
        }),
{
}

/// Over a Nothing/CMF connection the request for a preset is a single frame that, if
/// its payload were reported, would give that preset; requests for different
/// presets differ.
pub proof fn law_nothing_headset_is_asked_for_the_preset(
    device: AirPodsView,
    preset: u8,
    other: u8,
)
    requires
        device.link == Some(Link::Nothing),
    ensures
        ({
            let (request, after) = device.eq_preset_request(preset);
            let id = (device.nothing.operation_id % 255 + 1) as u8;
            let frame = FrameView {
                command: 0xf01d,
                operation_id: id,
                payload: seq![preset, 0u8],
            };
            &&& request matches Ok(OutgoingView::Frame(bytes))
            &&& scan(bytes) == (seq![frame], Seq::<u8>::empty())
            &&& reported_preset(frame.payload) == Some(preset)
            &&& other != preset ==> device.eq_preset_request(other).0 != request
            &&& after == AirPodsView {
                nothing: NothingView { operation_id: id, ..device.nothing },
                ..device
            }
        }),
{
    let id = device.nothing.next_id();
    law_request_is_one_frame(CMD_SET_LISTENING_MODE, seq![preset, 0x00u8], id);
    law_request_is_one_frame(CMD_SET_LISTENING_MODE, seq![other, 0x00u8], id);
    let read = scan(eq_request(preset, id)).0;
    let other_read = scan(eq_request(other, id)).0;
    assert(read[0].payload[0] == preset);
    assert(other_read[0].payload[0] == other);
}

/// Over a Nothing/CMF connection the request about the ringing is a single frame:
/// the same command starts the ringing with a one and stops it with a zero, so the
/// two requests differ. Only the identifier of the request is used up.
pub proof fn law_nothing_headset_is_told_to_ring_or_stop(device: AirPodsView, enabled: bool)
    requires
        device.link == Some(Link::Nothing),
    ensures
        ({
            let (request, after) = device.ring_request(enabled);
            let id = (device.nothing.operation_id % 255 + 1) as u8;
            let frame = FrameView {
                command: 0xf002,
                operation_id: id,
                payload: if enabled {
                    seq![2u8, 1u8]
                } else {
                    seq![2u8, 0u8]
                },
            };
            &&& request matches Ok(OutgoingView::Frame(bytes))
            &&& scan(bytes) == (seq![frame], Seq::<u8>::empty())
            &&& device.ring_request(!enabled).0 != request
            &&& after == AirPodsView {
                nothing: NothingView { operation_id: id, ..device.nothing },
                ..device
            }
        }),
{
    let id = device.nothing.next_id();
    law_request_is_one_frame(CMD_RING, seq![0x02u8, if enabled { 1u8 } else { 0u8 }], id);
    law_request_is_one_frame(CMD_RING, seq![0x02u8, if !enabled { 1u8 } else { 0u8 }], id);
    let read = scan(ring_request(enabled, id)).0;
    let other_read = scan(ring_request(!enabled, id)).0;
    assert(read[0].payload[1] != other_read[0].payload[1]);
    assert(seq![0x02u8, if enabled { 1u8 } else { 0u8 }] =~= if enabled {
        seq![2u8, 1u8]
    } else {
        seq![2u8, 0u8]
    });
}

/// AirPods refuse what only Nothing/CMF headsets can do, each request for its own
/// reason, and stay as they are.
pub proof fn law_airpods_refuse_nothing_requests(device: AirPodsView, value: u8, enabled: bool)
    requires
        device.link == Some(Link::AirPods),
    ensures
        device.anc_level_request(value).0 == Err::<OutgoingView, AirPodsError>(
            AirPodsError::FeatureNotSupported(Unsupported::AncLevels),
        ),
        device.eq_preset_request(value).0 == Err::<OutgoingView, AirPodsError>(
            AirPodsError::FeatureNotSupported(Unsupported::EqPresets),
        ),
        device.ring_request(enabled).0 == Err::<OutgoingView, AirPodsError>(
            AirPodsError::FeatureNotSupported(Unsupported::Ring),
        ),
        device.anc_level_request(value).1 == device,
        device.eq_preset_request(value).1 == device,
        device.ring_request(enabled).1 == device,
{
}

/// AirPods are asked to turn on or off the very feature that was named, so requests
/// for different features, and those to turn one on and off, differ. Once the
/// request was sent the feature is as it was asked to be. Nothing/CMF headsets have
/// no features, and without a connection there is no request.
pub proof fn law_named_feature_is_turned_on_or_off(
    device: AirPodsView,
    feature: FeatureId,
    other: FeatureId,
    enabled: bool,
)
    requires
        device.features.len() == 256,
    ensures
        ({
            let request = device.feature_request(feature, enabled);
            &&& device.link == Some(Link::AirPods) ==> {
                &&& request matches Ok(OutgoingView::Feature { feature: named, enabled: on })
                &&& named == feature
                &&& on == enabled
                &&& device.feature_request(feature, !enabled) != request
                &&& other != feature ==> device.feature_request(other, enabled) != request
                &&& device.with_feature(named, on).features[feature.0 as int] == enabled
            }
            &&& device.link == Some(Link::Nothing) ==> request == Err::<OutgoingView, AirPodsError>(
                AirPodsError::FeatureNotSupported(Unsupported::FeatureFlags),
            )
            &&& device.link is None ==> request == Err::<OutgoingView, AirPodsError>(
                AirPodsError::DeviceNotConnected,
            )
        }),
{
}

/// Once a preset was sent it is noted, and once the headset was told to ring or to
/// stop it is noted whether it rings. Nothing else of the headset changes.
pub proof fn law_sent_preset_and_ringing_are_kept(
    device: AirPodsView,
    preset: u8,
    enabled: bool,
)
    ensures
        device.with_eq_preset(preset).nothing.eq_preset == Some(preset),
        device.with_eq_preset(preset) == (AirPodsView {
            nothing: NothingView {
                eq_preset: device.with_eq_preset(preset).nothing.eq_preset,
                ..device.nothing
            },
            ..device
        }),
        device.with_ringing(enabled).nothing.ringing == enabled,
        device.with_ringing(enabled) == (AirPodsView {
            nothing: NothingView {
                ringing: device.with_ringing(enabled).nothing.ringing,
                ..device.nothing
            },
            ..device
        }),
{
}

/// A mode that was sent is noted only while there is a connection.
pub proof fn law_mode_is_not_noted_without_a_connection(
    device: AirPodsView,
    mode: NoiseControlMode,
)
    requires
        device.link is None,
    ensures
        device.with_noise_control(mode) == device,
{
}

// === Packets of the AirPods protocol ===

/// The beginnings by which packets are told apart.
#[derive(Clone, Debug)]
pub struct PacketHeaders {
    pub battery_state: Vec<u8>,
    pub noise_control: Vec<u8>,
    pub ear_detection: Vec<u8>,
    pub metadata: Vec<u8>,
    pub ack_handshake: Vec<u8>,
    pub ack_features: Vec<u8>,
}

/// What a packet is about.
#[derive(Clone, Copy, Debug, PartialEq, Eq, Structural)]
pub enum PacketKind {
    BatteryState,
    NoiseControl,
    EarDetection,
    Metadata,
    AckHandshake,
    AckFeatures,
    /// A feature command, or something unknown.
    Other,
}

/// Whether a packet begins with a header.
pub open spec fn begins_with(packet: Seq<u8>, header: Seq<u8>) -> bool {
    header.len() <= packet.len() && packet.take(header.len() as int) == header
}

/// What a packet is about: the first header that it begins with decides.
pub open spec fn kind_of_packet(packet: Seq<u8>, headers: PacketHeaders) -> PacketKind {
    if begins_with(packet, headers.battery_state@) {
        PacketKind::BatteryState
    } else if begins_with(packet, headers.noise_control@) {
        PacketKind::NoiseControl
    } else if begins_with(packet, headers.ear_detection@) {
        PacketKind::EarDetection
    } else if begins_with(packet, headers.metadata@) {
        PacketKind::Metadata
    } else if begins_with(packet, headers.ack_handshake@) {
        PacketKind::AckHandshake
    } else if begins_with(packet, headers.ack_features@) {
        PacketKind::AckFeatures
    } else {
        PacketKind::Other
    }
}

/// Tells whether a packet begins with a header.
pub fn starts_with(packet: &[u8], header: &Vec<u8>) -> (begins: bool)
    ensures
        begins == begins_with(packet@, header@),
{
    if packet.len() < header.len() {
        return false;
    }
    let mut n: usize = 0;
    while n < header.len()
        invariant
            n <= header@.len() <= packet@.len(),
            forall|k: int| 0 <= k < n ==> packet@[k] == header@[k],
        decreases header@.len() - n,
    {
        if packet[n] != header[n] {
            assert(packet@.take(header@.len() as int)[n as int] != header@[n as int]);
            return false;
        }
        n = n + 1;
    }
    assert(packet@.take(header@.len() as int) =~= header@);
    true
}

/// Tells what a packet is about.
pub fn classify_packet(packet: &[u8], headers: &PacketHeaders) -> (kind: PacketKind)
    ensures
        kind == kind_of_packet(packet@, *headers),
{
    if starts_with(packet, &headers.battery_state) {
        PacketKind::BatteryState
    } else if starts_with(packet, &headers.noise_control) {
        PacketKind::NoiseControl
    } else if starts_with(packet, &headers.ear_detection) {
        PacketKind::EarDetection
    } else if starts_with(packet, &headers.metadata) {
        PacketKind::Metadata
    } else if starts_with(packet, &headers.ack_handshake) {
        PacketKind::AckHandshake
    } else if starts_with(packet, &headers.ack_features) {
        PacketKind::AckFeatures
    } else {
        PacketKind::Other
    }
}

/// What a feature command does.
#[derive(Clone, Copy, Debug, PartialEq, Eq, Structural)]
pub enum FeatureCmd {
    Enable,
    Disable,
    /// Something that leaves the feature as it is.
    Other,
}

/// What a packet reports.
#[derive(Clone, Debug)]
pub enum PacketReport {
    Battery(BatteryInfo),
    NoiseControl(NoiseControlMode),
    EarDetection(EarDetectionStatus),
    /// A name may be among the metadata.
    Metadata { name_candidate: Option<SmolStr> },
    Feature { feature: FeatureId, command: FeatureCmd },
    /// An acknowledgement, something unknown, or something that cannot be read.
    Nothing,
}

/// What can be read from a packet. A part is `None` if the packet cannot be read
/// that way.
#[derive(Clone, Debug)]
pub struct PacketReading {
    pub battery: Option<BatteryInfo>,
    pub noise_mode: Option<NoiseControlMode>,
    pub ear_detection: Option<EarDetectionStatus>,
    pub name_candidate: Option<SmolStr>,
    pub feature: Option<(FeatureId, FeatureCmd)>,
}

/// What a packet reports: the part of its reading that belongs to its kind.
pub open spec fn report_of(kind: PacketKind, reading: PacketReading) -> PacketReport {
    match kind {
        PacketKind::BatteryState => match reading.battery {
            Some(battery) => PacketReport::Battery(battery),
            None => PacketReport::Nothing,
        },
        PacketKind::NoiseControl => match reading.noise_mode {
            Some(mode) => PacketReport::NoiseControl(mode),
            None => PacketReport::Nothing,
        },
        PacketKind::EarDetection => match reading.ear_detection {
            Some(status) => PacketReport::EarDetection(status),
            None => PacketReport::Nothing,
        },
        PacketKind::Metadata => PacketReport::Metadata { name_candidate: reading.name_candidate },
        PacketKind::AckHandshake => PacketReport::Nothing,
        PacketKind::AckFeatures => PacketReport::Nothing,
        PacketKind::Other => match reading.feature {
            Some((feature, command)) => PacketReport::Feature { feature, command },
            None => PacketReport::Nothing,
        },
    }
}

/// Picks the part of a reading that belongs to the kind of the packet.
pub fn pick_report(kind: PacketKind, reading: PacketReading) -> (report: PacketReport)
    ensures
        report == report_of(kind, reading),
{
    match kind {
        PacketKind::BatteryState => match reading.battery {
            Some(battery) => PacketReport::Battery(battery),
            None => PacketReport::Nothing,
        },
        PacketKind::NoiseControl => match reading.noise_mode {
            Some(mode) => PacketReport::NoiseControl(mode),
            None => PacketReport::Nothing,
        },
        PacketKind::EarDetection => match reading.ear_detection {
            Some(status) => PacketReport::EarDetection(status),
            None => PacketReport::Nothing,
        },
        PacketKind::Metadata => PacketReport::Metadata { name_candidate: reading.name_candidate },
        PacketKind::AckHandshake => PacketReport::Nothing,
        PacketKind::AckFeatures => PacketReport::Nothing,
        PacketKind::Other => match reading.feature {
            Some((feature, command)) => PacketReport::Feature { feature, command },
            None => PacketReport::Nothing,
        },
    }
}

impl AirPodsView {
    /// What a report makes of a headset, and what listeners are told.
    pub open spec fn after_report(self, report: PacketReport, now: Moment) -> (
        AirPodsView,
        Option<EventView>,
    ) {
        match report {
            PacketReport::Battery(battery) => if self.battery == Some(battery) {
                (self, None)
            } else {
                (
                    AirPodsView {
                        battery: Some(battery),
                        tracker: self.tracker.after_reports(battery.left, battery.right, now),
                        ..self
                    },
                    Some(EventView::BatteryUpdated(battery)),
                )
            },
            PacketReport::NoiseControl(mode) => if self.noise_mode == Some(mode) {
                (self, None)
            } else {
                (
                    AirPodsView { noise_mode: Some(mode), ..self },
                    Some(EventView::NoiseControlChanged(mode)),
                )
            },
            PacketReport::EarDetection(status) => if self.ear_detection == Some(status) {
                (self, None)
            } else {
                (
                    AirPodsView { ear_detection: Some(status), ..self },
                    Some(EventView::EarDetectionChanged(status)),
                )
            },
            PacketReport::Metadata { name_candidate } => match name_candidate {
                Some(name) => if self.name == smol_chars(name) {
                    (self, None)
                } else {
                    (
                        AirPodsView { name: smol_chars(name), ..self },
                        Some(EventView::DeviceNameChanged(smol_chars(name))),
                    )
                },
                None => (self, None),
            },
            PacketReport::Feature { feature, command } => match command {
                FeatureCmd::Enable => (self.with_feature(feature, true), None),
                FeatureCmd::Disable => (self.with_feature(feature, false), None),
                FeatureCmd::Other => (self, None),
            },
            PacketReport::Nothing => (self, None),
        }
    }
}

impl AirPods {
    /// Takes in a packet. The first header that it begins with decides which part
    /// of its reading counts. Returns what listeners are to be told.
    pub fn process_packet(
        &mut self,
        packet: &[u8],
        headers: &PacketHeaders,
        reading: PacketReading,
        now: Moment,
    ) -> (event: Option<AirPodsEvent>)
        requires
            old(self).wf(),
        ensures
            final(self).wf(),
            ({
                let report = report_of(kind_of_packet(packet@, *headers), reading);
                &&& final(self)@ == old(self)@.after_report(report, now).0
                &&& event_view(event) == old(self)@.after_report(report, now).1
            }),
    {
        let kind = classify_packet(packet, headers);
        self.process_report(pick_report(kind, reading), now)
    }

    /// Takes in a report. Returns what listeners are to be told.
    pub fn process_report(&mut self, report: PacketReport, now: Moment) -> (event: Option<
        AirPodsEvent,
    >)
        requires
            old(self).wf(),
        ensures
            final(self).wf(),
            final(self)@ == old(self)@.after_report(report, now).0,
            event_view(event) == old(self)@.after_report(report, now).1,
    {
        match report {
            PacketReport::Battery(battery) => {
                if self.update_battery_info(Some(battery)).is_updated() {
                    self.battery_tracker.record_battery_drop(battery.left, battery.right, now);
                    Some(AirPodsEvent::BatteryUpdated(battery))
                } else {
                    None
                }
            },
            PacketReport::NoiseControl(mode) => {
                if self.update_noise_mode(Some(mode)).is_updated() {
                    Some(AirPodsEvent::NoiseControlChanged(mode))
                } else {
                    None
                }
            },
            PacketReport::EarDetection(status) => {
                if self.update_ear_detection(Some(status)).is_updated() {
                    Some(AirPodsEvent::EarDetectionChanged(status))
                } else {
                    None
                }
            },
            PacketReport::Metadata { name_candidate } => {
                match name_candidate {
                    Some(name) => {
                        let told = name.clone();
                        if self.update_name(name).is_updated() {
                            Some(AirPodsEvent::DeviceNameChanged(told))
                        } else {
                            None
                        }
                    },
                    None => None,
                }
            },
            PacketReport::Feature { feature, command } => {
                match command {
                    FeatureCmd::Enable => {
                        let _ = self.set_feature_enabled(feature, true);
                    },
                    FeatureCmd::Disable => {
                        let _ = self.set_feature_enabled(feature, false);
                    },
                    FeatureCmd::Other => {},
                }
                None
            },
            PacketReport::Nothing => None,
        }
    }
}

/// A report that says nothing new is passed over in silence: once it has been
/// taken in, the same report changes nothing and tells nothing.
pub proof fn law_repeated_report_is_silent(
    device: AirPodsView,
    report: PacketReport,
    now: Moment,
    later: Moment,
)
    requires
        device.features.len() == FEATURE_COUNT,
        device.features_present.len() == FEATURE_COUNT,
    ensures
        ({
            let after = device.after_report(report, now).0;
            after.after_report(report, later) == (after, None::<EventView>)
        }),
{
    let after = device.after_report(report, now).0;
    assert(after.after_report(report, later).0 =~= after);
}

/// A packet is of the kind of the first header that it begins with: it has the
/// bytes of that header in front, and those of no header before it in the list. It
/// is of another kind only if it begins with none of them.
pub proof fn law_first_header_decides(packet: Seq<u8>, headers: PacketHeaders)
    ensures
        ({
            let kind = kind_of_packet(packet, headers);
            let battery = is_front(headers.battery_state@, packet);
            let noise = is_front(headers.noise_control@, packet);
            let ear = is_front(headers.ear_detection@, packet);
            let metadata = is_front(headers.metadata@, packet);
            let handshake = is_front(headers.ack_handshake@, packet);
            let features = is_front(headers.ack_features@, packet);
            &&& kind is BatteryState <==> battery
            &&& kind is NoiseControl <==> noise && !battery
            &&& kind is EarDetection <==> ear && !noise && !battery
            &&& kind is Metadata <==> metadata && !ear && !noise && !battery
            &&& kind is AckHandshake <==> handshake && !metadata && !ear && !noise && !battery
            &&& kind is AckFeatures <==> features && !handshake && !metadata && !ear && !noise
                && !battery
        }),
{
    lemma_front(headers.battery_state@, packet);
    lemma_front(headers.noise_control@, packet);
    lemma_front(headers.ear_detection@, packet);
    lemma_front(headers.metadata@, packet);
    lemma_front(headers.ack_handshake@, packet);
    lemma_front(headers.ack_features@, packet);
}

/// Whether the first bytes of a packet are those of a header, one by one.
pub open spec fn is_front(header: Seq<u8>, packet: Seq<u8>) -> bool {
    header.len() <= packet.len() && forall|k: int|
        0 <= k < header.len() ==> packet[k] == #[trigger] header[k]
}

proof fn lemma_front(header: Seq<u8>, packet: Seq<u8>)
    ensures
        begins_with(packet, header) <==> is_front(header, packet),
{
    if is_front(header, packet) {
        assert(packet.take(header.len() as int) =~= header);
    }
    if begins_with(packet, header) {
        assert forall|k: int| 0 <= k < header.len() implies packet[k] == #[trigger] header[k] by {
            assert(packet.take(header.len() as int)[k] == packet[k]);
        }
    }
}

/// A packet reports the part of its reading that belongs to its kind, as it was
/// read, and nothing if that part cannot be read. Acknowledgements report nothing.
pub proof fn law_kind_picks_its_part(reading: PacketReading)
    ensures
        match reading.battery {
            Some(battery) => report_of(PacketKind::BatteryState, reading) == PacketReport::Battery(
                battery,
            ),
            None => report_of(PacketKind::BatteryState, reading) is Nothing,
        },
        match reading.noise_mode {
            Some(mode) => report_of(PacketKind::NoiseControl, reading)
                == PacketReport::NoiseControl(mode),
            None => report_of(PacketKind::NoiseControl, reading) is Nothing,
        },
        match reading.ear_detection {
            Some(status) => report_of(PacketKind::EarDetection, reading)
                == PacketReport::EarDetection(status),
            None => report_of(PacketKind::EarDetection, reading) is Nothing,
        },
        report_of(PacketKind::Metadata, reading) == (PacketReport::Metadata {
            name_candidate: reading.name_candidate,
        }),
        report_of(PacketKind::AckHandshake, reading) is Nothing,
        report_of(PacketKind::AckFeatures, reading) is Nothing,
        match reading.feature {
            Some((feature, command)) => report_of(PacketKind::Other, reading)
                == (PacketReport::Feature { feature, command }),
            None => report_of(PacketKind::Other, reading) is Nothing,
        },
{
}

/// A new battery report is noted and told to listeners, and each bud goes into its
/// own history. A bud that is connected, does not charge, and is lower than the
/// last sample of its own history (or has none yet) is the last sample from now on;
/// one that is not lower, or is not connected, adds nothing; one that charges loses
/// its history. Nothing else of the headset changes.
pub proof fn law_battery_report_feeds_each_bud(
    device: AirPodsView,
    battery: BatteryInfo,
    now: Moment,
)
    requires
        device.battery != Some(battery),
        device.tracker.left.len() <= 32,
        device.tracker.right.len() <= 32,
    ensures
        ({
            let (after, event) = device.after_report(PacketReport::Battery(battery), now);
            let left = device.tracker.left;
            let right = device.tracker.right;
            let left_falls = left.len() == 0 || battery.left.level < left.last().1;
            let right_falls = right.len() == 0 || battery.right.level < right.last().1;
            &&& after.battery == Some(battery)
            &&& event == Some(EventView::BatteryUpdated(battery))
            &&& battery.left.status is Normal && left_falls ==> {
                &&& after.tracker.left.len() > 0
                &&& after.tracker.left.last().1 == battery.left.level
                &&& after.tracker.left.last().0 == SecondsSinceInit::of(now)
                &&& left.len() < 32 ==> after.tracker.left.drop_last() == left
                &&& left.len() == 32 ==> after.tracker.left.drop_last() == left.skip(1)
            }
            &&& battery.left.status is Normal && !left_falls ==> after.tracker.left == left
            &&& battery.left.status is Charging ==> after.tracker.left.len() == 0
            &&& battery.left.status is Disconnected ==> after.tracker.left == left
            &&& battery.right.status is Normal && right_falls ==> {
                &&& after.tracker.right.len() > 0
                &&& after.tracker.right.last().1 == battery.right.level
                &&& after.tracker.right.last().0 == SecondsSinceInit::of(now)
                &&& right.len() < 32 ==> after.tracker.right.drop_last() == right
                &&& right.len() == 32 ==> after.tracker.right.drop_last() == right.skip(1)
            }
            &&& battery.right.status is Normal && !right_falls ==> after.tracker.right == right
            &&& battery.right.status is Charging ==> after.tracker.right.len() == 0
            &&& battery.right.status is Disconnected ==> after.tracker.right == right
            &&& after == AirPodsView {
                battery: after.battery,
                tracker: TrackerView {
                    left: after.tracker.left,
                    right: after.tracker.right,
                    ..device.tracker
                },
                ..device
            }
        }),
{
    let after = device.after_report(PacketReport::Battery(battery), now).0;
    let left = device.tracker.left;
    let right = device.tracker.right;
    if battery.left.status is Normal && (left.len() == 0 || battery.left.level < left.last().1) {
        if left.len() < 32 {
            assert(after.tracker.left.drop_last() =~= left);
        } else {
            assert(after.tracker.left.drop_last() =~= left.skip(1));
        }
    }
    if battery.right.status is Normal && (right.len() == 0 || battery.right.level
        < right.last().1) {
        if right.len() < 32 {
            assert(after.tracker.right.drop_last() =~= right);
        } else {
            assert(after.tracker.right.drop_last() =~= right.skip(1));
        }
    }
}

/// A new noise control mode, a new report of which buds are worn and a new name are
/// noted as reported and told to listeners; nothing else of the headset changes.
pub proof fn law_new_report_is_noted_and_told(
    device: AirPodsView,
    mode: NoiseControlMode,
    ears: EarDetectionStatus,
    name: SmolStr,
    now: Moment,
)
    ensures
        device.noise_mode != Some(mode) ==> device.after_report(
            PacketReport::NoiseControl(mode),
            now,
        ) == (
            AirPodsView { noise_mode: Some(mode), ..device },
            Some(EventView::NoiseControlChanged(mode)),
        ),
        device.ear_detection != Some(ears) ==> device.after_report(
            PacketReport::EarDetection(ears),
            now,
        ) == (
            AirPodsView { ear_detection: Some(ears), ..device },
            Some(EventView::EarDetectionChanged(ears)),
        ),
        device.name != smol_chars(name) ==> device.after_report(
            (PacketReport::Metadata { name_candidate: Some(name) }),
            now,
        ) == (
            AirPodsView { name: smol_chars(name), ..device },
            Some(EventView::DeviceNameChanged(smol_chars(name))),
        ),
{
}

/// A report of what is known already, metadata without a name, and a packet that
/// reports nothing change nothing and tell nothing.
pub proof fn law_old_news_is_no_news(
    device: AirPodsView,
    battery: BatteryInfo,
    mode: NoiseControlMode,
    ears: EarDetectionStatus,
    name: SmolStr,
    now: Moment,
)
    ensures
        ({
            let silence = (device, None::<EventView>);
            &&& device.battery == Some(battery) ==> device.after_report(
                PacketReport::Battery(battery),
                now,
            ) == silence
            &&& device.noise_mode == Some(mode) ==> device.after_report(
                PacketReport::NoiseControl(mode),
                now,
            ) == silence
            &&& device.ear_detection == Some(ears) ==> device.after_report(
                PacketReport::EarDetection(ears),
                now,
            ) == silence
            &&& device.name == smol_chars(name) ==> device.after_report(
                (PacketReport::Metadata { name_candidate: Some(name) }),
                now,
            ) == silence
            &&& device.after_report((PacketReport::Metadata { name_candidate: None }), now)
                == silence
            &&& device.after_report(PacketReport::Nothing, now) == silence
        }),
{
}

/// A feature command that enables or disables a feature is noted without telling
/// listeners: the feature is then on or off, and no other feature is touched. Any
/// other command leaves the headset as it is.
pub proof fn law_feature_command_is_noted(
    device: AirPodsView,
    feature: FeatureId,
    other: FeatureId,
    now: Moment,
)
    requires
        device.features.len() == 256,
        device.features_present.len() == 256,
    ensures
        ({
            let enable = PacketReport::Feature { feature, command: FeatureCmd::Enable };
            let disable = PacketReport::Feature { feature, command: FeatureCmd::Disable };
            let neither = PacketReport::Feature { feature, command: FeatureCmd::Other };
            let on = device.after_report(enable, now);
            let off = device.after_report(disable, now);
            &&& on.0.features[feature.0 as int]
            &&& on.0.features_present[feature.0 as int]
            &&& on.1 is None
            &&& !off.0.features[feature.0 as int]
            &&& off.0.features_present[feature.0 as int]
            &&& off.1 is None
            &&& other != feature ==> {
                &&& on.0.features[other.0 as int] == device.features[other.0 as int]
                &&& off.0.features[other.0 as int] == device.features[other.0 as int]
                &&& on.0.features_present[other.0 as int]
                    == device.features_present[other.0 as int]
                &&& off.0.features_present[other.0 as int]
                    == device.features_present[other.0 as int]
            }
            &&& on.0 == AirPodsView {
                features: on.0.features,
                features_present: on.0.features_present,
                ..device
            }
            &&& off.0 == AirPodsView {
                features: off.0.features,
                features_present: off.0.features_present,
                ..device
            }
            &&& device.after_report(neither, now) == (device, None::<EventView>)
        }),
{
}

// === What listeners are shown ===

/// The part of the document that only Nothing/CMF headsets have.
#[derive(Debug)]
pub struct NothingPart {
    pub model: &'static str,
    pub model_base: &'static str,
    pub nothing: NothingDocument,
}

/// What listeners are shown of a device. A part that is `None` is left out,
/// except for the estimate, which is then shown to be missing.
#[derive(Debug)]
pub struct DeviceDocument {
    pub address: SmolStr,
    pub name: SmolStr,
    pub connected: bool,
    pub vendor: &'static str,
    pub protocol: &'static str,
    pub nothing: Option<NothingPart>,
    pub battery: Option<BatteryInfo>,
    pub battery_ttl_estimate: Option<u32>,
    pub noise_mode: Option<NoiseControlMode>,
    pub ear_detection: Option<EarDetectionStatus>,
    pub features: Vec<(FeatureId, bool)>,
}

impl DeviceDocument {
    /// Whether the document shows a device.
    pub open spec fn shows(self, device: AirPodsView, forecast: Option<DrainForecast>) -> bool {
        &&& smol_chars(self.address) == device.address.text()
        &&& smol_chars(self.name) == device.name
        &&& self.connected == device.connected
        &&& match device.kind {
            DeviceKind::AirPods => {
                &&& self.vendor@ == "apple"@
                &&& self.protocol@ == "airpods_aap"@
                &&& self.nothing is None
            },
            DeviceKind::Nothing { model } => {
                &&& self.vendor@ == "nothing"@
                &&& self.protocol@ == "nothing_spp"@
                &&& self.nothing matches Some(part)
                &&& part.nothing.shows(device.nothing)
                &&& match model {
                    NothingModel::CmfHeadphonePro => part.model@ == "CMF Headphone Pro"@
                        && part.model_base@ == "B175"@,
                    NothingModel::Generic => part.model@ == "Nothing/CMF Device"@
                        && part.model_base@ == "unknown"@,
                }
            },
        }
        &&& self.battery == device.battery
        &&& self.battery_ttl_estimate == device.ttl(forecast)
        &&& self.noise_mode == device.noise_mode
        &&& self.ear_detection == device.ear_detection
        &&& self.features@ == device.feature_list()
    }
}

impl AirPods {
    /// What listeners are shown of the device. The estimate of the minutes that
    /// are left is made anew.
    pub fn to_json(&mut self, forecast: Option<DrainForecast>) -> (document: DeviceDocument)
        requires
            old(self).wf(),
        ensures
            final(self).wf(),
            document.shows(old(self)@, forecast),
            final(self)@ == old(self)@.after_ttl(forecast),
    {
        let nothing = match self.kind {
            DeviceKind::AirPods => None,
            DeviceKind::Nothing { model } => Some(
                NothingPart {
                    model: model.display_name(),
                    model_base: model.model_base(),
                    nothing: self.nothing.to_json(),
                },
            ),
        };
        let battery_ttl_estimate = self.estimate_battery_ttl(forecast);
        DeviceDocument {
            address: self.address_str.clone(),
            name: self.name(),
            connected: self.is_connected,
            vendor: self.kind.vendor(),
            protocol: self.kind.protocol(),
            nothing,
            battery: self.battery,
            battery_ttl_estimate,
            noise_mode: self.noise_mode,
            ear_detection: self.ear_detection,
            features: self.features(),
        }
    }
}

/// What listeners are shown of a headset is what is known about it, with the vendor
/// and the protocol of its kind, and for a Nothing/CMF headset its model and state.
pub proof fn law_headset_is_shown_as_it_is(
    document: DeviceDocument,
    device: AirPodsView,
    forecast: Option<DrainForecast>,
)
    requires
        document.shows(device, forecast),
    ensures
        smol_chars(document.address) == device.address.text(),
        smol_chars(document.name) == device.name,
        document.connected == device.connected,
        document.battery == device.battery,
        document.battery_ttl_estimate == device.ttl(forecast),
        document.noise_mode == device.noise_mode,
        document.ear_detection == device.ear_detection,
        document.features@ == device.feature_list(),
        device.kind is AirPods ==> {
            &&& document.vendor@ == "apple"@
            &&& document.protocol@ == "airpods_aap"@
            &&& document.nothing is None
        },
        device.kind is Nothing ==> {
            &&& document.vendor@ == "nothing"@
            &&& document.protocol@ == "nothing_spp"@
            &&& document.nothing matches Some(part) && part.nothing.shows(device.nothing)
        },
        device.kind == (DeviceKind::Nothing { model: NothingModel::CmfHeadphonePro }) ==> {
            &&& document.nothing matches Some(part)
            &&& part.model@ == "CMF Headphone Pro"@
            &&& part.model_base@ == "B175"@
        },
        device.kind == (DeviceKind::Nothing { model: NothingModel::Generic }) ==> {
            &&& document.nothing matches Some(part)
            &&& part.model@ == "Nothing/CMF Device"@
            &&& part.model_base@ == "unknown"@
        },
{
}

} // verus!
