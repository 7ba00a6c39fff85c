//! The values that headsets report: batteries, noise control, ear detection
//! and feature flags.

use vstd::prelude::*;

verus! {

/// What a battery is doing.
#[derive(Clone, Copy, Debug, PartialEq, Eq, Structural)]
pub enum BatteryStatus {
    Normal,
    Charging,
    Disconnected,
}

/// Charge of one component of a headset.
#[derive(Clone, Copy, Debug, PartialEq, Eq, Structural)]
pub struct BatteryState {
    /// Charge in percent.
    pub level: u8,
    pub status: BatteryStatus,
}

impl BatteryState {
    /// The state of a component that has reported nothing.
    pub open spec fn absent() -> BatteryState {
        BatteryState { level: 0, status: BatteryStatus::Disconnected }
    }

    pub open spec fn charging(self) -> bool {
        self.status == BatteryStatus::Charging
    }

    pub open spec fn available(self) -> bool {
        self.status != BatteryStatus::Disconnected
    }

    /// Creates the state of a component that has reported nothing.
    pub fn new() -> (state: BatteryState)
        ensures
            state == Self::absent(),
    {
        BatteryState { level: 0, status: BatteryStatus::Disconnected }
    }

    /// Tells whether the component is charging.
    pub fn is_charging(&self) -> (charging: bool)
        ensures
            charging == self.charging(),
    {
        self.status == BatteryStatus::Charging
    }

    /// Tells whether the component is connected.
    pub fn is_available(&self) -> (available: bool)
        ensures
            available == self.available(),
    {
        self.status != BatteryStatus::Disconnected
    }
}

/// Charge of all the components of a headset.
#[derive(Clone, Copy, Debug, Eq)]
pub struct BatteryInfo {
    pub left: BatteryState,
    pub right: BatteryState,
    pub case: BatteryState,
    pub headphone: BatteryState,
}

impl PartialEq for BatteryInfo {
    fn eq(&self, other: &Self) -> (same: bool) {
        self.left == other.left && self.right == other.right && self.case == other.case
            && self.headphone == other.headphone
    }
}

impl vstd::std_specs::cmp::PartialEqSpecImpl for BatteryInfo {
    open spec fn obeys_eq_spec() -> bool {
        true
    }

    open spec fn eq_spec(&self, other: &Self) -> bool {
        *self == *other
    }
}

impl BatteryInfo {
    /// The report in which no component has said anything.
    pub open spec fn absent() -> BatteryInfo {
        BatteryInfo {
            left: BatteryState::absent(),
            right: BatteryState::absent(),
            case: BatteryState::absent(),
            headphone: BatteryState::absent(),
        }
    }

    /// The lower of the two bud levels.
    pub open spec fn lowest_bud(self) -> u8 {
        if self.left.level <= self.right.level {
            self.left.level
        } else {
            self.right.level
        }
    }

    /// Creates a report in which no component has said anything.
    pub fn new() -> (info: BatteryInfo)
        ensures
            info == Self::absent(),
    {
        BatteryInfo {
            left: BatteryState::new(),
            right: BatteryState::new(),
            case: BatteryState::new(),
            headphone: BatteryState::new(),
        }
    }

    /// The two buds, left first.
    pub fn split_ref(&self) -> (buds: (&BatteryState, &BatteryState))
        ensures
            *buds.0 == self.left,
            *buds.1 == self.right,
    {
        (&self.left, &self.right)
    }
}

/// Noise control modes.
#[derive(Clone, Copy, Debug, Eq)]
pub enum NoiseControlMode {
    Off,
    Active,
    Transparency,
    Adaptive,
}

impl PartialEq for NoiseControlMode {
    fn eq(&self, other: &Self) -> (same: bool) {
        match (self, other) {
            (NoiseControlMode::Off, NoiseControlMode::Off) => true,
            (NoiseControlMode::Active, NoiseControlMode::Active) => true,
            (NoiseControlMode::Transparency, NoiseControlMode::Transparency) => true,
            (NoiseControlMode::Adaptive, NoiseControlMode::Adaptive) => true,
            _ => false,
        }
    }
}

impl vstd::std_specs::cmp::PartialEqSpecImpl for NoiseControlMode {
    open spec fn obeys_eq_spec() -> bool {
        true
    }

    open spec fn eq_spec(&self, other: &Self) -> bool {
        *self == *other
    }
}

impl NoiseControlMode {
    /// Every mode once, in the order in which they are tried.
    pub open spec fn all() -> Seq<NoiseControlMode> {
        seq![
            NoiseControlMode::Off,
            NoiseControlMode::Active,
            NoiseControlMode::Transparency,
            NoiseControlMode::Adaptive,
        ]
    }

    /// Lists every mode once.
    pub fn iter() -> (modes: Vec<NoiseControlMode>)
        ensures
            modes@ == Self::all(),
    {
        let mut modes: Vec<NoiseControlMode> = Vec::new();
        modes.push(NoiseControlMode::Off);
        modes.push(NoiseControlMode::Active);
        modes.push(NoiseControlMode::Transparency);
        modes.push(NoiseControlMode::Adaptive);
        assert(modes@ =~= Self::all());
        modes
    }
}

impl Default for NoiseControlMode {
    fn default() -> (mode: NoiseControlMode)
        ensures
            mode == NoiseControlMode::Off,
    {
        NoiseControlMode::Off
    }
}

/// One optional value for each noise control mode.
#[derive(Clone, Debug)]
pub struct NoiseControlMap<V> {
    off: Option<V>,
    active: Option<V>,
    transparency: Option<V>,
    adaptive: Option<V>,
}

impl<V> NoiseControlMap<V> {
    /// The value under a mode.
    closed spec fn field(self, mode: NoiseControlMode) -> Option<V> {
        match mode {
            NoiseControlMode::Off => self.off,
            NoiseControlMode::Active => self.active,
            NoiseControlMode::Transparency => self.transparency,
            NoiseControlMode::Adaptive => self.adaptive,
        }
    }
}

impl<V> View for NoiseControlMap<V> {
    type V = Map<NoiseControlMode, V>;

    closed spec fn view(&self) -> Map<NoiseControlMode, V> {
        Map::new(
            |mode: NoiseControlMode| self.field(mode) is Some,
            |mode: NoiseControlMode| self.field(mode)->0,
        )
    }
}

/// The value of a map under a key, if there is one.
pub open spec fn entry<K, V>(map: Map<K, V>, key: K) -> Option<V> {
    if map.dom().contains(key) {
        Some(map[key])
    } else {
        None
    }
}

impl<V> NoiseControlMap<V> {
    /// Creates a map without values.
    pub fn new() -> (map: NoiseControlMap<V>)
        ensures
            map@ == Map::<NoiseControlMode, V>::empty(),
    {
        let map = NoiseControlMap { off: None, active: None, transparency: None, adaptive: None };
        assert(map@ =~= Map::<NoiseControlMode, V>::empty());
        map
    }

    /// The value under a mode, if there is one.
    pub fn get(&self, mode: NoiseControlMode) -> (value: Option<&V>)
        ensures
            value is Some <==> self@.dom().contains(mode),
            value matches Some(v) ==> *v == self@[mode],
    {
        match mode {
            NoiseControlMode::Off => self.off.as_ref(),
            NoiseControlMode::Active => self.active.as_ref(),
            NoiseControlMode::Transparency => self.transparency.as_ref(),
            NoiseControlMode::Adaptive => self.adaptive.as_ref(),
        }
    }

    /// Puts a value under a mode, in place of the one that was there.
    pub fn insert(&mut self, mode: NoiseControlMode, value: V)
        ensures
            final(self)@ == old(self)@.insert(mode, value),
    {
        match mode {
            NoiseControlMode::Off => self.off = Some(value),
            NoiseControlMode::Active => self.active = Some(value),
            NoiseControlMode::Transparency => self.transparency = Some(value),
            NoiseControlMode::Adaptive => self.adaptive = Some(value),
        }
        assert(self@ =~= old(self)@.insert(mode, value));
    }

    /// Takes the value under a mode away.
    pub fn remove(&mut self, mode: NoiseControlMode)
        ensures
            final(self)@ == old(self)@.remove(mode),
    {
        match mode {
            NoiseControlMode::Off => self.off = None,
            NoiseControlMode::Active => self.active = None,
            NoiseControlMode::Transparency => self.transparency = None,
            NoiseControlMode::Adaptive => self.adaptive = None,
        }
        assert(self@ =~= old(self)@.remove(mode));
    }

    /// The number of modes that have a value.
    pub fn len(&self) -> (n: usize)
        ensures
            n == mode_count(self@),
    {
        let off: usize = if self.off.is_some() { 1 } else { 0 };
        let active: usize = if self.active.is_some() { 1 } else { 0 };
        let transparency: usize = if self.transparency.is_some() { 1 } else { 0 };
        let adaptive: usize = if self.adaptive.is_some() { 1 } else { 0 };
        off + active + transparency + adaptive
    }

    /// Tells whether no mode has a value.
    pub fn is_empty(&self) -> (empty: bool)
        ensures
            empty == (self@ == Map::<NoiseControlMode, V>::empty()),
    {
        let empty = self.off.is_none() && self.active.is_none() && self.transparency.is_none()
            && self.adaptive.is_none();
        proof {
            if empty {
                assert(self@ =~= Map::<NoiseControlMode, V>::empty());
            } else {
                assert(self@.dom().contains(NoiseControlMode::Off) || self@.dom().contains(
                    NoiseControlMode::Active,
                ) || self@.dom().contains(NoiseControlMode::Transparency) || self@.dom().contains(
                    NoiseControlMode::Adaptive,
                ));
            }
        }
        empty
    }
}

/// The number of modes that have a value.
pub open spec fn mode_count<V>(map: Map<NoiseControlMode, V>) -> nat {
    (if map.dom().contains(NoiseControlMode::Off) { 1nat } else { 0nat })
        + (if map.dom().contains(NoiseControlMode::Active) { 1nat } else { 0nat })
        + (if map.dom().contains(NoiseControlMode::Transparency) { 1nat } else { 0nat })
        + (if map.dom().contains(NoiseControlMode::Adaptive) { 1nat } else { 0nat })
}

/// Which buds are worn.
#[derive(Clone, Copy, Debug, Eq)]
pub struct EarDetectionStatus {
    pub left_in_ear: bool,
    pub right_in_ear: bool,
}

impl PartialEq for EarDetectionStatus {
    fn eq(&self, other: &Self) -> (same: bool) {
        self.left_in_ear == other.left_in_ear && self.right_in_ear == other.right_in_ear
    }
}

impl vstd::std_specs::cmp::PartialEqSpecImpl for EarDetectionStatus {
    open spec fn obeys_eq_spec() -> bool {
        true
    }

    open spec fn eq_spec(&self, other: &Self) -> bool {
        *self == *other
    }
}

impl EarDetectionStatus {
    /// Tells whether the left bud is worn.
    pub fn is_left_in_ear(&self) -> (worn: bool)
        ensures
            worn == self.left_in_ear,
    {
        self.left_in_ear
    }

    /// Tells whether the right bud is worn.
    pub fn is_right_in_ear(&self) -> (worn: bool)
        ensures
            worn == self.right_in_ear,
    {
        self.right_in_ear
    }
}

/// Number of feature identifiers.
pub const FEATURE_COUNT: usize = 256;

/// Identifier of a headset feature on the wire.
#[derive(Clone, Copy, Debug, PartialEq, Eq, Structural)]
pub struct FeatureId(pub u8);

impl FeatureId {
    /// The byte that stands for the feature.
    pub fn id(self) -> (id: u8)
        ensures
            id == self.0,
    {
        self.0
    }
}

/// A set of features.
#[derive(Clone, Debug)]
pub struct FeatureBitmap {
    bits: Vec<bool>,
}

impl View for FeatureBitmap {
    type V = Seq<bool>;

    closed spec fn view(&self) -> Seq<bool> {
        self.bits@
    }
}

impl FeatureBitmap {
    /// There is one flag for each feature identifier.
    pub open spec fn wf(self) -> bool {
        self@.len() == FEATURE_COUNT
    }

    /// The flag of a feature.
    pub open spec fn has(self, feature: FeatureId) -> bool {
        self@[feature.0 as int]
    }

    /// The flags of the empty set.
    pub open spec fn no_flags() -> Seq<bool> {
        Seq::new(FEATURE_COUNT as nat, |n: int| false)
    }

    /// Creates an empty set.
    pub fn new() -> (map: FeatureBitmap)
        ensures
            map.wf(),
            map@ == Self::no_flags(),
    {
        let mut bits: Vec<bool> = Vec::new();
        let mut n: usize = 0;
        while n < FEATURE_COUNT
            invariant
                n <= FEATURE_COUNT,
                bits@.len() == n,
                forall|k: int| 0 <= k < n ==> !bits@[k],
            decreases FEATURE_COUNT - n,
        {
            bits.push(false);
            n = n + 1;
        }
        assert(bits@ =~= Self::no_flags());
        FeatureBitmap { bits }
    }

    /// Tells whether a feature is in the set.
    pub fn get(&self, feature: FeatureId) -> (present: bool)
        requires
            self.wf(),
        ensures
            present == self.has(feature),
    {
        self.bits[feature.0 as usize]
    }

    /// Puts a feature in the set or takes it out. Tells whether it was in.
    pub fn set(&mut self, feature: FeatureId, present: bool) -> (before: bool)
        requires
            old(self).wf(),
        ensures
            final(self).wf(),
            before == old(self).has(feature),
            final(self)@ == old(self)@.update(feature.0 as int, present),
    {
        let before = self.bits[feature.0 as usize];
        self.bits.set(feature.0 as usize, present);
        before
    }

    /// The features in the set, in ascending order of their identifiers.
    pub open spec fn members(self) -> Seq<FeatureId> {
        members_below(self@, FEATURE_COUNT as nat)
    }

    /// Lists the features in the set, in ascending order of their identifiers.
    pub fn iter(&self) -> (features: Vec<FeatureId>)
        requires
            self.wf(),
        ensures
            features@ == self.members(),
    {
        let mut features: Vec<FeatureId> = Vec::new();
        let mut n: usize = 0;
        while n < FEATURE_COUNT
            invariant
                n <= FEATURE_COUNT,
                self.wf(),
                features@ == members_below(self@, n as nat),
            decreases FEATURE_COUNT - n,
        {
            if self.bits[n] {
                features.push(FeatureId(n as u8));
            }
            n = n + 1;
        }
        features
    }
}

/// The identifiers below `n` whose flags are set, in ascending order.
pub open spec fn members_below(flags: Seq<bool>, n: nat) -> Seq<FeatureId>
    decreases n,
{
    if n == 0 {
        Seq::empty()
    } else if flags[n - 1] {
        members_below(flags, (n - 1) as nat).push(FeatureId((n - 1) as u8))
    } else {
        members_below(flags, (n - 1) as nat)
    }
}

/// A component is connected unless its status says that it is not, and it charges
/// exactly if its status says so. One that has reported nothing is empty and not
/// connected.
pub proof fn law_status_says_it(state: BatteryState)
    ensures
        state.charging() <==> state.status is Charging,
        state.available() <==> state.status is Normal || state.status is Charging,
        BatteryState::absent().level == 0,
        BatteryState::absent().status is Disconnected,
        BatteryInfo::absent().left == BatteryState::absent(),
        BatteryInfo::absent().right == BatteryState::absent(),
        BatteryInfo::absent().case == BatteryState::absent(),
        BatteryInfo::absent().headphone == BatteryState::absent(),
{
}

/// The lower of the two buds is no higher than either, and is one of them.
pub proof fn law_lowest_bud_is_the_lower_one(battery: BatteryInfo)
    ensures
        battery.lowest_bud() <= battery.left.level,
        battery.lowest_bud() <= battery.right.level,
        battery.lowest_bud() == battery.left.level || battery.lowest_bud() == battery.right.level,
{
}

/// Every mode is listed, none twice, and noise control that is off comes first.
pub proof fn law_every_mode_is_listed(mode: NoiseControlMode)
    ensures
        NoiseControlMode::all().contains(mode),
        NoiseControlMode::all().no_duplicates(),
        NoiseControlMode::all().len() == 4,
        NoiseControlMode::all()[0] == NoiseControlMode::Off,
        NoiseControlMode::all()[1] == NoiseControlMode::Active,
        NoiseControlMode::all()[2] == NoiseControlMode::Transparency,
        NoiseControlMode::all()[3] == NoiseControlMode::Adaptive,
{
    let all = NoiseControlMode::all();
    assert(all[0] == NoiseControlMode::Off);
    assert(all[1] == NoiseControlMode::Active);
    assert(all[2] == NoiseControlMode::Transparency);
    assert(all[3] == NoiseControlMode::Adaptive);
}

/// A value that is put under a key is found there, and the other keys are as
/// before; a value that is taken away is gone.
pub proof fn law_entry_is_found<K, V>(map: Map<K, V>, key: K, value: V, other: K)
    ensures
        entry(map.insert(key, value), key) == Some(value),
        other != key ==> entry(map.insert(key, value), other) == entry(map, other),
        entry(map.remove(key), key) is None,
        entry(Map::<K, V>::empty(), key) is None,
{
}

/// Nothing is counted in an empty map, and a value under a mode that had none
/// counts one more.
pub proof fn law_modes_with_values_are_counted<V>(
    map: Map<NoiseControlMode, V>,
    mode: NoiseControlMode,
    value: V,
)
    ensures
        mode_count(Map::<NoiseControlMode, V>::empty()) == 0,
        mode_count(map.insert(mode, value)) == mode_count(map) + if map.dom().contains(mode) {
            0int
        } else {
            1int
        },
{
}

/// The empty set has a flag for each identifier, and none of them is set.
pub proof fn law_empty_set_has_no_feature(feature: FeatureId)
    ensures
        FeatureBitmap::no_flags().len() == 256,
        !FeatureBitmap::no_flags()[feature.0 as int],
{
}

/// The features in a set are listed in ascending order of their identifiers: each
/// that is in the set, and no other.
pub proof fn law_members_are_those_with_flags(flags: Seq<bool>, n: nat, feature: FeatureId)
    requires
        n <= 256,
    ensures
        members_below(flags, n).contains(feature) <==> feature.0 < n && flags[feature.0 as int],
        forall|i: int, j: int|
            #![trigger members_below(flags, n)[i], members_below(flags, n)[j]]
            0 <= i < j < members_below(flags, n).len() ==> members_below(flags, n)[i].0
                < members_below(flags, n)[j].0,
        forall|i: int|
            0 <= i < members_below(flags, n).len() ==> (#[trigger] members_below(flags, n)[i]).0 < n,
    decreases n,
{
    if n > 0 {
        let before = members_below(flags, (n - 1) as nat);
        law_members_are_those_with_flags(flags, (n - 1) as nat, feature);
        if flags[n - 1] {
            let last = FeatureId((n - 1) as u8);
            let all = before.push(last);
            assert(all == members_below(flags, n));
            if before.contains(feature) {
                let k = before.index_of(feature);
                assert(all[k] == feature);
            }
            if feature == last {
                assert(all[before.len() as int] == feature);
            }
            if all.contains(feature) {
                let k = all.index_of(feature);
                if k < before.len() {
                    assert(before[k] == feature);
                }
            }
            assert forall|i: int, j: int|
                #![trigger all[i], all[j]]
                0 <= i < j < all.len() implies all[i].0 < all[j].0 by {
                assert(all[i] == before[i]);
                if j < before.len() {
                    assert(all[j] == before[j]);
                }
            }
            assert forall|i: int| 0 <= i < all.len() implies (#[trigger] all[i]).0 < n by {
                if i < before.len() {
                    assert(all[i] == before[i]);
                }
            }
        }
    } else if members_below(flags, n).contains(feature) {
        assert(false);
    }
}

} // verus!
