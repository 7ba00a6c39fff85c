//! Battery history, study rows and estimates.

use kairpods::airpods::protocol::{
    BatteryInfo, BatteryState, BatteryStatus, NoiseControlMap, NoiseControlMode,
};
use kairpods::battery_study::{
    BatteryHistory, BatteryStudy, BatteryTracker, Blend, DrainForecast, DrainRateStats, Error,
    HistoricalRate, KeyCodec, LocalRate, MeanAndVariance, Moment, SecondsSinceInit, TtlPlan,
    WeightShift, BATTERY_HISTORY_SIZE,
};
use kairpods::bluetooth::address::Address;
use smol_str::SmolStr;

const TEST_ADDRESS: Address = Address([0xAA, 0xBB, 0xCC, 0xDD, 0xEE, 0xFF]);

fn at_seconds(seconds: i64) -> Moment {
    Moment { nanos: seconds * 1_000_000_000 }
}

fn mock_state(level: u8, is_charging: bool) -> BatteryState {
    if is_charging {
        BatteryState { level, status: BatteryStatus::Charging }
    } else {
        BatteryState { level, status: BatteryStatus::Normal }
    }
}

fn forecast(rate: f64, minutes: u32, smoothed: u32) -> Option<DrainForecast> {
    Some(DrainForecast { rate: rate.to_bits(), minutes, smoothed })
}

fn mock_battery(left: BatteryState, right: BatteryState) -> BatteryInfo {
    BatteryInfo {
        left,
        right,
        case: BatteryState { level: 80, status: BatteryStatus::Normal },
        headphone: BatteryState::new(),
    }
}

#[test]
fn test_create_and_get_study() {
    let (study, is_new) =
        BatteryStudy::get_or_create_study(None, SmolStr::new_static("Test AirPods"), 7);
    assert_eq!(study.device_name, "Test AirPods");
    assert_eq!(study.total_sessions, 0);
    assert_eq!(study.total_samples, 0);
    assert_eq!(study.last_updated, 7);
    assert!(study.drain_rates.is_empty());
    assert!(is_new);

    let (again, is_new) =
        BatteryStudy::get_or_create_study(Some(study), SmolStr::new_static("Other"), 8);
    assert_eq!(again.device_name, "Test AirPods");
    assert_eq!(again.last_updated, 7);
    assert!(!is_new);
}

#[test]
fn test_update_drain_rate() {
    let mode = NoiseControlMode::Active;
    let (study, _) =
        BatteryStudy::get_or_create_study(None, SmolStr::new_static("Test AirPods"), 1);
    let new_rate = 12.5f64.to_bits();
    let basis = study.update_basis(mode, new_rate);
    assert_eq!(basis.samples, 0);
    assert_eq!(f64::from_bits(basis.rate), 12.5);
    let combined = MeanAndVariance { mean: new_rate, variance: 99f64.to_bits() };
    let study =
        BatteryStudy::update_drain_rate(Some(study), mode, new_rate, 10, combined, 2).unwrap();

    let read = BatteryStudy::get_drain_rate(Some(&study), mode).unwrap();
    assert!((f64::from_bits(read.rate) - 12.5).abs() < 0.001);
    // The first update has zero variance.
    let spread = read.spread.unwrap();
    assert_eq!(f64::from_bits(spread.variance), 0.0);
    assert_eq!(spread.samples, 10);

    // Another sample: the average of 12.5 and 11.5, with a variance.
    let new_rate = 11.5f64.to_bits();
    let combined = MeanAndVariance { mean: 12f64.to_bits(), variance: 0.25f64.to_bits() };
    let study =
        BatteryStudy::update_drain_rate(Some(study), mode, new_rate, 10, combined, 3).unwrap();
    let read = BatteryStudy::get_drain_rate(Some(&study), mode).unwrap();
    assert!((f64::from_bits(read.rate) - 12.0).abs() < 0.001);
    assert_eq!(f64::from_bits(read.spread.unwrap().variance), 0.25);
    assert_eq!(study.total_samples, 20);
    assert_eq!(study.last_updated, 3);
    assert!(BatteryStudy::get_drain_rate(Some(&study), NoiseControlMode::Off).is_none());
    assert!(BatteryStudy::get_drain_rate(None, mode).is_none());
}

#[test]
fn one_sample_has_no_spread() {
    let mode = NoiseControlMode::Off;
    let (study, _) = BatteryStudy::get_or_create_study(None, SmolStr::new_static("x"), 1);
    let combined = MeanAndVariance { mean: 5, variance: 6 };
    let study = BatteryStudy::update_drain_rate(Some(study), mode, 5, 1, combined, 2).unwrap();
    let read = BatteryStudy::get_drain_rate(Some(&study), mode).unwrap();
    assert_eq!(read.rate, 5);
    assert!(read.spread.is_none());
    assert_eq!(
        study.update_basis(mode, 9),
        DrainRateStats { rate: 5, variance: 0, samples: 1, last_updated: 2 }
    );
    assert!(study.can_count_samples(mode, u32::MAX - 1));
    assert!(!study.can_count_samples(mode, u32::MAX));
}

#[test]
fn rate_of_unknown_device_is_refused() {
    let combined = MeanAndVariance { mean: 1, variance: 2 };
    let outcome =
        BatteryStudy::update_drain_rate(None, NoiseControlMode::Off, 1, 4, combined, 2);
    assert_eq!(outcome.unwrap_err(), Error::StudyNotFound);
}

#[test]
fn sessions_are_counted_from_the_second_one() {
    let tracker = BatteryTracker::new(true);
    let first = tracker.init_session(None, SmolStr::new_static("x"), 10).unwrap();
    assert_eq!(first.total_sessions, 0);
    let second = tracker.init_session(Some(first), SmolStr::new_static("x"), 11).unwrap();
    assert_eq!(second.total_sessions, 1);
    assert_eq!(second.last_updated, 11);
    let unstudied = BatteryTracker::new(false);
    assert!(unstudied.init_session(None, SmolStr::new_static("x"), 1).is_none());
    // Without a study nothing is counted, however large the count of a row is.
    let mut full = second;
    full.total_sessions = u32::MAX;
    assert!(unstudied.init_session(Some(full), SmolStr::new_static("x"), 1).is_none());
    assert!(BatteryStudy::increment_session_count(None, 12).is_none());
}

#[test]
fn keys_are_addresses() {
    let key = KeyCodec::bytes_encode(&TEST_ADDRESS);
    assert_eq!(key, &[0xAA, 0xBB, 0xCC, 0xDD, 0xEE, 0xFF]);
    assert_eq!(KeyCodec::bytes_decode(key), Some(TEST_ADDRESS));
    assert!(KeyCodec::bytes_decode(&key[..5]).is_none());
}

#[test]
fn seconds_of_moments() {
    assert_eq!(SecondsSinceInit::new(Moment { nanos: -1 }), SecondsSinceInit(0));
    assert_eq!(SecondsSinceInit::new(Moment { nanos: 59_999_999_999 }), SecondsSinceInit(59));
    assert_eq!(SecondsSinceInit::new(at_seconds(0x1_0000_0003)), SecondsSinceInit(3));
    assert_eq!(SecondsSinceInit(7).seconds_since(SecondsSinceInit(5)), 2);
    assert_eq!(SecondsSinceInit(5).seconds_since(SecondsSinceInit(7)), 0);
    assert_eq!(SecondsSinceInit(7).instant(), at_seconds(7));
}

#[test]
fn test_battery_history_ring_buffer() {
    let mut history = BatteryHistory::default();

    assert_eq!(history.len(), 0);
    assert!(history.last_level().is_none());

    for i in 0..5 {
        history.push(at_seconds(i * 60), 100 - i as u8);
    }

    assert_eq!(history.len(), 5);
    assert_eq!(history.last_level(), Some(96));

    let samples = history.iter();
    assert_eq!(samples.len(), 5);
    assert_eq!(samples[0].1, 100);
    assert_eq!(samples[4].1, 96);
}

#[test]
fn test_battery_history_wraparound() {
    let mut history = BatteryHistory::default();

    for i in 0..80 {
        history.push(at_seconds(i * 60), 100 - i as u8);
    }

    assert_eq!(history.len(), BATTERY_HISTORY_SIZE);

    let samples = history.iter();
    assert_eq!(samples.len(), BATTERY_HISTORY_SIZE);

    // The oldest sample should be from index 48 (80 - 32)
    assert_eq!(samples[0].1, 52);
}

#[test]
fn only_drops_are_recorded() {
    let mut history = BatteryHistory::default();
    for (n, level) in [90u8, 90, 91, 89, 89, 80].into_iter().enumerate() {
        history.record_battery_drop(level, at_seconds(n as i64));
    }
    let samples: Vec<(u32, u8)> = history.iter().into_iter().map(|(s, l)| (s.0, l)).collect();
    assert_eq!(samples, [(0, 90), (3, 89), (5, 80)]);
    assert_eq!(history.oldest_timestamp(), Some(at_seconds(0)));
}

#[test]
fn selection_keeps_recent_samples() {
    let mut history = BatteryHistory::default();
    for n in 0..12 {
        history.push(at_seconds(n * 10), 90 - n as u8);
    }
    let selection = history.calculate_drain_rate(4, Some(at_seconds(80))).unwrap();
    assert_eq!(selection.samples.as_slice(), &[(80, 82), (90, 81), (100, 80), (110, 79)]);
    assert_eq!(selection.alpha_tenths, 1);
    assert!(history.calculate_drain_rate(5, Some(at_seconds(80))).is_none());
    let selection = history.calculate_drain_rate(4, None).unwrap();
    assert_eq!(selection.samples.len(), 12);
    assert_eq!(selection.alpha_tenths, 3);
    assert!(history.calculate_drain_rate(13, None).is_none());
}

#[test]
fn test_battery_tracker_ttl_when_charging() {
    let mut tracker = BatteryTracker::new(false);
    let battery = mock_battery(mock_state(50, true), mock_state(60, false));
    let mode = Some(NoiseControlMode::Off);
    let plan = tracker.plan_ttl(&battery, mode, None, &NoiseControlMap::new(), at_seconds(0));
    assert!(plan.is_none());
    assert!(tracker.estimate_ttl(&battery, forecast(10.0, 100, 100)).is_none());
    assert!(!BatteryTracker::can_estimate(&battery));
}

#[test]
fn test_battery_tracker_clears_on_charging() {
    let mut tracker = BatteryTracker::new(false);
    for i in 0..5 {
        let level = (100 - i * 2) as u8;
        tracker.record_battery_drop(
            mock_state(level, false),
            mock_state(level, false),
            at_seconds(i),
        );
    }

    assert!(!tracker.left_history.is_empty());
    assert!(!tracker.right_history.is_empty());

    tracker.record_battery_drop(mock_state(90, true), mock_state(90, false), at_seconds(9));

    assert_eq!(tracker.left_history.len(), 0);
    assert!(!tracker.right_history.is_empty());
}

#[test]
fn test_battery_tracker_insufficient_data() {
    let mut tracker = BatteryTracker::new(false);
    for i in 0..3 {
        let level = (100 - i) as u8;
        tracker.record_battery_drop(
            mock_state(level, false),
            mock_state(level, false),
            at_seconds(i),
        );
    }

    let battery = mock_battery(mock_state(97, false), mock_state(97, false));
    let slope = Some(1f64.to_bits());
    assert!(tracker.calculate_local_drain_rate(at_seconds(3), slope, slope).is_none());
    let mode = Some(NoiseControlMode::Off);
    let plan = tracker.plan_ttl(&battery, mode, None, &NoiseControlMap::new(), at_seconds(3));
    assert!(plan.is_none());
    assert!(tracker.estimate_ttl(&battery, None).is_none());
}

#[test]
fn test_battery_tracker_integration_with_study() {
    let mut tracker = BatteryTracker::new(true);
    for i in 0..10 {
        let level = (100 - i * 2) as u8;
        tracker.record_battery_drop(
            mock_state(level, false),
            mock_state(level, false),
            at_seconds(i),
        );
    }
    let slope = Some(7f64.to_bits());
    let local = tracker.calculate_local_drain_rate(at_seconds(10), slope, None).unwrap();
    assert_eq!(local.samples, 10);
    assert_eq!(local.alpha_tenths, 3);

    let save = tracker.save_to_study(NoiseControlMode::Active, Some(local)).unwrap();
    assert_eq!(save.mode, NoiseControlMode::Active);
    assert_eq!(save.samples, 10);
    assert_eq!(save.rate, 7f64.to_bits());

    assert!(tracker.historical_cache.is_empty());
    assert_eq!(tracker.left_history.len(), 5);
    assert_eq!(tracker.right_history.last_level(), Some(82));
}

#[test]
fn test_should_save() {
    let mut tracker = BatteryTracker::new(false);
    let battery = mock_battery(mock_state(80, false), mock_state(80, false));

    assert!(!tracker.should_save(30, &battery, at_seconds(0)));
    assert!(!tracker.should_save(u32::MAX, &battery, at_seconds(0)));

    for i in 0..10 {
        let level = (100 - i) as u8;
        tracker.record_battery_drop(
            mock_state(level, false),
            mock_state(level, false),
            at_seconds(i),
        );
    }

    assert!(!tracker.should_save(30, &battery, at_seconds(10)));
    assert!(!tracker.should_save(30, &battery, Moment { nanos: 1_799_999_999_999 }));
    assert!(tracker.should_save(30, &battery, at_seconds(1800)));
    let charging = mock_battery(mock_state(80, true), mock_state(80, false));
    assert!(!tracker.should_save(30, &charging, at_seconds(1800)));
}

#[test]
fn estimates_are_smoothed_and_bounded() {
    let mut tracker = BatteryTracker::new(false);
    let battery = mock_battery(mock_state(50, false), mock_state(60, false));
    assert_eq!(tracker.estimate_ttl(&battery, forecast(9.0, 200, 150)), Some(200));
    assert_eq!(tracker.estimate_ttl(&battery, forecast(9.0, 200, 150)), Some(150));
    assert_eq!(tracker.last_ttl_estimate, Some(150));
    assert_eq!(tracker.estimate_ttl(&battery, forecast(9.0, 1440, 150)), None);
    assert_eq!(tracker.last_ttl_estimate, None);
    assert_eq!(tracker.estimate_ttl(&battery, forecast(9.0, 0, 150)), None);
    assert_eq!(tracker.estimate_ttl(&battery, None), None);
    let gone = mock_battery(BatteryState::new(), mock_state(60, false));
    assert_eq!(tracker.estimate_ttl(&gone, forecast(9.0, 200, 150)), None);
}

#[test]
fn later_estimates_lie_between() {
    let battery = mock_battery(mock_state(50, false), mock_state(60, false));
    let mut tracker = BatteryTracker::new(false);
    let mut last = tracker.estimate_ttl(&battery, forecast(9.0, 1439, 1439)).unwrap();
    assert_eq!(last, 1439);
    for minutes in [1u32, 1, 700, 1439, 2] {
        let smoothed = (f64::from(minutes) * 0.3 + f64::from(last) * 0.7).round() as u32;
        let next = tracker.estimate_ttl(&battery, forecast(9.0, minutes, smoothed)).unwrap();
        assert!(next >= minutes.min(last) && next <= minutes.max(last));
        assert!((1..1440).contains(&next));
        assert_eq!(tracker.last_ttl_estimate, Some(next));
        last = next;
    }
}

#[test]
fn negligible_rates_give_no_estimate() {
    let battery = mock_battery(mock_state(50, false), mock_state(60, false));
    for rate in [
        0.0,
        -0.0,
        -3.0,
        f64::EPSILON,
        f64::MIN_POSITIVE,
        f64::EPSILON * 1.01,
        0.5,
        80.0,
        f64::INFINITY,
        f64::NEG_INFINITY,
        f64::NAN,
        -f64::NAN,
    ] {
        let mut tracker = BatteryTracker::new(false);
        let estimate = tracker.estimate_ttl(&battery, forecast(rate, 200, 150));
        assert_eq!(estimate.is_none(), rate <= f64::EPSILON, "{rate}");
    }
}

#[test]
fn estimates_are_planned() {
    let mut tracker = BatteryTracker::new(true);
    let battery = mock_battery(mock_state(50, false), mock_state(60, false));
    let now = at_seconds(1);
    let mut rows = NoiseControlMap::new();
    rows.insert(
        NoiseControlMode::Active,
        HistoricalRate { rate: 8f64.to_bits(), confidence: 0.5f64.to_bits() },
    );
    let local = LocalRate { rate: 9f64.to_bits(), alpha_tenths: 3, samples: 12 };
    let plan = tracker.plan_ttl(&battery, None, Some(local), &rows, now);
    assert_eq!(
        plan,
        Some(TtlPlan {
            blend: Blend::Weighted {
                local: 9f64.to_bits(),
                historical: 8f64.to_bits(),
                local_weight_tenths: 9,
                shift: WeightShift::TowardHistory,
            },
            lowest_level: 50,
            last: None,
        })
    );
    assert_eq!(tracker.historical_cache.len(), 1);
    tracker.estimate_ttl(&battery, forecast(9.0, 300, 300));
    // The rate is in the cache by now.
    let plan = tracker.plan_ttl(&battery, None, None, &NoiseControlMap::new(), now).unwrap();
    assert_eq!(plan.blend, Blend::Historical { rate: 8f64.to_bits(), alpha_tenths: 5 });
    assert_eq!(plan.last, Some(300));
}

#[test]
fn left_bud_goes_first() {
    let mut tracker = BatteryTracker::new(false);
    for i in 0..4 {
        let level = (100 - i) as u8;
        tracker.record_battery_drop(
            mock_state(level, false),
            mock_state(level, false),
            at_seconds(i),
        );
    }
    let now = at_seconds(4);
    assert_eq!(
        tracker.calculate_local_drain_rate(now, Some(1), Some(2)),
        Some(LocalRate { rate: 1, alpha_tenths: 1, samples: 4 })
    );
    assert_eq!(
        tracker.calculate_local_drain_rate(now, None, Some(2)),
        Some(LocalRate { rate: 2, alpha_tenths: 1, samples: 4 })
    );
    // Two hours later no sample counts any more.
    assert!(tracker.calculate_local_drain_rate(at_seconds(7204), Some(1), Some(2)).is_none());
}

#[test]
fn fetched_rate_is_used_again() {
    let mut tracker = BatteryTracker::new(true);
    let rate = HistoricalRate { rate: 1, confidence: 2 };
    let newer = HistoricalRate { rate: 3, confidence: 4 };
    let mode = NoiseControlMode::Adaptive;
    assert!(tracker.needs_study(None, at_seconds(0)));
    assert_eq!(tracker.get_historical_rate_cached(mode, Some(rate), at_seconds(0)), Some(rate));
    assert!(!tracker.needs_study(Some(mode), at_seconds(299)));
    let later = tracker.get_historical_rate_cached(mode, Some(newer), at_seconds(299));
    assert_eq!(later, Some(rate));
    let expired = tracker.get_historical_rate_cached(mode, Some(newer), at_seconds(300));
    assert_eq!(expired, Some(newer));
    assert_eq!(tracker.historical_cache.len(), 1);

    let local = LocalRate { rate: 9, alpha_tenths: 1, samples: 4 };
    assert!(tracker.save_to_study(mode, Some(local)).is_some());
    let anew = tracker.get_historical_rate_cached(mode, Some(rate), at_seconds(301));
    assert_eq!(anew, Some(rate));
}

#[test]
fn current_mode_is_looked_up_first() {
    let mut tracker = BatteryTracker::new(true);
    let mut rows = NoiseControlMap::new();
    rows.insert(NoiseControlMode::Active, HistoricalRate { rate: 1, confidence: 0 });
    rows.insert(NoiseControlMode::Adaptive, HistoricalRate { rate: 2, confidence: 0 });
    let now = at_seconds(1);
    let found = tracker.find_historical_rate(Some(NoiseControlMode::Adaptive), &rows, now);
    assert_eq!(found.unwrap().0.rate, 2);
    let found = tracker.find_historical_rate(Some(NoiseControlMode::Off), &rows, now);
    assert_eq!(found.unwrap().1, NoiseControlMode::Active);
    let mut without_study = BatteryTracker::new(false);
    assert!(without_study.find_historical_rate(None, &rows, now).is_none());
}

#[test]
fn too_few_samples_are_not_entered() {
    let mut tracker = BatteryTracker::new(true);
    let local = LocalRate { rate: 9, alpha_tenths: 1, samples: 3 };
    assert!(tracker.save_to_study(NoiseControlMode::Off, Some(local)).is_none());
    assert!(tracker.save_to_study(NoiseControlMode::Off, None).is_none());
    let enough = LocalRate { rate: 9, alpha_tenths: 1, samples: 4 };
    let mut without_study = BatteryTracker::new(false);
    assert!(without_study.save_to_study(NoiseControlMode::Off, Some(enough)).is_none());
}

#[test]
fn rates_are_blended() {
    let blend = BatteryTracker::combine_drain_rates;
    let local = Some(LocalRate { rate: 1, alpha_tenths: 3, samples: 0 });
    for confidence in [
        0.0,
        -0.0,
        0.999,
        1.0,
        1.5,
        2.0,
        4.99,
        5.0,
        1e300,
        f64::INFINITY,
        f64::NAN,
        f64::MIN_POSITIVE / 2.0,
    ] {
        let studied = Some(HistoricalRate { rate: 2, confidence: confidence.to_bits() });
        let shift = if confidence < 1.0 {
            WeightShift::TowardHistory
        } else if confidence < 2.0 {
            WeightShift::Keep
        } else {
            WeightShift::TowardLocal
        };
        for (samples, local_weight_tenths) in [(3, 0), (4, 7), (10, 7), (11, 9)] {
            assert_eq!(
                blend(local, studied, samples),
                Some(Blend::Weighted { local: 1, historical: 2, local_weight_tenths, shift })
            );
        }
        let alpha_tenths = if confidence < 5.0 { 5 } else { 7 };
        assert_eq!(blend(None, studied, 0), Some(Blend::Historical { rate: 2, alpha_tenths }));
    }
    assert_eq!(blend(local, None, 5), Some(Blend::Local { rate: 1, alpha_tenths: 3 }));
    assert_eq!(blend(None, None, 0), None);
}
