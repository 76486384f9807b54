use tuxvantage::battery_level::BatteryLevel;
use tuxvantage::daemon::{percent_from_hundredths, ConservationToggle, Daemon};
use tuxvantage::handler::{resolve_conflict, FeatureKind, Handler, ToggleCall};

#[test]
fn conflict_inactive_enables_without_ceremony() {
    for handler in [Handler::Switch, Handler::Ignore, Handler::Error] {
        let plan = resolve_conflict(FeatureKind::Conservation, handler, false).unwrap();
        assert_eq!(plan.calls, vec![ToggleCall::EnableRequested]);
        assert!(!plan.warn);
    }
}

#[test]
fn switch_disables_the_conflicting_feature_first() {
    let plan = resolve_conflict(FeatureKind::Conservation, Handler::Switch, true).unwrap();
    assert_eq!(plan.calls, vec![ToggleCall::DisableConflicting, ToggleCall::EnableRequested]);
    assert!(!plan.warn);
}

#[test]
fn ignore_enables_anyway_and_warns() {
    let plan = resolve_conflict(FeatureKind::RapidCharge, Handler::Ignore, true).unwrap();
    assert_eq!(plan.calls, vec![ToggleCall::EnableRequested]);
    assert!(plan.warn);
}

#[test]
fn error_refuses_and_names_both_features() {
    let conflict = resolve_conflict(FeatureKind::Conservation, Handler::Error, true).unwrap_err();
    assert_eq!(conflict.requested, FeatureKind::Conservation);
    assert_eq!(conflict.conflicting, FeatureKind::RapidCharge);
    let mirrored = resolve_conflict(FeatureKind::RapidCharge, Handler::Error, true).unwrap_err();
    assert_eq!(mirrored.requested, FeatureKind::RapidCharge);
    assert_eq!(mirrored.conflicting, FeatureKind::Conservation);
}

#[test]
fn three_polls_give_disable_enable_disable() {
    let threshold = BatteryLevel::new(80).unwrap();
    let mut daemon = Daemon::new(threshold);
    let calls: Vec<ConservationToggle> =
        [50u8, 85, 50].iter().map(|&charge| daemon.poll(charge)).collect();
    assert_eq!(
        calls,
        vec![ConservationToggle::Disable, ConservationToggle::Enable, ConservationToggle::Disable]
    );
}

#[test]
fn charge_at_threshold_enables() {
    let threshold = BatteryLevel::new(80).unwrap();
    let mut daemon = Daemon::new(threshold);
    assert_eq!(daemon.poll(80), ConservationToggle::Enable);
    assert_eq!(daemon.poll(79), ConservationToggle::Disable);
}

#[test]
fn signal_always_ends_with_one_enable() {
    let threshold = BatteryLevel::new(80).unwrap();
    // Signal right after a cycle that disabled conservation.
    let mut daemon = Daemon::new(threshold);
    assert_eq!(daemon.poll(10), ConservationToggle::Disable);
    assert_eq!(daemon.signal(), ConservationToggle::Enable);
    assert!(daemon.terminated);
    // Signal right after a cycle that enabled it: still one final enable.
    let mut daemon = Daemon::new(threshold);
    assert_eq!(daemon.poll(95), ConservationToggle::Enable);
    assert_eq!(daemon.signal(), ConservationToggle::Enable);
    assert!(daemon.terminated);
    // Signal before any cycle at all.
    let mut daemon = Daemon::new(threshold);
    assert_eq!(daemon.signal(), ConservationToggle::Enable);
    assert!(daemon.terminated);
}

#[test]
fn percent_rounds_half_away_from_zero() {
    assert_eq!(percent_from_hundredths(0), 0);
    assert_eq!(percent_from_hundredths(10_000), 100);
    assert_eq!(percent_from_hundredths(8_450), 85);
    assert_eq!(percent_from_hundredths(8_050), 81);
    assert_eq!(percent_from_hundredths(8_049), 80);
    assert_eq!(percent_from_hundredths(49), 0);
    assert_eq!(percent_from_hundredths(50), 1);
}
