use tuxvantage::backtrace::Backtrace;
use tuxvantage::battery::BatteryConfig;
use tuxvantage::battery::BatteryMatches;
use tuxvantage::battery_level::BatteryLevel;
use tuxvantage::config::{Config, ConfigStore, Consistency, Overrides, TuxVantage};
use tuxvantage::cooldown::CoolDown;
use tuxvantage::handler::{Handler, Handlers};
use tuxvantage::machine::Machine;
use tuxvantage::profile::Profiles;

fn empty_config() -> Config {
    Config {
        tuxvantage: TuxVantage::unset(),
        profiles: Profiles(Vec::new()),
        consistency: Consistency::unset(),
    }
}

#[test]
fn profile_name_prefers_override_then_persisted() {
    let mut tuxvantage = TuxVantage::unset();
    assert_eq!(tuxvantage.profile(), None);
    tuxvantage.profile = Some("persisted".to_string());
    assert_eq!(tuxvantage.profile().as_deref(), Some("persisted"));
    tuxvantage.overrides.profile = Some("override".to_string());
    assert_eq!(tuxvantage.profile().as_deref(), Some("override"));
}

#[test]
fn machine_prefers_override_then_persisted_then_auto() {
    let mut tuxvantage = TuxVantage::unset();
    assert_eq!(tuxvantage.machine(), Machine::Auto);
    tuxvantage.machine = Some(Machine::Never);
    assert_eq!(tuxvantage.machine(), Machine::Never);
    tuxvantage.overrides.machine = Some(Machine::Always);
    assert_eq!(tuxvantage.machine(), Machine::Always);
}

#[test]
fn panic_is_on_when_either_layer_sets_it() {
    let mut tuxvantage = TuxVantage::unset();
    assert!(!tuxvantage.panic());
    tuxvantage.panic = true;
    assert!(tuxvantage.panic());
    tuxvantage.panic = false;
    tuxvantage.overrides.panic = true;
    assert!(tuxvantage.panic());
}

#[test]
fn backtrace_flags_resolve_field_by_field() {
    let mut tuxvantage = TuxVantage::unset();
    tuxvantage.backtrace = Backtrace { panics: true, errors: false };
    tuxvantage.overrides.backtrace = Backtrace { panics: false, errors: true };
    let resolved = tuxvantage.backtrace();
    assert!(resolved.panics);
    assert!(resolved.errors);
}

#[test]
fn handlers_resolve_field_by_field_with_switch_fallback() {
    let mut tuxvantage = TuxVantage::unset();
    tuxvantage.handlers.default = Some(Handler::Error);
    tuxvantage.overrides.handlers.rapid_charging = Some(Handler::Ignore);
    let resolved = tuxvantage.handlers();
    assert_eq!(resolved.default(), Handler::Error);
    assert_eq!(resolved.battery_conservation(), Handler::Error);
    assert_eq!(resolved.rapid_charging(), Handler::Ignore);
    let nothing = Handlers { default: None, battery_conservation: None, rapid_charging: None };
    assert_eq!(nothing.default(), Handler::Switch);
    assert_eq!(nothing.battery_conservation(), Handler::Switch);
    assert_eq!(nothing.rapid_charging(), Handler::Switch);
}

#[test]
fn battery_config_resolves_field_by_field() {
    let mut tuxvantage = TuxVantage::unset();
    tuxvantage.battery = BatteryConfig {
        matches: Some(BatteryMatches::Index(1)),
        infallible: false,
        threshold: Some(BatteryLevel::new(60).unwrap()),
        cooldown: None,
    };
    tuxvantage.overrides.battery = BatteryConfig {
        matches: None,
        infallible: true,
        threshold: Some(BatteryLevel::new(90).unwrap()),
        cooldown: Some(CoolDown::new(5, 0)),
    };
    let resolved = tuxvantage.battery_config();
    assert!(matches!(resolved.matches, Some(BatteryMatches::Index(1))));
    assert!(resolved.infallible);
    assert_eq!(resolved.threshold().inner(), 90);
    assert_eq!(resolved.cooldown().secs(), 5);
}

#[test]
fn battery_config_defaults_when_nothing_is_chosen() {
    let config = BatteryConfig::unset();
    assert!(matches!(config.matches(), BatteryMatches::First));
    assert_eq!(config.threshold().inner(), 80);
    assert_eq!(config.cooldown().secs(), 60);
    assert_eq!(config.cooldown().subsec_nanos(), 0);
}

#[test]
fn store_write_is_visible_after_downgrade_to_reading() {
    let mut store = ConfigStore::initialize(empty_config());
    let mut overrides = Overrides::unset();
    overrides.profile = Some("chosen".to_string());
    overrides.panic = true;
    store.set_overrides(overrides);
    let shared = store.read();
    assert_eq!(shared.tuxvantage.profile().as_deref(), Some("chosen"));
    assert!(shared.tuxvantage.panic());
}

#[test]
fn store_set_default_requires_a_known_name() {
    let mut store = ConfigStore::initialize(empty_config());
    assert!(store.set_default("NOBODY".to_string()).is_err());
    assert_eq!(store.read().tuxvantage.profile(), None);
    store.set_default("IDEAPAD_AMD".to_string()).unwrap();
    assert_eq!(store.read().tuxvantage.profile().as_deref(), Some("IDEAPAD_AMD"));
}

#[test]
fn consistency_check_records_then_warns_on_drift() {
    let mut ledger = Consistency::unset();
    assert!(!ledger.startup_check("/usr/bin/tuxvantage"));
    assert_eq!(ledger.last_exe.as_deref(), Some("/usr/bin/tuxvantage"));
    // Not installed: a different path draws no warning.
    assert!(!ledger.startup_check("/tmp/tuxvantage"));
    ledger.install("/usr/bin/tuxvantage".to_string());
    assert!(ledger.regulator_service_installed);
    // Installed and running from elsewhere: warn.
    assert!(ledger.startup_check("/tmp/tuxvantage"));
    // Installed and running from the recorded path: no warning.
    assert!(!ledger.startup_check("/usr/bin/tuxvantage"));
}
