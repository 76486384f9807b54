use tuxvantage::backtrace::Backtrace;
use tuxvantage::battery::BatteryMatches;
use tuxvantage::battery_level::BatteryLevel;
use tuxvantage::cooldown::CoolDown;
use tuxvantage::handler::Handler;
use tuxvantage::machine::Machine;

#[test]
fn battery_level_accepts_exactly_zero_to_hundred() {
    assert_eq!(BatteryLevel::new(0).unwrap().inner(), 0);
    assert_eq!(BatteryLevel::new(80).unwrap().inner(), 80);
    assert_eq!(BatteryLevel::new(100).unwrap().inner(), 100);
    assert!(BatteryLevel::new(101).is_none());
    assert!(BatteryLevel::new(255).is_none());
}

#[test]
fn battery_level_round_trips_through_text() {
    let level = BatteryLevel::new(80).unwrap();
    let shown = level.display();
    assert_eq!(shown, "80%");
    let back = BatteryLevel::from_str(&shown).unwrap();
    assert_eq!(back.inner(), 80);
}

#[test]
fn battery_level_parses_with_and_without_percent() {
    assert_eq!(BatteryLevel::from_str("57%").unwrap().inner(), 57);
    assert_eq!(BatteryLevel::from_str("57").unwrap().inner(), 57);
    assert_eq!(BatteryLevel::from_str("0%").unwrap().inner(), 0);
    assert!(BatteryLevel::from_str("101%").is_none());
    assert!(BatteryLevel::from_str("-3").is_none());
    assert!(BatteryLevel::from_str("").is_none());
    assert!(BatteryLevel::from_str("eighty").is_none());
}

#[test]
fn cooldown_parses_integral_seconds() {
    let cooldown = CoolDown::from_str("60").unwrap();
    assert_eq!(cooldown.secs(), 60);
    assert_eq!(cooldown.subsec_nanos(), 0);
}

#[test]
fn cooldown_parses_fractional_seconds() {
    let cooldown = CoolDown::from_str("1.5").unwrap();
    assert_eq!(cooldown.secs(), 1);
    assert_eq!(cooldown.subsec_nanos(), 500_000_000);
}

#[test]
fn cooldown_tolerates_trailing_suffix() {
    let cooldown = CoolDown::from_str("60s").unwrap();
    assert_eq!(cooldown.secs(), 60);
    assert_eq!(cooldown.subsec_nanos(), 0);
    let fractional = CoolDown::from_str("1.5s").unwrap();
    assert_eq!(fractional.secs(), 1);
    assert_eq!(fractional.subsec_nanos(), 500_000_000);
}

#[test]
fn cooldown_integral_round_trip_reproduces_the_integer_string() {
    let cooldown = CoolDown::from_str("60").unwrap();
    assert_eq!(cooldown.display(), "60");
    let back = CoolDown::from_str(&cooldown.display()).unwrap();
    assert_eq!(back, cooldown);
}

#[test]
fn cooldown_fractional_round_trip_reproduces_a_fractional_string() {
    let cooldown = CoolDown::from_str("1.5").unwrap();
    let shown = cooldown.display();
    assert!(shown.contains('.'));
    assert_eq!(shown, "1.5");
    let back = CoolDown::from_str(&shown).unwrap();
    assert_eq!(back, cooldown);
}

#[test]
fn cooldown_rejects_nonsense() {
    assert!(CoolDown::from_str("").is_none());
    assert!(CoolDown::from_str("s").is_none());
    assert!(CoolDown::from_str(".").is_none());
    assert!(CoolDown::from_str("1.2.3").is_none());
    assert!(CoolDown::from_str("a minute").is_none());
}

#[test]
fn cooldown_reads_bare_fraction_and_dangling_point() {
    let half = CoolDown::from_str(".5").unwrap();
    assert_eq!(half.secs(), 0);
    assert_eq!(half.subsec_nanos(), 500_000_000);
    let whole = CoolDown::from_str("5.").unwrap();
    assert_eq!(whole.secs(), 5);
    assert_eq!(whole.subsec_nanos(), 0);
}

#[test]
fn handler_parses_names_and_initials() {
    assert_eq!(Handler::from_str("switch").unwrap(), Handler::Switch);
    assert_eq!(Handler::from_str("s").unwrap(), Handler::Switch);
    assert_eq!(Handler::from_str("ignore").unwrap(), Handler::Ignore);
    assert_eq!(Handler::from_str("i").unwrap(), Handler::Ignore);
    assert_eq!(Handler::from_str("error").unwrap(), Handler::Error);
    assert_eq!(Handler::from_str("e").unwrap(), Handler::Error);
    assert!(Handler::from_str("detonate").is_none());
}

#[test]
fn machine_parses_every_spelling() {
    assert_eq!(Machine::from_str("always").unwrap(), Machine::Always);
    assert_eq!(Machine::from_str("true").unwrap(), Machine::Always);
    assert_eq!(Machine::from_str("t").unwrap(), Machine::Always);
    assert_eq!(Machine::from_str("never").unwrap(), Machine::Never);
    assert_eq!(Machine::from_str("false").unwrap(), Machine::Never);
    assert_eq!(Machine::from_str("f").unwrap(), Machine::Never);
    assert_eq!(Machine::from_str("auto").unwrap(), Machine::Auto);
    assert_eq!(Machine::from_str("a").unwrap(), Machine::Auto);
    assert!(Machine::from_str("sometimes").is_none());
}

#[test]
fn machine_resolves_against_the_terminal() {
    assert!(Machine::Always.get(true));
    assert!(Machine::Always.get(false));
    assert!(!Machine::Never.get(true));
    assert!(!Machine::Never.get(false));
    assert!(!Machine::Auto.get(true));
    assert!(Machine::Auto.get(false));
}

#[test]
fn backtrace_parses_and_displays_the_pair() {
    let both = Backtrace::from_str("1,1").unwrap();
    assert!(both.panics && both.errors);
    let neither = Backtrace::from_str("0,0").unwrap();
    assert!(!neither.panics && !neither.errors);
    let errors_only = Backtrace::from_str("0,2").unwrap();
    assert!(!errors_only.panics && errors_only.errors);
    assert_eq!(both.display(), "1,1");
    assert_eq!(Backtrace { panics: true, errors: false }.display(), "1,0");
    assert!(Backtrace::from_str("1").is_none());
    assert!(Backtrace::from_str("1,x").is_none());
    assert!(Backtrace::from_str("999,0").is_none());
}

#[test]
fn backtrace_configure_names_the_environment_pairs() {
    let both = Backtrace { panics: true, errors: true }.configure();
    assert_eq!(both, vec![("RUST_BACKTRACE", "1")]);
    let errors_only = Backtrace { panics: false, errors: true }.configure();
    assert_eq!(errors_only, vec![("RUST_LIB_BACKTRACE", "1")]);
    let panics_only = Backtrace { panics: true, errors: false }.configure();
    assert_eq!(panics_only, vec![("RUST_BACKTRACE", "1"), ("RUST_LIB_BACKTRACE", "0")]);
    let neither = Backtrace { panics: false, errors: false }.configure();
    assert_eq!(neither, vec![("RUST_BACKTRACE", "0"), ("RUST_LIB_BACKTRACE", "0")]);
}

#[test]
fn battery_matches_parses_each_variant() {
    assert!(matches!(BatteryMatches::from_str("first=").unwrap(), BatteryMatches::First));
    assert!(matches!(BatteryMatches::from_str("f=anything").unwrap(), BatteryMatches::First));
    match BatteryMatches::from_str("index=2").unwrap() {
        BatteryMatches::Index(index) => assert_eq!(index, 2),
        other => panic!("wrong variant: {:?}", other),
    }
    match BatteryMatches::from_str("vendor=ACME").unwrap() {
        BatteryMatches::Vendor(vendor) => assert_eq!(vendor, "ACME"),
        other => panic!("wrong variant: {:?}", other),
    }
    match BatteryMatches::from_str("m=MB100").unwrap() {
        BatteryMatches::Model(model) => assert_eq!(model, "MB100"),
        other => panic!("wrong variant: {:?}", other),
    }
    match BatteryMatches::from_str("sn=123-456").unwrap() {
        BatteryMatches::SerialNumber(serial_number) => assert_eq!(serial_number, "123-456"),
        other => panic!("wrong variant: {:?}", other),
    }
}

#[test]
fn battery_matches_reports_each_parse_failure() {
    let missing_delimiter = BatteryMatches::from_str("first").unwrap_err();
    assert_eq!(missing_delimiter.chain, vec!["delimit the variant and value with '='"]);
    let bad_index = BatteryMatches::from_str("index=two").unwrap_err();
    assert_eq!(bad_index.chain, vec!["value wasn't a valid integer"]);
    let unknown = BatteryMatches::from_str("capacity=50").unwrap_err();
    assert_eq!(unknown.chain, vec!["unknown variant"]);
}

#[test]
fn cooldown_keeps_only_nanosecond_precision() {
    let cooldown = CoolDown::from_str("0.1234567891").unwrap();
    assert_eq!(cooldown.secs(), 0);
    assert_eq!(cooldown.subsec_nanos(), 123_456_789);
    let padded = CoolDown::from_str("0.5000").unwrap();
    assert_eq!(padded.subsec_nanos(), 500_000_000);
}

#[test]
fn cooldown_rejects_whole_seconds_beyond_u64() {
    assert!(CoolDown::from_str("18446744073709551616").is_none());
    assert_eq!(CoolDown::from_str("18446744073709551615").unwrap().secs(), u64::MAX);
}
