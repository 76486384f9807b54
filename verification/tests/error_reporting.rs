use tuxvantage::battery::{BatteryInfo, BatteryMatches};
use tuxvantage::errors::{
    dedup_error_chain_for_humans, machine_failure_chain, resolve_tip, Error, HardwareCallError,
};
use tuxvantage::log::{Level, NoPrologue};
use tuxvantage::performance::{mode_from_bits, SystemPerformanceMode};
use tuxvantage::profile::{Bit, SystemPerformanceBits};
use tuxvantage::verbose::Verbosity;
use tuxvantage::{not, tab};

fn battery(vendor: Option<&str>, model: Option<&str>, serial_number: Option<&str>) -> BatteryInfo {
    BatteryInfo {
        vendor: vendor.map(|s| s.to_string()),
        model: model.map(|s| s.to_string()),
        serial_number: serial_number.map(|s| s.to_string()),
    }
}

#[test]
fn context_prepends_the_newer_cause() {
    let failure = Error::new("root".to_string())
        .context("middle".to_string())
        .context("outer".to_string());
    assert_eq!(failure.chain, vec!["outer", "middle", "root"]);
    assert!(failure.tip.is_none());
}

#[test]
fn maybe_tip_sets_a_tip_only_when_given() {
    let with = Error::new("x".to_string()).maybe_tip(Some("do this".to_string()));
    assert_eq!(with.tip.as_deref(), Some("do this"));
    let without = Error::new("x".to_string()).maybe_tip(None);
    assert!(without.tip.is_none());
}

#[test]
fn duplicate_causes_appear_once_for_humans() {
    let failure = Error {
        chain: vec!["a".to_string(), "b".to_string(), "a".to_string(), "c".to_string()],
        tip: None,
    };
    assert_eq!(dedup_error_chain_for_humans(&failure), "a: b: c");
}

#[test]
fn machine_chain_strips_colour_codes_and_duplicates() {
    let chain = vec![
        "\u{1b}[1mbold cause\u{1b}[0m".to_string(),
        "bold cause".to_string(),
        "other".to_string(),
    ];
    assert_eq!(machine_failure_chain(&chain), vec!["bold cause", "other"]);
}

#[test]
fn each_hardware_failure_kind_earns_its_tip() {
    let method = resolve_tip(&HardwareCallError::MethodNotFound).unwrap();
    assert!(method.contains("profile"));
    let module = resolve_tip(&HardwareCallError::KernelModuleNotLoaded).unwrap();
    assert!(module.contains("modprobe acpi_call"));
    assert!(resolve_tip(&HardwareCallError::Other).is_none());
}

#[test]
fn find_fails_on_the_first_enumeration_error() {
    let batteries = vec![
        Ok(battery(Some("ACME"), None, None)),
        Err("bus timeout".to_string()),
        Ok(battery(Some("Other"), None, None)),
    ];
    let failure = BatteryMatches::Vendor("Other".to_string()).find(&batteries).unwrap_err();
    assert_eq!(failure.chain, vec!["failed to get list of batteries", "bus timeout"]);
}

#[test]
fn find_picks_the_first_match_of_a_clean_enumeration() {
    let batteries = vec![
        Ok(battery(Some("ACME"), Some("MB100"), None)),
        Ok(battery(Some("ACME"), Some("MB200"), Some("S1"))),
    ];
    let by_model = BatteryMatches::Model("MB200".to_string()).find(&batteries).unwrap().unwrap();
    assert_eq!(by_model.serial_number.as_deref(), Some("S1"));
    let by_index = BatteryMatches::Index(0).find(&batteries).unwrap().unwrap();
    assert_eq!(by_index.model.as_deref(), Some("MB100"));
    let none = BatteryMatches::Vendor("ghost".to_string()).find(&batteries).unwrap();
    assert!(none.is_none());
}

#[test]
fn find_infallible_collects_errors_and_keeps_raw_positions() {
    let batteries = vec![
        Err("slot one broken".to_string()),
        Ok(battery(Some("ACME"), None, None)),
        Err("slot three broken".to_string()),
        Ok(battery(Some("Zeta"), None, None)),
    ];
    // Index counts failed entries too: the ACME battery sits at position 1.
    let (found, errors) = BatteryMatches::Index(1).find_infallible(&batteries);
    assert_eq!(found.unwrap().vendor.as_deref(), Some("ACME"));
    assert_eq!(errors.len(), 1);
    assert_eq!(errors[0].chain, vec!["failed to get battery", "slot one broken"]);
    // No match: every failure is reported.
    let (missing, all_errors) = BatteryMatches::Vendor("ghost".to_string()).find_infallible(
        &batteries,
    );
    assert!(missing.is_none());
    assert_eq!(all_errors.len(), 2);
    assert_eq!(all_errors[1].chain, vec!["failed to get battery", "slot three broken"]);
}

#[test]
fn tab_indents_four_spaces_per_level_past_the_first() {
    assert_eq!(tab(1), "");
    assert_eq!(tab(2), "    ");
    assert_eq!(tab(4), "            ");
}

#[test]
fn not_negates() {
    assert!(not(false));
    assert!(!not(true));
}

#[test]
fn well_known_paths_sit_under_the_configuration_directory() {
    assert_eq!(tuxvantage::paths::profiles_dir("/home/u/.config/tv"), "/home/u/.config/tv/profiles");
    assert_eq!(
        tuxvantage::paths::tuxvantage_toml("/home/u/.config/tv"),
        "/home/u/.config/tv/tuxvantage.toml"
    );
}

#[test]
fn prologue_suppression_covers_one_level_at_a_time() {
    let mut state = NoPrologue::new();
    assert!(state.shows_prologue(Level::Info, true));
    assert!(!state.shows_prologue(Level::Info, false));
    state.suppress_for(Level::Info);
    assert!(!state.shows_prologue(Level::Info, true));
    assert!(state.shows_prologue(Level::Warn, true));
    assert_eq!(state.for_what(), Some(Level::Info));
    state.reenable();
    assert!(state.shows_prologue(Level::Info, true));
    assert_eq!(state.for_what(), None);
}

#[test]
fn verbosity_switch_reports_both_sides() {
    let mut verbosity = Verbosity::default();
    assert!(verbosity.disabled());
    verbosity.set(true);
    assert!(verbosity.enabled());
    assert!(verbosity.get());
    assert!(!verbosity.disabled());
}

#[test]
fn performance_mode_parses_and_reads_back_from_bits() {
    assert_eq!(
        SystemPerformanceMode::from_str("ic").unwrap(),
        SystemPerformanceMode::IntelligentCooling
    );
    assert_eq!(
        SystemPerformanceMode::from_str("extreme-performance").unwrap(),
        SystemPerformanceMode::ExtremePerformance
    );
    assert_eq!(
        SystemPerformanceMode::from_str("b").unwrap(),
        SystemPerformanceMode::BatterySaving
    );
    assert!(SystemPerformanceMode::from_str("ludicrous").is_none());
    let bits = SystemPerformanceBits {
        intelligent_cooling: Bit::Same(0),
        extreme_performance: Bit::Same(1),
        battery_saving: Bit::Split { fcmo: 2, spmo: 3 },
    };
    assert_eq!(mode_from_bits(&bits, 0, 0), Some(SystemPerformanceMode::IntelligentCooling));
    assert_eq!(mode_from_bits(&bits, 1, 1), Some(SystemPerformanceMode::ExtremePerformance));
    assert_eq!(mode_from_bits(&bits, 2, 3), Some(SystemPerformanceMode::BatterySaving));
    assert_eq!(mode_from_bits(&bits, 7, 7), None);
}
