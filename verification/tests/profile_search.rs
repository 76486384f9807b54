use tuxvantage::profile::{
    BatteryCommands, BatteryFeature, Bit, BuiltInProfile, ExternalProfile, FeatureParameters,
    PossiblyBuiltInProfile, Profile, Profiles, SystemPerformance, SystemPerformanceBits,
    SystemPerformanceCommands, SystemPerformanceParameters,
};

fn profile(name: &str, expected: &[&str]) -> Profile {
    Profile {
        name: name.to_string(),
        expected_product_names: expected.iter().map(|s| s.to_string()).collect(),
        system_performance: SystemPerformance {
            commands: SystemPerformanceCommands {
                set: "SET".to_string(),
                get_fcmo_bit: "FCMO".to_string(),
                get_spmo_bit: "SPMO".to_string(),
            },
            bits: SystemPerformanceBits {
                intelligent_cooling: Bit::Same(0),
                extreme_performance: Bit::Same(1),
                battery_saving: Bit::Split { fcmo: 2, spmo: 3 },
            },
            parameters: SystemPerformanceParameters {
                intelligent_cooling: 1,
                extreme_performance: 2,
                battery_saving: 3,
            },
        },
        battery: BatteryCommands {
            set_command: "SBMC".to_string(),
            conservation: BatteryFeature {
                get_command: "BTSM".to_string(),
                parameters: FeatureParameters { enable: 3, disable: 5 },
            },
            rapid_charge: BatteryFeature {
                get_command: "QCHO".to_string(),
                parameters: FeatureParameters { enable: 7, disable: 8 },
            },
        },
    }
}

fn external(name: &str, expected: &[&str], path: &str) -> ExternalProfile {
    ExternalProfile { profile: profile(name, expected), path: path.to_string() }
}

#[test]
fn find_scans_built_ins_before_externals() {
    let profiles = Profiles(vec![external("mine", &["X1"], "/p/mine.json")]);
    assert_eq!(profiles.find("IDEAPAD_15IIL05").unwrap().name, "IDEAPAD_15IIL05");
    assert_eq!(profiles.find("IDEAPAD_AMD").unwrap().name, "IDEAPAD_AMD");
    assert_eq!(profiles.find("mine").unwrap().name, "mine");
    assert!(profiles.find("nobody").is_none());
}

#[test]
fn a_name_collision_with_a_built_in_resolves_to_the_built_in() {
    let shadow = external("IDEAPAD_AMD", &["FAKE"], "/p/shadow.json");
    let profiles = Profiles(vec![shadow]);
    let found = profiles.find("IDEAPAD_AMD").unwrap();
    // The built-in comes first in search order, so its data wins.
    assert_ne!(found.expected_product_names, vec!["FAKE".to_string()]);
}

#[test]
fn detection_returns_the_first_match_and_never_reads_past_it() {
    let a = external("A", &["AAA"], "/p/a.json");
    let b = external("B", &["81B1", "81B2"], "/p/b.json");
    let c = external("C", &["81B2"], "/p/c.json");
    let profiles = Profiles(vec![a, b, c]);
    let products = vec!["81B2".to_string()];
    // Positions: 0 and 1 are the built-ins, externals start at 2.
    let hit = profiles.detect(&products).unwrap();
    assert_eq!(hit, 3);
    assert_eq!(profiles.profile_at(hit).name, "B");
}

#[test]
fn resolution_prefers_the_explicit_name() {
    let b = external("B", &["81B1"], "/p/b.json");
    let profiles = Profiles(vec![b]);
    let products = vec!["81B1".to_string()];
    let explicit = profiles.resolve(Some("IDEAPAD_AMD"), &products).unwrap();
    assert_eq!(explicit.name, "IDEAPAD_AMD");
    let detected = profiles.resolve(None, &products).unwrap();
    assert_eq!(detected.name, "B");
    let missing = profiles.resolve(Some("ghost"), &products).unwrap_err();
    assert_eq!(missing.chain, vec!["profile not found"]);
    let unmatched = profiles.resolve(None, &vec!["Z9".to_string()]).unwrap_err();
    assert_eq!(unmatched.chain, vec!["no matching profile"]);
}

#[test]
fn built_in_detection_matches_its_product_names() {
    let profiles = Profiles(Vec::new());
    let products = vec!["81YQ".to_string()];
    assert_eq!(profiles.detect(&products).unwrap(), 1);
    assert!(profiles.detect(&vec!["unknown".to_string()]).is_none());
}

#[test]
fn select_lists_one_or_all() {
    let profiles = Profiles(vec![external("mine", &["X1"], "/p/mine.json")]);
    let all = profiles.select(&None).unwrap();
    assert_eq!(all.len(), 3);
    assert!(matches!(all[0], PossiblyBuiltInProfile::BuiltIn(BuiltInProfile::Ideapad15IIL05)));
    assert!(matches!(all[1], PossiblyBuiltInProfile::BuiltIn(BuiltInProfile::Ideapad15Amd)));
    assert_eq!(all[2].get().name, "mine");
    assert_eq!(all[2].path().unwrap(), "/p/mine.json");
    let one = profiles.select(&Some("mine".to_string())).unwrap();
    assert_eq!(one.len(), 1);
    assert_eq!(one[0].get().name, "mine");
    let missing = profiles.select(&Some("ghost".to_string())).unwrap_err();
    assert_eq!(missing.chain, vec!["profile not found"]);
}

#[test]
fn set_profile_path_distinguishes_the_three_outcomes() {
    let profiles = Profiles(vec![external("mine", &["X1"], "/p/mine.json")]);
    assert_eq!(profiles.set_profile_path("mine", false, "/p").unwrap(), "/p/mine.json");
    let built_in = profiles.set_profile_path("IDEAPAD_AMD", true, "/p").unwrap_err();
    assert_eq!(built_in.chain, vec!["you cannot set the contents of a profile that is built-in"]);
    assert_eq!(profiles.set_profile_path("fresh", true, "/p").unwrap(), "/p/fresh.json");
    let refused = profiles.set_profile_path("fresh", false, "/p").unwrap_err();
    assert_eq!(refused.chain, vec!["profile not found"]);
}

#[test]
fn remove_path_covers_externals_only_and_tips_about_built_ins() {
    let profiles = Profiles(vec![external("mine", &["X1"], "/p/mine.json")]);
    assert_eq!(profiles.remove_path("mine").unwrap(), "/p/mine.json");
    let refused = profiles.remove_path("IDEAPAD_AMD").unwrap_err();
    assert_eq!(refused.chain, vec!["profile not found"]);
    assert_eq!(refused.tip.as_deref(), Some("note that you can't remove built-in profiles"));
}

#[test]
fn built_in_profiles_expose_their_data() {
    let p = BuiltInProfile::Ideapad15IIL05.get();
    assert_eq!(p.name, "IDEAPAD_15IIL05");
    assert_eq!(p.expected_product_names, vec!["81YK".to_string()]);
    let amd = BuiltInProfile::Ideapad15Amd.get();
    assert_eq!(amd.name, "IDEAPAD_AMD");
    assert_eq!(amd.expected_product_names, vec!["81YQ".to_string(), "81YM".to_string()]);
    assert_eq!(p.system_performance.bits.intelligent_cooling.fcmo(), 0);
    assert_eq!(p.system_performance.bits.battery_saving.spmo(), 2);
}
