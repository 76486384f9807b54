//! Hardware-command profiles: a named bundle of command templates and the
//! product names it applies to, with name lookup and auto-detection over a
//! fixed search order — built-in profiles first, then external ones.
use crate::errors::Error;
use crate::text::str_eq;
use vstd::prelude::*;

verus! {

/// The command templates for switching the system performance mode.
#[derive(Debug)]
pub struct SystemPerformanceCommands {
    pub set: String,
    pub get_fcmo_bit: String,
    pub get_spmo_bit: String,
}

/// The FCMO and SPMO bit patterns that stand for one performance mode:
/// either one shared value or two distinct ones.
#[derive(Debug, Copy, Clone, PartialEq, Eq, Structural)]
pub enum Bit {
    Same(u8),
    Split { fcmo: u8, spmo: u8 },
}

impl Bit {
    /// The FCMO side of the pattern.
    pub open spec fn spec_fcmo(self) -> u8 {
        match self {
            Bit::Same(bit) => bit,
            Bit::Split { fcmo, .. } => fcmo,
        }
    }

    /// The SPMO side of the pattern.
    pub open spec fn spec_spmo(self) -> u8 {
        match self {
            Bit::Same(bit) => bit,
            Bit::Split { spmo, .. } => spmo,
        }
    }

    /// The FCMO side of the pattern.
    pub fn fcmo(&self) -> (r: u8)
        ensures
            r == self.spec_fcmo(),
    {
        match self {
            Bit::Same(bit) => *bit,
            Bit::Split { fcmo, .. } => *fcmo,
        }
    }

    /// The SPMO side of the pattern.
    pub fn spmo(&self) -> (r: u8)
        ensures
            r == self.spec_spmo(),
    {
        match self {
            Bit::Same(bit) => *bit,
            Bit::Split { spmo, .. } => *spmo,
        }
    }
}

/// The bit patterns that identify each performance mode.
#[derive(Debug, Copy, Clone, PartialEq, Eq, Structural)]
pub struct SystemPerformanceBits {
    pub intelligent_cooling: Bit,
    pub extreme_performance: Bit,
    pub battery_saving: Bit,
}

/// The parameters handed to the set command for each performance mode.
#[derive(Debug, Copy, Clone, PartialEq, Eq, Structural)]
pub struct SystemPerformanceParameters {
    pub intelligent_cooling: u32,
    pub extreme_performance: u32,
    pub battery_saving: u32,
}

/// Everything a profile says about system performance switching.
#[derive(Debug)]
pub struct SystemPerformance {
    pub commands: SystemPerformanceCommands,
    pub bits: SystemPerformanceBits,
    pub parameters: SystemPerformanceParameters,
}

/// The parameters that switch one battery feature on or off.
#[derive(Debug, Copy, Clone, PartialEq, Eq, Structural)]
pub struct FeatureParameters {
    pub enable: u32,
    pub disable: u32,
}

/// One battery feature: how its state is read and the parameters that flip it.
#[derive(Debug)]
pub struct BatteryFeature {
    pub get_command: String,
    pub parameters: FeatureParameters,
}

/// Everything a profile says about the battery features.
#[derive(Debug)]
pub struct BatteryCommands {
    pub set_command: String,
    pub conservation: BatteryFeature,
    pub rapid_charge: BatteryFeature,
}

/// A named bundle of hardware command templates and the product names used
/// to auto-detect it.
#[derive(Debug)]
pub struct Profile {
    pub name: String,
    pub expected_product_names: Vec<String>,
    pub system_performance: SystemPerformance,
    pub battery: BatteryCommands,
}

/// Copy a list of strings, keeping every element equal.
fn clone_strings(values: &Vec<String>) -> (r: Vec<String>)
    ensures
        r@ =~= values@,
{
    let mut r: Vec<String> = Vec::new();
    let mut i: usize = 0;
    while i < values.len()
        invariant
            0 <= i <= values.len(),
            r@ =~= values@.take(i as int),
        decreases values.len() - i,
    {
        r.push(values[i].clone());
        proof {
            assert(r@ =~= values@.take(i as int + 1));
        }
        i = i + 1;
    }
    proof {
        assert(values@.take(values@.len() as int) =~= values@);
    }
    r
}

impl Profile {
    /// The two profiles hold the same data.
    pub open spec fn like(self, other: Profile) -> bool {
        &&& self.name@ == other.name@
        &&& self.expected_product_names.deep_view() == other.expected_product_names.deep_view()
        &&& self.system_performance.commands.set@ == other.system_performance.commands.set@
        &&& self.system_performance.commands.get_fcmo_bit@
            == other.system_performance.commands.get_fcmo_bit@
        &&& self.system_performance.commands.get_spmo_bit@
            == other.system_performance.commands.get_spmo_bit@
        &&& self.system_performance.bits == other.system_performance.bits
        &&& self.system_performance.parameters == other.system_performance.parameters
        &&& self.battery.set_command@ == other.battery.set_command@
        &&& self.battery.conservation.get_command@ == other.battery.conservation.get_command@
        &&& self.battery.conservation.parameters == other.battery.conservation.parameters
        &&& self.battery.rapid_charge.get_command@ == other.battery.rapid_charge.get_command@
        &&& self.battery.rapid_charge.parameters == other.battery.rapid_charge.parameters
    }
}

impl Clone for Profile {
    /// A copy with the same data.
    fn clone(&self) -> (r: Self)
        ensures
            r.like(*self),
    {
        let r = Profile {
            name: self.name.clone(),
            expected_product_names: clone_strings(&self.expected_product_names),
            system_performance: SystemPerformance {
                commands: SystemPerformanceCommands {
                    set: self.system_performance.commands.set.clone(),
                    get_fcmo_bit: self.system_performance.commands.get_fcmo_bit.clone(),
                    get_spmo_bit: self.system_performance.commands.get_spmo_bit.clone(),
                },
                bits: self.system_performance.bits,
                parameters: self.system_performance.parameters,
            },
            battery: BatteryCommands {
                set_command: self.battery.set_command.clone(),
                conservation: BatteryFeature {
                    get_command: self.battery.conservation.get_command.clone(),
                    parameters: self.battery.conservation.parameters,
                },
                rapid_charge: BatteryFeature {
                    get_command: self.battery.rapid_charge.get_command.clone(),
                    parameters: self.battery.rapid_charge.parameters,
                },
            },
        };
        proof {
            assert(r.expected_product_names.deep_view() =~~= self.expected_product_names.deep_view());
        }
        r
    }
}

/// The two profiles compiled into the program.
#[derive(Debug, Copy, Clone, PartialEq, Eq, Structural)]
pub enum BuiltInProfile {
    Ideapad15IIL05,
    Ideapad15Amd,
}

pub const IDEAPAD_15IIL05_NAME: &'static str = "IDEAPAD_15IIL05";

pub const IDEAPAD_AMD_NAME: &'static str = "IDEAPAD_AMD";

/// The name of each built-in profile.
pub open spec fn built_in_name(which: BuiltInProfile) -> Seq<char> {
    match which {
        BuiltInProfile::Ideapad15IIL05 => IDEAPAD_15IIL05_NAME@,
        BuiltInProfile::Ideapad15Amd => IDEAPAD_AMD_NAME@,
    }
}

/// The expected product names of each built-in profile.
pub open spec fn built_in_products(which: BuiltInProfile) -> Seq<Seq<char>> {
    match which {
        BuiltInProfile::Ideapad15IIL05 => seq!["81YK"@],
        BuiltInProfile::Ideapad15Amd => seq!["81YQ"@, "81YM"@],
    }
}

/// `p` holds exactly the data compiled in for the built-in profile `which`.
/// The two built-in machines share their command set and differ in name and
/// expected product names.
pub open spec fn is_built_in_data(which: BuiltInProfile, p: Profile) -> bool {
    &&& p.name@ == built_in_name(which)
    &&& p.expected_product_names.deep_view() == built_in_products(which)
    &&& p.system_performance.commands.set@ == "\\_SB.PCI0.LPC0.EC0.VPC0.DYTC"@
    &&& p.system_performance.commands.get_fcmo_bit@ == "\\_SB.PCI0.LPC0.EC0.FCMO"@
    &&& p.system_performance.commands.get_spmo_bit@ == "\\_SB.PCI0.LPC0.EC0.SPMO"@
    &&& p.system_performance.bits == (SystemPerformanceBits {
        intelligent_cooling: Bit::Same(0),
        extreme_performance: Bit::Same(1),
        battery_saving: Bit::Same(2),
    })
    &&& p.system_performance.parameters == (SystemPerformanceParameters {
        intelligent_cooling: 0x000F_B001,
        extreme_performance: 0x0012_B001,
        battery_saving: 0x0013_B001,
    })
    &&& p.battery.set_command@ == "\\_SB.PCI0.LPC0.EC0.VPC0.SBMC"@
    &&& p.battery.conservation.get_command@ == "\\_SB.PCI0.LPC0.EC0.BTSM"@
    &&& p.battery.conservation.parameters == (FeatureParameters { enable: 3, disable: 5 })
    &&& p.battery.rapid_charge.get_command@ == "\\_SB.PCI0.LPC0.EC0.QCHO"@
    &&& p.battery.rapid_charge.parameters == (FeatureParameters { enable: 7, disable: 8 })
}

impl BuiltInProfile {
    /// The profile data compiled in for this entry.
    pub fn get(&self) -> (r: Profile)
        ensures
            is_built_in_data(*self, r),
    {
        match self {
            BuiltInProfile::Ideapad15IIL05 => {
                let mut expected: Vec<String> = Vec::new();
                expected.push(String::from_str("81YK"));
                proof {
                    assert(expected.deep_view() =~= built_in_products(*self));
                }
                Profile {
                    name: String::from_str(IDEAPAD_15IIL05_NAME),
                    expected_product_names: expected,
                    system_performance: SystemPerformance {
                        commands: SystemPerformanceCommands {
                            set: String::from_str("\\_SB.PCI0.LPC0.EC0.VPC0.DYTC"),
                            get_fcmo_bit: String::from_str("\\_SB.PCI0.LPC0.EC0.FCMO"),
                            get_spmo_bit: String::from_str("\\_SB.PCI0.LPC0.EC0.SPMO"),
                        },
                        bits: SystemPerformanceBits {
                            intelligent_cooling: Bit::Same(0),
                            extreme_performance: Bit::Same(1),
                            battery_saving: Bit::Same(2),
                        },
                        parameters: SystemPerformanceParameters {
                            intelligent_cooling: 0x000F_B001,
                            extreme_performance: 0x0012_B001,
                            battery_saving: 0x0013_B001,
                        },
                    },
                    battery: BatteryCommands {
                        set_command: String::from_str("\\_SB.PCI0.LPC0.EC0.VPC0.SBMC"),
                        conservation: BatteryFeature {
                            get_command: String::from_str("\\_SB.PCI0.LPC0.EC0.BTSM"),
                            parameters: FeatureParameters { enable: 3, disable: 5 },
                        },
                        rapid_charge: BatteryFeature {
                            get_command: String::from_str("\\_SB.PCI0.LPC0.EC0.QCHO"),
                            parameters: FeatureParameters { enable: 7, disable: 8 },
                        },
                    },
                }
            },
            BuiltInProfile::Ideapad15Amd => {
                let mut expected: Vec<String> = Vec::new();
                expected.push(String::from_str("81YQ"));
                expected.push(String::from_str("81YM"));
                proof {
                    assert(expected.deep_view() =~= built_in_products(*self));
                }
                Profile {
                    name: String::from_str(IDEAPAD_AMD_NAME),
                    expected_product_names: expected,
                    system_performance: SystemPerformance {
                        commands: SystemPerformanceCommands {
                            set: String::from_str("\\_SB.PCI0.LPC0.EC0.VPC0.DYTC"),
                            get_fcmo_bit: String::from_str("\\_SB.PCI0.LPC0.EC0.FCMO"),
                            get_spmo_bit: String::from_str("\\_SB.PCI0.LPC0.EC0.SPMO"),
                        },
                        bits: SystemPerformanceBits {
                            intelligent_cooling: Bit::Same(0),
                            extreme_performance: Bit::Same(1),
                            battery_saving: Bit::Same(2),
                        },
                        parameters: SystemPerformanceParameters {
                            intelligent_cooling: 0x000F_B001,
                            extreme_performance: 0x0012_B001,
                            battery_saving: 0x0013_B001,
                        },
                    },
                    battery: BatteryCommands {
                        set_command: String::from_str("\\_SB.PCI0.LPC0.EC0.VPC0.SBMC"),
                        conservation: BatteryFeature {
                            get_command: String::from_str("\\_SB.PCI0.LPC0.EC0.BTSM"),
                            parameters: FeatureParameters { enable: 3, disable: 5 },
                        },
                        rapid_charge: BatteryFeature {
                            get_command: String::from_str("\\_SB.PCI0.LPC0.EC0.QCHO"),
                            parameters: FeatureParameters { enable: 7, disable: 8 },
                        },
                    },
                }
            },
        }
    }
}

/// A profile loaded from a file: the data and where it came from.
#[derive(Debug)]
pub struct ExternalProfile {
    pub profile: Profile,
    pub path: String,
}

impl ExternalProfile {
    /// The two entries hold the same data and came from the same path.
    pub open spec fn like(self, other: ExternalProfile) -> bool {
        self.profile.like(other.profile) && self.path@ == other.path@
    }
}

impl Clone for ExternalProfile {
    /// A copy with the same data.
    fn clone(&self) -> (r: Self)
        ensures
            r.like(*self),
    {
        ExternalProfile { profile: self.profile.clone(), path: self.path.clone() }
    }
}

/// A profile of either provenance: compiled in, or loaded from a file.
#[derive(Debug)]
pub enum PossiblyBuiltInProfile {
    BuiltIn(BuiltInProfile),
    External(Box<ExternalProfile>),
}

impl PossiblyBuiltInProfile {
    /// Wrap an external profile.
    pub fn external(profile: ExternalProfile) -> (r: Self)
        ensures
            r matches PossiblyBuiltInProfile::External(e) && *e == profile,
    {
        PossiblyBuiltInProfile::External(Box::new(profile))
    }

    /// The profile data, whatever its provenance.
    pub fn get(&self) -> (r: Profile)
        ensures
            match self {
                PossiblyBuiltInProfile::BuiltIn(which) => is_built_in_data(*which, r),
                PossiblyBuiltInProfile::External(external) => r.like(external.profile),
            },
    {
        match self {
            PossiblyBuiltInProfile::BuiltIn(which) => which.get(),
            PossiblyBuiltInProfile::External(external) => external.profile.clone(),
        }
    }

    /// Where the profile was loaded from: nothing for a built-in profile.
    pub fn path(&self) -> (r: Option<&String>)
        ensures
            match self {
                PossiblyBuiltInProfile::BuiltIn(_) => r is None,
                PossiblyBuiltInProfile::External(external) => r matches Some(path) && path@
                    == external.path@,
            },
    {
        match self {
            PossiblyBuiltInProfile::BuiltIn(_) => None,
            PossiblyBuiltInProfile::External(external) => Some(&external.path),
        }
    }
}


/// The loaded external profiles, searched after the built-in ones.
#[derive(Debug)]
pub struct Profiles(pub Vec<ExternalProfile>);

pub const PROFILE_NOT_FOUND: &'static str = "profile not found";

pub const NO_MATCHING_PROFILE: &'static str = "no matching profile";

pub const BUILT_IN_IMMUTABLE: &'static str =
    "you cannot set the contents of a profile that is built-in";

impl Profiles {
    /// How many profiles the search order holds: the built-ins, then the
    /// external ones.
    pub open spec fn search_len(self) -> int {
        2 + self.0@.len() as int
    }

    /// The profile name at a position of the search order.
    pub open spec fn name_at(self, i: int) -> Seq<char> {
        if i == 0 {
            built_in_name(BuiltInProfile::Ideapad15IIL05)
        } else if i == 1 {
            built_in_name(BuiltInProfile::Ideapad15Amd)
        } else {
            self.0@[i - 2].profile.name@
        }
    }

    /// The expected product names at a position of the search order.
    pub open spec fn products_at(self, i: int) -> Seq<Seq<char>> {
        if i == 0 {
            built_in_products(BuiltInProfile::Ideapad15IIL05)
        } else if i == 1 {
            built_in_products(BuiltInProfile::Ideapad15Amd)
        } else {
            self.0@[i - 2].profile.expected_product_names.deep_view()
        }
    }

    /// `p` is the profile at position `i` of the search order.
    pub open spec fn profile_at_is(self, i: int, p: Profile) -> bool {
        if i == 0 {
            is_built_in_data(BuiltInProfile::Ideapad15IIL05, p)
        } else if i == 1 {
            is_built_in_data(BuiltInProfile::Ideapad15Amd, p)
        } else {
            p.like(self.0@[i - 2].profile)
        }
    }

    /// `e` is the search-order entry at position `i`, provenance included.
    pub open spec fn entry_at_is(self, i: int, e: PossiblyBuiltInProfile) -> bool {
        if i == 0 {
            e == PossiblyBuiltInProfile::BuiltIn(BuiltInProfile::Ideapad15IIL05)
        } else if i == 1 {
            e == PossiblyBuiltInProfile::BuiltIn(BuiltInProfile::Ideapad15Amd)
        } else {
            e matches PossiblyBuiltInProfile::External(external) && external.like(
                self.0@[i - 2],
            )
        }
    }

    /// The name at `i` matches and no earlier position does.
    pub open spec fn first_named(self, name: Seq<char>, i: int) -> bool {
        &&& 0 <= i < self.search_len()
        &&& self.name_at(i) == name
        &&& forall|j: int| 0 <= j < i ==> self.name_at(j) != name
    }

    /// Some expected product name at position `i` is among the host's
    /// product identifiers.
    pub open spec fn detect_match_at(self, i: int, products: Seq<Seq<char>>) -> bool {
        exists|k: int|
            0 <= k < self.products_at(i).len() && products.contains(
                #[trigger] self.products_at(i)[k],
            )
    }

    /// Every profile in search order, provenance kept.
    pub fn with_built_ins(&self) -> (r: Vec<PossiblyBuiltInProfile>)
        ensures
            r@.len() == self.search_len(),
            forall|i: int| 0 <= i < r@.len() ==> self.entry_at_is(i, #[trigger] r@[i]),
    {
        let mut r: Vec<PossiblyBuiltInProfile> = Vec::new();
        r.push(PossiblyBuiltInProfile::BuiltIn(BuiltInProfile::Ideapad15IIL05));
        r.push(PossiblyBuiltInProfile::BuiltIn(BuiltInProfile::Ideapad15Amd));
        let mut i: usize = 0;
        while i < self.0.len()
            invariant
                0 <= i <= self.0@.len(),
                r@.len() == 2 + i,
                forall|j: int| 0 <= j < r@.len() ==> self.entry_at_is(j, #[trigger] r@[j]),
            decreases self.0.len() - i,
        {
            r.push(PossiblyBuiltInProfile::external(self.0[i].clone()));
            i = i + 1;
        }
        r
    }

    /// The search-order entry at a position.
    pub fn entry_at(&self, i: usize) -> (r: PossiblyBuiltInProfile)
        requires
            i < self.search_len(),
        ensures
            self.entry_at_is(i as int, r),
    {
        if i == 0 {
            PossiblyBuiltInProfile::BuiltIn(BuiltInProfile::Ideapad15IIL05)
        } else if i == 1 {
            PossiblyBuiltInProfile::BuiltIn(BuiltInProfile::Ideapad15Amd)
        } else {
            PossiblyBuiltInProfile::external(self.0[i - 2].clone())
        }
    }

    /// The profile data at a position of the search order.
    pub fn profile_at(&self, i: usize) -> (r: Profile)
        requires
            i < self.search_len(),
        ensures
            self.profile_at_is(i as int, r),
    {
        if i == 0 {
            BuiltInProfile::Ideapad15IIL05.get()
        } else if i == 1 {
            BuiltInProfile::Ideapad15Amd.get()
        } else {
            self.0[i - 2].profile.clone()
        }
    }

    /// The position of the first profile with this exact name, if any.
    pub fn find_index(&self, name: &str) -> (r: Option<usize>)
        requires
            self.search_len() <= usize::MAX,
        ensures
            match r {
                Some(i) => self.first_named(name@, i as int),
                None => forall|i: int| 0 <= i < self.search_len() ==> self.name_at(i) != name@,
            },
    {
        if str_eq(name, IDEAPAD_15IIL05_NAME) {
            return Some(0);
        }
        if str_eq(name, IDEAPAD_AMD_NAME) {
            return Some(1);
        }
        let mut i: usize = 0;
        while i < self.0.len()
            invariant
                0 <= i <= self.0@.len(),
                self.search_len() <= usize::MAX,
                name@ != built_in_name(BuiltInProfile::Ideapad15IIL05),
                name@ != built_in_name(BuiltInProfile::Ideapad15Amd),
                forall|j: int| 0 <= j < i ==> self.0@[j].profile.name@ != name@,
            decreases self.0.len() - i,
        {
            if str_eq(name, self.0[i].profile.name.as_str()) {
                assert(self.name_at(i as int + 2) == name@);
                assert forall|j: int| 0 <= j < i as int + 2 implies self.name_at(j) != name@ by {
                    if j >= 2 {
                        assert(self.0@[j - 2].profile.name@ != name@);
                    }
                }
                return Some(i + 2);
            }
            i = i + 1;
        }
        assert forall|i2: int| 0 <= i2 < self.search_len() implies self.name_at(i2) != name@ by {
            if i2 >= 2 {
                assert(self.0@[i2 - 2].profile.name@ != name@);
            }
        }
        None
    }

    /// The first profile with this exact name, scanning built-in profiles
    /// first and external ones after, if any carries it.
    pub fn find(&self, name: &str) -> (r: Option<Profile>)
        requires
            self.search_len() <= usize::MAX,
        ensures
            match r {
                Some(p) => exists|i: int|
                    #[trigger] self.first_named(name@, i) && self.profile_at_is(i, p),
                None => forall|i: int| 0 <= i < self.search_len() ==> self.name_at(i) != name@,
            },
    {
        match self.find_index(name) {
            Some(i) => Some(self.profile_at(i)),
            None => None,
        }
    }
}

/// Whether `needle` occurs in `haystack`.
fn contains_string(haystack: &Vec<String>, needle: &str) -> (r: bool)
    ensures
        r == haystack.deep_view().contains(needle@),
{
    let mut i: usize = 0;
    while i < haystack.len()
        invariant
            0 <= i <= haystack@.len(),
            forall|j: int| 0 <= j < i ==> haystack.deep_view()[j] != needle@,
        decreases haystack.len() - i,
    {
        if str_eq(haystack[i].as_str(), needle) {
            assert(haystack.deep_view()[i as int] == needle@);
            assert(haystack.deep_view().contains(needle@));
            return true;
        }
        i = i + 1;
    }
    proof {
        if haystack.deep_view().contains(needle@) {
            let w = choose|w: int|
                0 <= w < haystack.deep_view().len() && haystack.deep_view()[w] == needle@;
            assert(haystack.deep_view()[w] != needle@);
        }
    }
    false
}

/// Whether some expected product name is among the host's identifiers.
fn any_product_matches(expected: &Vec<String>, products: &Vec<String>) -> (r: bool)
    ensures
        r == exists|k: int|
            0 <= k < expected.deep_view().len() && products.deep_view().contains(
                #[trigger] expected.deep_view()[k],
            ),
{
    let mut k: usize = 0;
    while k < expected.len()
        invariant
            0 <= k <= expected@.len(),
            forall|j: int|
                0 <= j < k ==> !products.deep_view().contains(#[trigger] expected.deep_view()[j]),
        decreases expected.len() - k,
    {
        if contains_string(products, expected[k].as_str()) {
            assert(products.deep_view().contains(expected.deep_view()[k as int]));
            return true;
        }
        k = k + 1;
    }
    proof {
        if exists|k2: int|
            0 <= k2 < expected.deep_view().len() && products.deep_view().contains(
                #[trigger] expected.deep_view()[k2],
            ) {
            let w = choose|w: int|
                0 <= w < expected.deep_view().len() && products.deep_view().contains(
                    #[trigger] expected.deep_view()[w],
                );
            assert(!products.deep_view().contains(expected.deep_view()[w]));
        }
    }
    false
}

impl Profiles {
    /// Auto-detection: the position of the first profile, in search order,
    /// whose expected product names include one of the host's product
    /// identifiers. Later positions are not considered once one matches.
    pub fn detect(&self, products: &Vec<String>) -> (r: Option<usize>)
        requires
            self.search_len() <= usize::MAX,
        ensures
            match r {
                Some(i) => 0 <= i < self.search_len() && self.detect_match_at(
                    i as int,
                    products.deep_view(),
                ) && forall|j: int|
                    0 <= j < i ==> !self.detect_match_at(j, products.deep_view()),
                None => forall|j: int|
                    0 <= j < self.search_len() ==> !self.detect_match_at(j, products.deep_view()),
            },
    {
        let mut i: usize = 0;
        while i < self.0.len() + 2
            invariant
                0 <= i <= self.search_len(),
                self.search_len() <= usize::MAX,
                forall|j: int| 0 <= j < i ==> !self.detect_match_at(j, products.deep_view()),
            decreases self.0.len() + 2 - i,
        {
            let profile = self.profile_at(i);
            if any_product_matches(&profile.expected_product_names, products) {
                proof {
                    let k = choose|k: int|
                        0 <= k < profile.expected_product_names.deep_view().len()
                            && products.deep_view().contains(
                            #[trigger] profile.expected_product_names.deep_view()[k],
                        );
                    assert(self.products_at(i as int)[k]
                        == profile.expected_product_names.deep_view()[k]);
                    assert(self.detect_match_at(i as int, products.deep_view()));
                }
                return Some(i);
            }
            proof {
                if self.detect_match_at(i as int, products.deep_view()) {
                    let k = choose|k: int|
                        0 <= k < self.products_at(i as int).len() && products.deep_view().contains(
                            #[trigger] self.products_at(i as int)[k],
                        );
                    assert(profile.expected_product_names.deep_view()[k]
                        == self.products_at(i as int)[k]);
                }
            }
            i = i + 1;
        }
        None
    }

    /// Pick the active profile. An explicit name is looked up over the
    /// search order; without one, auto-detection against the host's product
    /// identifiers decides. Each failure names its cause.
    pub fn resolve(&self, explicit_name: Option<&str>, products: &Vec<String>) -> (r: Result<
        Profile,
        Error,
    >)
        requires
            self.search_len() <= usize::MAX,
        ensures
            match explicit_name {
                Some(name) => match r {
                    Ok(p) => exists|i: int|
                        #[trigger] self.first_named(name@, i) && self.profile_at_is(i, p),
                    Err(failure) => (forall|i: int|
                        0 <= i < self.search_len() ==> self.name_at(i) != name@)
                        && failure.chain.deep_view() =~= seq![PROFILE_NOT_FOUND@] && failure.tip
                        is None,
                },
                None => match r {
                    Ok(p) => exists|i: int|
                        {
                            &&& 0 <= i < self.search_len()
                            &&& #[trigger] self.detect_match_at(i, products.deep_view())
                            &&& forall|j: int|
                                0 <= j < i ==> !self.detect_match_at(j, products.deep_view())
                            &&& self.profile_at_is(i, p)
                        },
                    Err(failure) => (forall|j: int|
                        0 <= j < self.search_len() ==> !self.detect_match_at(
                            j,
                            products.deep_view(),
                        )) && failure.chain.deep_view() =~= seq![NO_MATCHING_PROFILE@]
                        && failure.tip is None,
                },
            },
    {
        match explicit_name {
            Some(name) => match self.find(name) {
                Some(p) => Ok(p),
                None => Err(Error::new(String::from_str(PROFILE_NOT_FOUND))),
            },
            None => match self.detect(products) {
                Some(i) => Ok(self.profile_at(i)),
                None => Err(Error::new(String::from_str(NO_MATCHING_PROFILE))),
            },
        }
    }

    /// The profiles a listing shows: the named one alone, or all of them.
    pub fn select(&self, name: &Option<String>) -> (r: Result<Vec<PossiblyBuiltInProfile>, Error>)
        requires
            self.search_len() <= usize::MAX,
        ensures
            match name {
                Some(wanted) => match r {
                    Ok(list) => list@.len() == 1 && exists|i: int|
                        #[trigger] self.first_named(wanted@, i) && self.entry_at_is(i, list@[0]),
                    Err(failure) => (forall|i: int|
                        0 <= i < self.search_len() ==> self.name_at(i) != wanted@)
                        && failure.chain.deep_view() =~= seq![PROFILE_NOT_FOUND@] && failure.tip
                        is None,
                },
                None => match r {
                    Ok(list) => list@.len() == self.search_len() && forall|i: int|
                        0 <= i < list@.len() ==> self.entry_at_is(i, #[trigger] list@[i]),
                    Err(_) => false,
                },
            },
    {
        match name {
            Some(wanted) => match self.find_index(wanted.as_str()) {
                Some(i) => {
                    let mut list: Vec<PossiblyBuiltInProfile> = Vec::new();
                    list.push(self.entry_at(i));
                    Ok(list)
                },
                None => Err(Error::new(String::from_str(PROFILE_NOT_FOUND))),
            },
            None => Ok(self.with_built_ins()),
        }
    }

    /// Where new contents for the named profile belong: the path of the
    /// external profile that carries the name; a fresh file under the profile
    /// directory when the name is new and creating is allowed. A built-in
    /// profile has no file, and an unknown name without `create_new` is
    /// refused.
    pub fn set_profile_path(&self, name: &str, create_new: bool, profiles_dir: &str) -> (r: Result<
        String,
        Error,
    >)
        requires
            self.search_len() <= usize::MAX,
        ensures
            match r {
                Ok(path) => (exists|i: int|
                    #[trigger] self.first_named(name@, i) && i >= 2 && path@ == self.0@[i
                        - 2].path@) || ((forall|i: int|
                    0 <= i < self.search_len() ==> self.name_at(i) != name@) && create_new && path@
                    == profiles_dir@ + "/"@ + name@ + ".json"@),
                Err(failure) => {
                    &&& failure.tip is None
                    &&& ((exists|i: int|
                        #[trigger] self.first_named(name@, i) && i < 2
                            && failure.chain.deep_view() =~= seq![BUILT_IN_IMMUTABLE@]) || ((
                    forall|i: int| 0 <= i < self.search_len() ==> self.name_at(i) != name@)
                        && !create_new && failure.chain.deep_view() =~= seq![PROFILE_NOT_FOUND@]))
                },
            },
    {
        match self.find_index(name) {
            Some(i) => {
                if i < 2 {
                    Err(Error::new(String::from_str(BUILT_IN_IMMUTABLE)))
                } else {
                    Ok(self.0[i - 2].path.clone())
                }
            },
            None => {
                if create_new {
                    let mut path = String::from_str(profiles_dir);
                    path.append("/");
                    path.append(name);
                    path.append(".json");
                    Ok(path)
                } else {
                    Err(Error::new(String::from_str(PROFILE_NOT_FOUND)))
                }
            },
        }
    }
}


pub const CANNOT_REMOVE_BUILT_IN_TIP: &'static str =
    "note that you can't remove built-in profiles";

impl Profiles {
    /// The file behind the named external profile, for removal. Built-in
    /// profiles have no file: a name that no external profile carries is
    /// refused, with a reminder that built-ins cannot be removed.
    pub fn remove_path(&self, name: &str) -> (r: Result<String, Error>)
        ensures
            match r {
                Ok(path) => exists|k: int|
                    {
                        &&& 0 <= k < self.0@.len()
                        &&& (#[trigger] self.0@[k].profile.name@) == name@
                        &&& forall|j: int| 0 <= j < k ==> self.0@[j].profile.name@ != name@
                        &&& path@ == self.0@[k].path@
                    },
                Err(failure) => {
                    &&& forall|k: int| 0 <= k < self.0@.len() ==> self.0@[k].profile.name@ != name@
                    &&& failure.chain.deep_view() =~= seq![PROFILE_NOT_FOUND@]
                    &&& failure.tip matches Some(tip) && tip@ == CANNOT_REMOVE_BUILT_IN_TIP@
                },
            },
    {
        let mut k: usize = 0;
        while k < self.0.len()
            invariant
                0 <= k <= self.0@.len(),
                forall|j: int| 0 <= j < k ==> self.0@[j].profile.name@ != name@,
            decreases self.0.len() - k,
        {
            if str_eq(self.0[k].profile.name.as_str(), name) {
                return Ok(self.0[k].path.clone());
            }
            k = k + 1;
        }
        Err(
            Error::new(String::from_str(PROFILE_NOT_FOUND)).maybe_tip(
                Some(String::from_str(CANNOT_REMOVE_BUILT_IN_TIP)),
            ),
        )
    }
}

} // verus!
