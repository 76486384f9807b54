//! Battery selection: what the enumeration source reports about each
//! battery, the predicate that picks one, and the two search modes over an
//! enumeration that may fail per battery.
use crate::battery_level::BatteryLevel;
use crate::cooldown::CoolDown;
use crate::digits::{dec_val, is_numeral, parse_u64};
use crate::errors::Error;
use crate::text::{first_occurrence_at, split_once, str_eq};
use vstd::prelude::*;

verus! {

/// What the battery source reports about one battery. Each field may be
/// absent when the hardware does not expose it.
#[derive(Debug)]
pub struct BatteryInfo {
    pub vendor: Option<String>,
    pub model: Option<String>,
    pub serial_number: Option<String>,
}

/// How the battery to regulate is picked: the first one found, one by
/// position, or one by an identifying string.
#[derive(Debug)]
pub enum BatteryMatches {
    First,
    Index(usize),
    Vendor(String),
    Model(String),
    SerialNumber(String),
}

impl Clone for BatteryMatches {
    /// An exact copy.
    fn clone(&self) -> (r: Self)
        ensures
            r == *self,
    {
        match self {
            BatteryMatches::First => BatteryMatches::First,
            BatteryMatches::Index(i) => BatteryMatches::Index(*i),
            BatteryMatches::Vendor(v) => BatteryMatches::Vendor(v.clone()),
            BatteryMatches::Model(m) => BatteryMatches::Model(m.clone()),
            BatteryMatches::SerialNumber(sn) => BatteryMatches::SerialNumber(sn.clone()),
        }
    }
}

impl BatteryMatches {
    /// Whether the battery at `index` is the one this predicate picks.
    pub open spec fn spec_matches(self, index: int, battery: BatteryInfo) -> bool {
        match self {
            BatteryMatches::First => index == 0,
            BatteryMatches::Index(chosen) => chosen == index,
            BatteryMatches::Vendor(vendor) => battery.vendor matches Some(v) && v@ == vendor@,
            BatteryMatches::Model(model) => battery.model matches Some(m) && m@ == model@,
            BatteryMatches::SerialNumber(serial_number) => battery.serial_number matches Some(sn)
                && sn@ == serial_number@,
        }
    }

    /// Whether the battery at `index` is the one this predicate picks.
    pub fn matches(&self, index: usize, battery: &BatteryInfo) -> (r: bool)
        ensures
            r == self.spec_matches(index as int, *battery),
    {
        match self {
            BatteryMatches::First => index == 0,
            BatteryMatches::Index(chosen) => *chosen == index,
            BatteryMatches::Vendor(vendor) => match &battery.vendor {
                Some(v) => str_eq(v.as_str(), vendor.as_str()),
                None => false,
            },
            BatteryMatches::Model(model) => match &battery.model {
                Some(m) => str_eq(m.as_str(), model.as_str()),
                None => false,
            },
            BatteryMatches::SerialNumber(serial_number) => match &battery.serial_number {
                Some(sn) => str_eq(sn.as_str(), serial_number.as_str()),
                None => false,
            },
        }
    }
}

/// One entry of a battery enumeration: the battery, or the message of the
/// failure that took its place.
pub type EnumeratedBattery = Result<BatteryInfo, String>;

/// The entry at `index` is a battery that the predicate picks.
pub open spec fn picked(m: BatteryMatches, batteries: Seq<EnumeratedBattery>, index: int) -> bool {
    &&& 0 <= index < batteries.len()
    &&& batteries[index] matches Ok(battery) && m.spec_matches(index, battery)
}

/// The messages of the failed entries of a prefix, in order.
pub open spec fn error_messages(batteries: Seq<EnumeratedBattery>) -> Seq<Seq<char>>
    decreases batteries.len(),
{
    if batteries.len() == 0 {
        Seq::empty()
    } else {
        match batteries.last() {
            Ok(_) => error_messages(batteries.drop_last()),
            Err(message) => error_messages(batteries.drop_last()).push(message@),
        }
    }
}

pub const LIST_BATTERIES_FAILED: &'static str = "failed to get list of batteries";

pub const GET_BATTERY_FAILED: &'static str = "failed to get battery";

impl BatteryMatches {
    /// Search an enumeration that must be clean: any failed entry fails the
    /// whole search, and otherwise the first battery this predicate picks is
    /// returned, if any.
    pub fn find(&self, batteries: &Vec<EnumeratedBattery>) -> (r: Result<Option<BatteryInfo>, Error>)
        ensures
            match r {
                Ok(found) => {
                    &&& forall|j: int| 0 <= j < batteries@.len() ==> batteries@[j] is Ok
                    &&& match found {
                        Some(battery) => exists|i: int|
                            #[trigger] picked(*self, batteries@, i) && batteries@[i] == Ok::<
                                BatteryInfo,
                                String,
                            >(battery) && forall|j: int|
                                0 <= j < i ==> !picked(*self, batteries@, j),
                        None => forall|j: int| !picked(*self, batteries@, j),
                    }
                },
                Err(failure) => {
                    &&& exists|j: int| 0 <= j < batteries@.len() && batteries@[j] is Err
                    &&& failure.tip is None
                    &&& exists|j: int|
                        {
                            &&& 0 <= j < batteries@.len()
                            &&& #[trigger] batteries@[j] matches Err(message)
                            &&& forall|k: int| 0 <= k < j ==> batteries@[k] is Ok
                            &&& failure.chain.deep_view() =~= seq![
                                LIST_BATTERIES_FAILED@,
                                message@,
                            ]
                        }
                },
            },
    {
        let mut i: usize = 0;
        while i < batteries.len()
            invariant
                0 <= i <= batteries.len(),
                forall|k: int| 0 <= k < i ==> batteries@[k] is Ok,
            decreases batteries.len() - i,
        {
            match &batteries[i] {
                Ok(_) => {},
                Err(message) => {
                    let failure = Error::new(message.clone()).context(
                        String::from_str(LIST_BATTERIES_FAILED),
                    );
                    return Err(failure);
                },
            }
            i = i + 1;
        }
        let mut j: usize = 0;
        while j < batteries.len()
            invariant
                0 <= j <= batteries.len(),
                forall|k: int| 0 <= k < batteries@.len() ==> batteries@[k] is Ok,
                forall|k: int| 0 <= k < j ==> !picked(*self, batteries@, k),
            decreases batteries.len() - j,
        {
            match &batteries[j] {
                Ok(battery) => {
                    if self.matches(j, battery) {
                        assert(picked(*self, batteries@, j as int));
                        return Ok(Some(battery.clone_info()));
                    }
                },
                Err(_) => {},
            }
            assert(!picked(*self, batteries@, j as int));
            j = j + 1;
        }
        assert forall|k: int| !picked(*self, batteries@, k) by {
            if 0 <= k < batteries@.len() {
                assert(!picked(*self, batteries@, k));
            }
        }
        Ok(None)
    }

    /// Search an enumeration while tolerating failed entries: each failure
    /// before the first pick is collected as a warning, and the search goes
    /// on. The index a battery is matched under counts failed entries too.
    pub fn find_infallible(&self, batteries: &Vec<EnumeratedBattery>) -> (r: (
        Option<BatteryInfo>,
        Vec<Error>,
    ))
        ensures
            match r.0 {
                Some(battery) => exists|i: int|
                    {
                        &&& #[trigger] picked(*self, batteries@, i)
                        &&& batteries@[i] == Ok::<BatteryInfo, String>(battery)
                        &&& forall|j: int| 0 <= j < i ==> !picked(*self, batteries@, j)
                        &&& collected_errors_match(r.1, error_messages(batteries@.take(i)))
                    },
                None => {
                    &&& forall|j: int| !picked(*self, batteries@, j)
                    &&& collected_errors_match(r.1, error_messages(batteries@))
                },
            },
    {
        let mut errors: Vec<Error> = Vec::new();
        let mut i: usize = 0;
        while i < batteries.len()
            invariant
                0 <= i <= batteries.len(),
                forall|k: int| 0 <= k < i ==> !picked(*self, batteries@, k),
                collected_errors_match(errors, error_messages(batteries@.take(i as int))),
            decreases batteries.len() - i,
        {
            proof {
                assert(batteries@.take(i as int + 1).drop_last() =~= batteries@.take(i as int));
                assert(batteries@.take(i as int + 1).last() == batteries@[i as int]);
            }
            match &batteries[i] {
                Ok(battery) => {
                    if self.matches(i, battery) {
                        assert(picked(*self, batteries@, i as int));
                        return (Some(battery.clone_info()), errors);
                    }
                },
                Err(message) => {
                    let failure = Error::new(message.clone()).context(
                        String::from_str(GET_BATTERY_FAILED),
                    );
                    errors.push(failure);
                },
            }
            assert(!picked(*self, batteries@, i as int));
            i = i + 1;
        }
        proof {
            assert(batteries@.take(batteries@.len() as int) =~= batteries@);
            assert forall|k: int| !picked(*self, batteries@, k) by {
                if 0 <= k < batteries@.len() {
                    assert(!picked(*self, batteries@, k));
                }
            }
        }
        (None, errors)
    }
}

/// The collected warnings carry exactly the given failure messages, each
/// under the per-battery context and without a tip.
pub open spec fn collected_errors_match(errors: Vec<Error>, messages: Seq<Seq<char>>) -> bool {
    &&& errors@.len() == messages.len()
    &&& forall|k: int|
        0 <= k < messages.len() ==> (#[trigger] errors@[k].chain.deep_view()) =~= seq![
            GET_BATTERY_FAILED@,
            messages[k],
        ] && errors@[k].tip is None
}

impl BatteryInfo {
    /// An exact copy.
    pub fn clone_info(&self) -> (r: BatteryInfo)
        ensures
            r == *self,
    {
        BatteryInfo {
            vendor: match &self.vendor {
                Some(v) => Some(v.clone()),
                None => None,
            },
            model: match &self.model {
                Some(m) => Some(m.clone()),
                None => None,
            },
            serial_number: match &self.serial_number {
                Some(sn) => Some(sn.clone()),
                None => None,
            },
        }
    }
}


pub const MATCHES_DELIMITER_MISSING: &'static str = "delimit the variant and value with '='";

pub const MATCHES_BAD_INDEX: &'static str = "value wasn't a valid integer";

pub const MATCHES_UNKNOWN_VARIANT: &'static str = "unknown variant";

impl BatteryMatches {
    /// Read a predicate from its textual form: a variant name or its
    /// abbreviation, an equals sign, and the value.
    pub fn from_str(s: &str) -> (r: Result<BatteryMatches, Error>)
        ensures
            ({
                let split = spec_split_at_equals(s@);
                match r {
                    Ok(m) => {
                        &&& split matches Some((key, value))
                        &&& match m {
                            BatteryMatches::First => key == "first"@ || key == "f"@,
                            BatteryMatches::Index(index) => (key == "index"@ || key == "i"@)
                                && is_numeral(value) && index as nat == dec_val(value),
                            BatteryMatches::Vendor(vendor) => (key == "vendor"@ || key == "v"@)
                                && vendor@ == value,
                            BatteryMatches::Model(model) => (key == "model"@ || key == "m"@)
                                && model@ == value,
                            BatteryMatches::SerialNumber(serial_number) => (key
                                == "serial_number"@ || key == "sn"@ || key == "s"@)
                                && serial_number@ == value,
                        }
                    },
                    Err(failure) => {
                        &&& failure.tip is None
                        &&& match split {
                            None => failure.chain.deep_view() =~= seq![
                                MATCHES_DELIMITER_MISSING@,
                            ],
                            Some((key, value)) => {
                                if key == "index"@ || key == "i"@ {
                                    (!is_numeral(value) || dec_val(value) > usize::MAX)
                                        && failure.chain.deep_view() =~= seq![MATCHES_BAD_INDEX@]
                                } else {
                                    key != "first"@ && key != "f"@ && key != "vendor"@ && key
                                        != "v"@ && key != "model"@ && key != "m"@ && key
                                        != "serial_number"@ && key != "sn"@ && key != "s"@
                                        && failure.chain.deep_view() =~= seq![
                                        MATCHES_UNKNOWN_VARIANT@,
                                    ]
                                }
                            },
                        }
                    },
                }
            }),
    {
        match split_once(s, '=') {
            Some((key, value)) => {
                proof {
                    let j = choose|j: int|
                        #[trigger] first_occurrence_at(s@, '=', j) && key@ == s@.subrange(0, j)
                            && value@ == s@.subrange(j + 1, s@.len() as int);
                    let i = choose|i: int| first_occurrence_at(s@, '=', i);
                    assert(first_occurrence_at(s@, '=', i));
                    assert(i == j);
                }
                if str_eq(key, "first") || str_eq(key, "f") {
                    Ok(BatteryMatches::First)
                } else if str_eq(key, "index") || str_eq(key, "i") {
                    match parse_u64(value) {
                        Some(v) => {
                            if v <= usize::MAX as u64 {
                                Ok(BatteryMatches::Index(v as usize))
                            } else {
                                Err(Error::new(String::from_str(MATCHES_BAD_INDEX)))
                            }
                        },
                        None => Err(Error::new(String::from_str(MATCHES_BAD_INDEX))),
                    }
                } else if str_eq(key, "vendor") || str_eq(key, "v") {
                    Ok(BatteryMatches::Vendor(String::from_str(value)))
                } else if str_eq(key, "model") || str_eq(key, "m") {
                    Ok(BatteryMatches::Model(String::from_str(value)))
                } else if str_eq(key, "serial_number") || str_eq(key, "sn") || str_eq(key, "s") {
                    Ok(BatteryMatches::SerialNumber(String::from_str(value)))
                } else {
                    Err(Error::new(String::from_str(MATCHES_UNKNOWN_VARIANT)))
                }
            },
            None => {
                proof {
                    if exists|i: int| first_occurrence_at(s@, '=', i) {
                        let i = choose|i: int| first_occurrence_at(s@, '=', i);
                        assert(0 <= i < s@.len() && s@[i] == '=');
                        assert(s@.contains('='));
                    }
                }
                Err(Error::new(String::from_str(MATCHES_DELIMITER_MISSING)))
            },
        }
    }
}

/// The text before and after the first equals sign, if there is one.
pub open spec fn spec_split_at_equals(s: Seq<char>) -> Option<(Seq<char>, Seq<char>)> {
    if exists|i: int| first_occurrence_at(s, '=', i) {
        let i = choose|i: int| first_occurrence_at(s, '=', i);
        Some((s.subrange(0, i), s.subrange(i + 1, s.len() as int)))
    } else {
        None
    }
}


/// The battery-targeting parameters, each optional: which battery to pick,
/// whether enumeration failures are tolerated, and the regulation threshold
/// and pause.
#[derive(Debug)]
pub struct BatteryConfig {
    pub matches: Option<BatteryMatches>,
    pub infallible: bool,
    pub threshold: Option<BatteryLevel>,
    pub cooldown: Option<CoolDown>,
}

impl BatteryConfig {
    /// Nothing chosen.
    pub fn unset() -> (r: Self)
        ensures
            r.matches is None,
            !r.infallible,
            r.threshold is None,
            r.cooldown is None,
    {
        BatteryConfig { matches: None, infallible: false, threshold: None, cooldown: None }
    }

    /// The effective predicate: the configured one, else the first battery.
    pub fn matches(&self) -> (r: BatteryMatches)
        ensures
            match self.matches {
                Some(m) => r == m,
                None => r is First,
            },
    {
        match &self.matches {
            Some(m) => m.clone(),
            None => BatteryMatches::First,
        }
    }

    /// The effective threshold: the configured one, else eighty percent.
    pub fn threshold(&self) -> (r: BatteryLevel)
        ensures
            match self.threshold {
                Some(threshold) => r == threshold,
                None => r@ == 80,
            },
    {
        match self.threshold {
            Some(threshold) => threshold,
            None => BatteryLevel::default(),
        }
    }

    /// The effective pause: the configured one, else one minute.
    pub fn cooldown(&self) -> (r: CoolDown)
        ensures
            match self.cooldown {
                Some(cooldown) => r == cooldown,
                None => r@ == (60u64, 0u32),
            },
    {
        match self.cooldown {
            Some(cooldown) => cooldown,
            None => CoolDown::default(),
        }
    }
}

} // verus!
