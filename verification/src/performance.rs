//! The system performance mode: its textual forms, and the mapping between
//! modes and a profile's bit patterns and set-command parameters.
use crate::profile::{Bit, SystemPerformanceBits, SystemPerformanceParameters};
use crate::text::str_eq;
use vstd::prelude::*;

verus! {

/// The three system performance modes.
#[derive(Debug, Copy, Clone, PartialEq, Eq, Structural)]
pub enum SystemPerformanceMode {
    IntelligentCooling,
    ExtremePerformance,
    BatterySaving,
}

/// What `SystemPerformanceMode::from_str` accepts: each mode by its name or
/// abbreviations.
pub open spec fn performance_mode_parsed(s: Seq<char>) -> Option<SystemPerformanceMode> {
    if s == "intelligent-cooling"@ || s == "ic"@ || s == "i"@ {
        Some(SystemPerformanceMode::IntelligentCooling)
    } else if s == "extreme-performance"@ || s == "ep"@ || s == "e"@ {
        Some(SystemPerformanceMode::ExtremePerformance)
    } else if s == "battery-saving"@ || s == "bs"@ || s == "b"@ {
        Some(SystemPerformanceMode::BatterySaving)
    } else {
        None
    }
}

impl SystemPerformanceMode {
    /// Read a mode from its textual form.
    pub fn from_str(s: &str) -> (r: Option<SystemPerformanceMode>)
        ensures
            r == performance_mode_parsed(s@),
    {
        if str_eq(s, "intelligent-cooling") || str_eq(s, "ic") || str_eq(s, "i") {
            Some(SystemPerformanceMode::IntelligentCooling)
        } else if str_eq(s, "extreme-performance") || str_eq(s, "ep") || str_eq(s, "e") {
            Some(SystemPerformanceMode::ExtremePerformance)
        } else if str_eq(s, "battery-saving") || str_eq(s, "bs") || str_eq(s, "b") {
            Some(SystemPerformanceMode::BatterySaving)
        } else {
            None
        }
    }

    /// The mode's name, written for people.
    pub fn plain_name(&self) -> (r: &'static str)
        ensures
            self is IntelligentCooling ==> r@ == "intelligent cooling"@,
            self is ExtremePerformance ==> r@ == "extreme performance"@,
            self is BatterySaving ==> r@ == "battery saving"@,
    {
        match self {
            SystemPerformanceMode::IntelligentCooling => "intelligent cooling",
            SystemPerformanceMode::ExtremePerformance => "extreme performance",
            SystemPerformanceMode::BatterySaving => "battery saving",
        }
    }

    /// The parameter a profile's set command takes for this mode.
    pub fn parameter(&self, parameters: &SystemPerformanceParameters) -> (r: u32)
        ensures
            self is IntelligentCooling ==> r == parameters.intelligent_cooling,
            self is ExtremePerformance ==> r == parameters.extreme_performance,
            self is BatterySaving ==> r == parameters.battery_saving,
    {
        match self {
            SystemPerformanceMode::IntelligentCooling => parameters.intelligent_cooling,
            SystemPerformanceMode::ExtremePerformance => parameters.extreme_performance,
            SystemPerformanceMode::BatterySaving => parameters.battery_saving,
        }
    }

    /// The bit pattern a profile says identifies this mode.
    pub fn bit(&self, bits: &SystemPerformanceBits) -> (r: Bit)
        ensures
            self is IntelligentCooling ==> r == bits.intelligent_cooling,
            self is ExtremePerformance ==> r == bits.extreme_performance,
            self is BatterySaving ==> r == bits.battery_saving,
    {
        match self {
            SystemPerformanceMode::IntelligentCooling => bits.intelligent_cooling,
            SystemPerformanceMode::ExtremePerformance => bits.extreme_performance,
            SystemPerformanceMode::BatterySaving => bits.battery_saving,
        }
    }
}

/// The read FCMO and SPMO values identify a mode's pattern.
pub open spec fn bit_matches(bit: Bit, fcmo: u8, spmo: u8) -> bool {
    bit.spec_fcmo() == fcmo && bit.spec_spmo() == spmo
}

/// The mode the hardware reports: the first of intelligent cooling, extreme
/// performance and battery saving whose bit pattern equals the values read,
/// if any does.
pub fn mode_from_bits(bits: &SystemPerformanceBits, fcmo: u8, spmo: u8) -> (r: Option<
    SystemPerformanceMode,
>)
    ensures
        match r {
            Some(mode) => {
                &&& mode is IntelligentCooling ==> bit_matches(
                    bits.intelligent_cooling,
                    fcmo,
                    spmo,
                )
                &&& mode is ExtremePerformance ==> bit_matches(bits.extreme_performance, fcmo, spmo)
                    && !bit_matches(bits.intelligent_cooling, fcmo, spmo)
                &&& mode is BatterySaving ==> bit_matches(bits.battery_saving, fcmo, spmo)
                    && !bit_matches(bits.intelligent_cooling, fcmo, spmo) && !bit_matches(
                    bits.extreme_performance,
                    fcmo,
                    spmo,
                )
            },
            None => !bit_matches(bits.intelligent_cooling, fcmo, spmo) && !bit_matches(
                bits.extreme_performance,
                fcmo,
                spmo,
            ) && !bit_matches(bits.battery_saving, fcmo, spmo),
        },
{
    let ic = bits.intelligent_cooling;
    let ep = bits.extreme_performance;
    let bs = bits.battery_saving;
    if ic.fcmo() == fcmo && ic.spmo() == spmo {
        Some(SystemPerformanceMode::IntelligentCooling)
    } else if ep.fcmo() == fcmo && ep.spmo() == spmo {
        Some(SystemPerformanceMode::ExtremePerformance)
    } else if bs.fcmo() == fcmo && bs.spmo() == spmo {
        Some(SystemPerformanceMode::BatterySaving)
    } else {
        None
    }
}

} // verus!
