//! The battery regulation loop's decisions. The loop itself performs I/O:
//! it polls a battery, toggles conservation through the conflict plan,
//! and waits on a race between a timer and the termination signal. Every
//! decision along the way is taken here, as a function from state and event
//! to the next state and the toggle owed to the hardware.
use crate::battery_level::BatteryLevel;
use vstd::prelude::*;

verus! {

/// A toggle of conservation mode that the loop owes the hardware.
#[derive(Debug, Copy, Clone, PartialEq, Eq, Structural)]
pub enum ConservationToggle {
    Enable,
    Disable,
}

/// The toggle a polled charge earns against a threshold: enable exactly
/// when the charge has reached it.
pub open spec fn toggle_for(charge_percent: u8, threshold: u8) -> ConservationToggle {
    if charge_percent >= threshold {
        ConservationToggle::Enable
    } else {
        ConservationToggle::Disable
    }
}

/// The regulation loop's state: polling until a termination signal arrives,
/// and terminated for good once one has.
#[derive(Debug, Copy, Clone, PartialEq, Eq, Structural)]
pub struct Daemon {
    pub threshold: BatteryLevel,
    pub terminated: bool,
}

impl Daemon {
    /// A loop about to run its first cycle.
    pub fn new(threshold: BatteryLevel) -> (r: Daemon)
        ensures
            r.threshold == threshold,
            !r.terminated,
    {
        Daemon { threshold, terminated: false }
    }

    /// One polling cycle: the charge read from the battery, already rounded
    /// to a whole percentage, decides the toggle. At the threshold and above
    /// conservation is enabled; below it, disabled. The loop keeps running.
    pub fn poll(&mut self, charge_percent: u8) -> (r: ConservationToggle)
        requires
            !old(self).terminated,
        ensures
            *final(self) == *old(self),
            r == toggle_for(charge_percent, old(self).threshold@),
            r is Enable <==> charge_percent >= old(self).threshold@,
    {
        if charge_percent >= self.threshold.inner() {
            ConservationToggle::Enable
        } else {
            ConservationToggle::Disable
        }
    }

    /// The termination signal, whenever it arrives: the loop moves to its
    /// sole terminal state and owes the hardware exactly one final enable —
    /// always enable, whatever the last comparison said, favouring battery
    /// health on exit. Once terminated, no further cycle or signal is taken,
    /// so the final enable happens once.
    pub fn signal(&mut self) -> (r: ConservationToggle)
        requires
            !old(self).terminated,
        ensures
            final(self).terminated,
            final(self).threshold == old(self).threshold,
            r is Enable,
    {
        self.terminated = true;
        ConservationToggle::Enable
    }
}

/// The toggles a run of cycles earns, in order, while no signal arrives.
pub open spec fn regulation_toggles(charges: Seq<u8>, threshold: u8) -> Seq<ConservationToggle> {
    charges.map_values(|charge: u8| toggle_for(charge, threshold))
}

/// Exactly one toggle is owed per polled charge, and each is enable
/// precisely when that cycle's charge reached the threshold — whatever came
/// before or after it in the run.
pub proof fn lemma_regulation_toggles(charges: Seq<u8>, threshold: u8)
    ensures
        regulation_toggles(charges, threshold).len() == charges.len(),
        forall|i: int|
            0 <= i < charges.len() ==> (regulation_toggles(charges, threshold)[i]
                is Enable <==> charges[i] >= threshold),
{
    assert forall|i: int| 0 <= i < charges.len() implies (regulation_toggles(charges, threshold)[i]
        is Enable <==> charges[i] >= threshold) by {
        assert(regulation_toggles(charges, threshold)[i] == toggle_for(charges[i], threshold));
    }
}

/// A charge ratio in hundredths of a percent, rounded half away from zero
/// to a whole percentage.
pub open spec fn rounded_percent(hundredths: nat) -> nat {
    (hundredths + 50) / 100
}

/// Round a charge given in hundredths of a percent to a whole percentage,
/// half away from zero. The battery source reports a ratio of zero to one;
/// the caller scales it by ten thousand before handing it over.
pub fn percent_from_hundredths(hundredths: u32) -> (r: u8)
    requires
        hundredths <= 10_000,
    ensures
        r == rounded_percent(hundredths as nat),
        r <= 100,
{
    ((hundredths + 50) / 100) as u8
}

} // verus!
