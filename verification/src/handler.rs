//! Conflict handling between the two mutually exclusive battery features:
//! the policy chosen per feature, and the plan of toggle calls it yields.
use crate::text::str_eq;
use vstd::prelude::*;

verus! {

/// What to do when enabling one feature while the conflicting one is active:
/// switch the other off first, ignore the conflict, or refuse.
#[derive(Debug, Copy, Clone, PartialEq, Eq, Structural)]
pub enum Handler {
    Switch,
    Ignore,
    Error,
}

/// What `Handler::from_str` accepts: each policy by name or initial.
pub open spec fn handler_parsed(s: Seq<char>) -> Option<Handler> {
    if s == "switch"@ || s == "s"@ {
        Some(Handler::Switch)
    } else if s == "ignore"@ || s == "i"@ {
        Some(Handler::Ignore)
    } else if s == "error"@ || s == "e"@ {
        Some(Handler::Error)
    } else {
        None
    }
}

impl Handler {
    /// Read a policy from its textual form, full word or initial.
    pub fn from_str(s: &str) -> (r: Option<Handler>)
        ensures
            r == handler_parsed(s@),
    {
        if str_eq(s, "switch") || str_eq(s, "s") {
            Some(Handler::Switch)
        } else if str_eq(s, "ignore") || str_eq(s, "i") {
            Some(Handler::Ignore)
        } else if str_eq(s, "error") || str_eq(s, "e") {
            Some(Handler::Error)
        } else {
            None
        }
    }

    /// The policy's name.
    pub fn name(&self) -> (r: &'static str)
        ensures
            self is Switch ==> r@ == "switch"@,
            self is Ignore ==> r@ == "ignore"@,
            self is Error ==> r@ == "error"@,
    {
        match self {
            Handler::Switch => "switch",
            Handler::Ignore => "ignore",
            Handler::Error => "error",
        }
    }
}

/// The per-feature policy choices, each optional: an unset feature falls back
/// to the global default, and the global default falls back to `Switch`.
#[derive(Debug, Copy, Clone, PartialEq, Eq, Structural)]
pub struct Handlers {
    pub default: Option<Handler>,
    pub battery_conservation: Option<Handler>,
    pub rapid_charging: Option<Handler>,
}

/// An unset choice resolved against a fallback.
pub open spec fn resolved_handler(chosen: Option<Handler>, fallback: Handler) -> Handler {
    match chosen {
        Some(handler) => handler,
        None => fallback,
    }
}

impl Handlers {
    /// The global default policy: the configured one, else `Switch`.
    pub fn default(&self) -> (r: Handler)
        ensures
            r == resolved_handler(self.default, Handler::Switch),
    {
        match self.default {
            Some(handler) => handler,
            None => Handler::Switch,
        }
    }

    /// The policy for battery conservation: its own choice, else the default.
    pub fn battery_conservation(&self) -> (r: Handler)
        ensures
            r == resolved_handler(
                self.battery_conservation,
                resolved_handler(self.default, Handler::Switch),
            ),
    {
        match self.battery_conservation {
            Some(handler) => handler,
            None => self.default(),
        }
    }

    /// The policy for rapid charging: its own choice, else the default.
    pub fn rapid_charging(&self) -> (r: Handler)
        ensures
            r == resolved_handler(
                self.rapid_charging,
                resolved_handler(self.default, Handler::Switch),
            ),
    {
        match self.rapid_charging {
            Some(handler) => handler,
            None => self.default(),
        }
    }
}

impl Handlers {
    /// No policy chosen anywhere.
    pub fn unset() -> (r: Self)
        ensures
            r == (Handlers { default: None, battery_conservation: None, rapid_charging: None }),
    {
        Handlers { default: None, battery_conservation: None, rapid_charging: None }
    }
}

/// The two mutually exclusive battery features.
#[derive(Debug, Copy, Clone, PartialEq, Eq, Structural)]
pub enum FeatureKind {
    Conservation,
    RapidCharge,
}

impl FeatureKind {
    /// The feature the other one conflicts with.
    pub open spec fn spec_conflicting(self) -> FeatureKind {
        match self {
            FeatureKind::Conservation => FeatureKind::RapidCharge,
            FeatureKind::RapidCharge => FeatureKind::Conservation,
        }
    }

    /// The feature the other one conflicts with.
    pub fn conflicting(self) -> (r: FeatureKind)
        ensures
            r == self.spec_conflicting(),
    {
        match self {
            FeatureKind::Conservation => FeatureKind::RapidCharge,
            FeatureKind::RapidCharge => FeatureKind::Conservation,
        }
    }
}

/// One hardware toggle that carrying out a plan asks for, in order.
#[derive(Debug, Copy, Clone, PartialEq, Eq, Structural)]
pub enum ToggleCall {
    /// Switch the conflicting feature off.
    DisableConflicting,
    /// Switch the requested feature on.
    EnableRequested,
}

/// The toggle calls to make, in order, and whether to warn about hardware
/// stress before making them.
#[derive(Debug)]
pub struct ConflictPlan {
    pub calls: Vec<ToggleCall>,
    pub warn: bool,
}

/// A refused enable: the conflict error names both features involved.
#[derive(Debug, Copy, Clone, PartialEq, Eq, Structural)]
pub struct ConflictError {
    pub requested: FeatureKind,
    pub conflicting: FeatureKind,
}

/// Decide what enabling `requested` must do, given the policy for it and the
/// live state of the conflicting feature.
///
/// With the conflict inactive the request goes through untouched, whatever
/// the policy. With it active: `Switch` disables the conflicting feature
/// first and the first call must succeed before the second is attempted
/// (the plan lists them in that order); `Ignore` enables anyway and asks for
/// a warning; `Error` refuses and names both features.
pub fn resolve_conflict(requested: FeatureKind, handler: Handler, conflict_enabled: bool) -> (r:
    Result<ConflictPlan, ConflictError>)
    ensures
        !conflict_enabled ==> (r matches Ok(plan) && plan.calls@ =~= seq![
            ToggleCall::EnableRequested,
        ] && !plan.warn),
        conflict_enabled && handler is Switch ==> (r matches Ok(plan) && plan.calls@ =~= seq![
            ToggleCall::DisableConflicting,
            ToggleCall::EnableRequested,
        ] && !plan.warn),
        conflict_enabled && handler is Ignore ==> (r matches Ok(plan) && plan.calls@ =~= seq![
            ToggleCall::EnableRequested,
        ] && plan.warn),
        conflict_enabled && handler is Error ==> (r matches Err(conflict) && conflict.requested
            == requested && conflict.conflicting == requested.spec_conflicting()),
{
    if !conflict_enabled {
        let mut calls: Vec<ToggleCall> = Vec::new();
        calls.push(ToggleCall::EnableRequested);
        Ok(ConflictPlan { calls, warn: false })
    } else {
        match handler {
            Handler::Switch => {
                let mut calls: Vec<ToggleCall> = Vec::new();
                calls.push(ToggleCall::DisableConflicting);
                calls.push(ToggleCall::EnableRequested);
                Ok(ConflictPlan { calls, warn: false })
            },
            Handler::Ignore => {
                let mut calls: Vec<ToggleCall> = Vec::new();
                calls.push(ToggleCall::EnableRequested);
                Ok(ConflictPlan { calls, warn: true })
            },
            Handler::Error => Err(
                ConflictError { requested, conflicting: requested.conflicting() },
            ),
        }
    }
}

} // verus!
