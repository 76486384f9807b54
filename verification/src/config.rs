//! The layered configuration: process-lifetime overrides over the persisted
//! file over compiled-in defaults, resolved on demand so that a write is
//! visible to every later read; and the consistency ledger that remembers
//! which executable installed the regulator service.
use crate::backtrace::Backtrace;
use crate::battery::BatteryConfig;
use crate::errors::Error;
use crate::handler::Handlers;
use crate::machine::Machine;
use crate::profile::Profiles;
use crate::text::str_eq;
use vstd::prelude::*;

verus! {

/// The layer of values set for this process alone, from the invocation
/// arguments. An unset field defers to the persisted layer.
#[derive(Debug)]
pub struct Overrides {
    pub profile: Option<String>,
    pub handlers: Handlers,
    pub machine: Option<Machine>,
    pub backtrace: Backtrace,
    pub battery: BatteryConfig,
    pub panic: bool,
}

impl Overrides {
    /// Nothing overridden.
    pub fn unset() -> (r: Self)
        ensures
            r.profile is None,
            r.handlers == (Handlers {
                default: None,
                battery_conservation: None,
                rapid_charging: None,
            }),
            r.machine is None,
            !r.backtrace.panics,
            !r.backtrace.errors,
            r.battery.matches is None,
            !r.battery.infallible,
            r.battery.threshold is None,
            r.battery.cooldown is None,
            !r.panic,
    {
        Overrides {
            profile: None,
            handlers: Handlers::unset(),
            machine: None,
            backtrace: Backtrace { panics: false, errors: false },
            battery: BatteryConfig::unset(),
            panic: false,
        }
    }
}

/// The persisted configuration document together with the override layer.
/// Every resolution method merges the two afresh, never caching, so a
/// mutation of either layer is visible to the next call.
#[derive(Debug)]
pub struct TuxVantage {
    pub profile: Option<String>,
    pub machine: Option<Machine>,
    pub panic: bool,
    pub handlers: Handlers,
    pub backtrace: Backtrace,
    pub battery: BatteryConfig,
    pub overrides: Overrides,
}

/// The first layer that holds a value, if either does.
pub open spec fn layered<T>(over: Option<T>, persisted: Option<T>) -> Option<T> {
    match over {
        Some(value) => Some(value),
        None => persisted,
    }
}

impl TuxVantage {
    /// Nothing persisted and nothing overridden.
    pub fn unset() -> (r: Self)
        ensures
            r.profile is None,
            r.machine is None,
            !r.panic,
            r.handlers == (Handlers {
                default: None,
                battery_conservation: None,
                rapid_charging: None,
            }),
            !r.backtrace.panics,
            !r.backtrace.errors,
            r.battery.matches is None,
            !r.battery.infallible,
            r.battery.threshold is None,
            r.battery.cooldown is None,
            r.overrides.profile is None,
            r.overrides.machine is None,
            !r.overrides.panic,
    {
        TuxVantage {
            profile: None,
            machine: None,
            panic: false,
            handlers: Handlers::unset(),
            backtrace: Backtrace { panics: false, errors: false },
            battery: BatteryConfig::unset(),
            overrides: Overrides::unset(),
        }
    }

    /// The effective profile name: the override if present, else the
    /// persisted one, else none.
    pub open spec fn spec_profile(self) -> Option<String> {
        layered(self.overrides.profile, self.profile)
    }

    /// The effective profile name: the override if present, else the
    /// persisted one, else none.
    pub fn profile(&self) -> (r: Option<String>)
        ensures
            r.deep_view() == self.spec_profile().deep_view(),
    {
        match &self.overrides.profile {
            Some(name) => Some(name.clone()),
            None => match &self.profile {
                Some(name) => Some(name.clone()),
                None => None,
            },
        }
    }

    /// The effective machine-output choice: the override if present, else
    /// the persisted one, else detection from the terminal.
    pub open spec fn spec_machine(self) -> Machine {
        match layered(self.overrides.machine, self.machine) {
            Some(machine) => machine,
            None => Machine::Auto,
        }
    }

    /// The effective machine-output choice: the override if present, else
    /// the persisted one, else detection from the terminal.
    pub fn machine(&self) -> (r: Machine)
        ensures
            r == self.spec_machine(),
    {
        match self.overrides.machine {
            Some(machine) => machine,
            None => match self.machine {
                Some(machine) => machine,
                None => Machine::Auto,
            },
        }
    }

    /// The effective abort-on-error toggle: on when either layer asks for it.
    pub open spec fn spec_panic(self) -> bool {
        self.overrides.panic || self.panic
    }

    /// The effective abort-on-error toggle: on when either layer asks for it.
    pub fn panic(&self) -> (r: bool)
        ensures
            r == self.spec_panic(),
    {
        self.overrides.panic || self.panic
    }

    /// The effective backtrace pair: each flag on when either layer sets it.
    pub open spec fn spec_backtrace(self) -> Backtrace {
        Backtrace {
            panics: self.overrides.backtrace.panics || self.backtrace.panics,
            errors: self.overrides.backtrace.errors || self.backtrace.errors,
        }
    }

    /// The effective backtrace pair: each flag on when either layer sets it.
    pub fn backtrace(&self) -> (r: Backtrace)
        ensures
            r == self.spec_backtrace(),
    {
        Backtrace {
            panics: self.overrides.backtrace.panics || self.backtrace.panics,
            errors: self.overrides.backtrace.errors || self.backtrace.errors,
        }
    }

    /// The effective handler choices, each field resolved on its own: the
    /// override if present, else the persisted choice.
    pub open spec fn spec_handlers(self) -> Handlers {
        Handlers {
            default: layered(self.overrides.handlers.default, self.handlers.default),
            battery_conservation: layered(
                self.overrides.handlers.battery_conservation,
                self.handlers.battery_conservation,
            ),
            rapid_charging: layered(
                self.overrides.handlers.rapid_charging,
                self.handlers.rapid_charging,
            ),
        }
    }

    /// The effective handler choices, each field resolved on its own: the
    /// override if present, else the persisted choice.
    pub fn handlers(&self) -> (r: Handlers)
        ensures
            r == self.spec_handlers(),
    {
        Handlers {
            default: match self.overrides.handlers.default {
                Some(handler) => Some(handler),
                None => self.handlers.default,
            },
            battery_conservation: match self.overrides.handlers.battery_conservation {
                Some(handler) => Some(handler),
                None => self.handlers.battery_conservation,
            },
            rapid_charging: match self.overrides.handlers.rapid_charging {
                Some(handler) => Some(handler),
                None => self.handlers.rapid_charging,
            },
        }
    }

    /// The effective battery targeting, each field resolved on its own; the
    /// tolerate-enumeration-errors flag is on when either layer sets it.
    pub fn battery_config(&self) -> (r: BatteryConfig)
        ensures
            match layered(self.overrides.battery.matches, self.battery.matches) {
                Some(m) => r.matches matches Some(chosen) && chosen == m,
                None => r.matches is None,
            },
            r.infallible == (self.overrides.battery.infallible || self.battery.infallible),
            r.threshold == layered(self.overrides.battery.threshold, self.battery.threshold),
            r.cooldown == layered(self.overrides.battery.cooldown, self.battery.cooldown),
    {
        BatteryConfig {
            matches: match &self.overrides.battery.matches {
                Some(m) => Some(m.clone()),
                None => match &self.battery.matches {
                    Some(m) => Some(m.clone()),
                    None => None,
                },
            },
            infallible: self.overrides.battery.infallible || self.battery.infallible,
            threshold: match self.overrides.battery.threshold {
                Some(threshold) => Some(threshold),
                None => self.battery.threshold,
            },
            cooldown: match self.overrides.battery.cooldown {
                Some(cooldown) => Some(cooldown),
                None => self.battery.cooldown,
            },
        }
    }
}

/// The consistency ledger: whether the regulator service was installed, and
/// by which executable.
#[derive(Debug)]
pub struct Consistency {
    pub regulator_service_installed: bool,
    pub last_exe: Option<String>,
}

impl Consistency {
    /// Nothing recorded yet.
    pub fn unset() -> (r: Self)
        ensures
            !r.regulator_service_installed,
            r.last_exe is None,
    {
        Consistency { regulator_service_installed: false, last_exe: None }
    }

    /// The startup check. With a recorded path the ledger is left alone and
    /// the caller is told to warn exactly when the service is installed and
    /// the running executable is somewhere else; with none, the current path
    /// is recorded silently.
    pub fn startup_check(&mut self, current_exe: &str) -> (warn: bool)
        ensures
            match old(self).last_exe {
                Some(last) => *final(self) == *old(self) && warn == (
                old(self).regulator_service_installed && last@ != current_exe@),
                None => {
                    &&& final(self).last_exe matches Some(recorded) && recorded@ == current_exe@
                    &&& final(self).regulator_service_installed == old(
                        self,
                    ).regulator_service_installed
                    &&& !warn
                },
            },
    {
        match &self.last_exe {
            Some(last) => self.regulator_service_installed && !str_eq(last.as_str(), current_exe),
            None => {
                self.last_exe = Some(String::from_str(current_exe));
                false
            },
        }
    }

    /// Record a completed installation: the flag is set and the installing
    /// executable remembered, in one step.
    pub fn install(&mut self, exe: String)
        ensures
            final(self).regulator_service_installed,
            final(self).last_exe == Some(exe),
    {
        self.regulator_service_installed = true;
        self.last_exe = Some(exe);
    }
}

/// Everything the store guards: the layered document, the discovered
/// profiles, and the consistency ledger.
#[derive(Debug)]
pub struct Config {
    pub tuxvantage: TuxVantage,
    pub profiles: Profiles,
    pub consistency: Consistency,
}

/// The configuration store. The process holds exactly one, created by
/// `initialize` before any operation runs; shared reads go through `read`
/// and exclusive writes through the mutating methods, and because every
/// resolution method recomputes from the current layers, a write is visible
/// to every read that follows it.
#[derive(Debug)]
pub struct ConfigStore {
    config: Config,
}

impl ConfigStore {
    /// What the store currently guards.
    pub closed spec fn spec_config(&self) -> Config {
        self.config
    }

    /// Found the store on loaded state: the persisted document, the
    /// discovered profiles, and the ledger.
    pub fn initialize(config: Config) -> (r: ConfigStore)
        ensures
            r.spec_config() == config,
    {
        ConfigStore { config }
    }

    /// A shared view for reading.
    pub fn read(&self) -> (r: &Config)
        ensures
            *r == self.spec_config(),
    {
        &self.config
    }

    /// An exclusive write: replace the override layer with the values the
    /// invocation supplied.
    pub fn set_overrides(&mut self, overrides: Overrides)
        ensures
            final(self).spec_config() == (Config {
                tuxvantage: TuxVantage { overrides, ..old(self).spec_config().tuxvantage },
                ..old(self).spec_config()
            }),
    {
        self.config.tuxvantage.overrides = overrides;
    }

    /// An exclusive write: make the named profile the persisted default.
    /// Succeeds exactly when the name is carried by some profile of the
    /// search order; nothing changes on failure. The caller persists the
    /// document afterwards.
    pub fn set_default(&mut self, name: String) -> (r: Result<(), Error>)
        requires
            old(self).spec_config().profiles.search_len() <= usize::MAX,
        ensures
            ({
                let before = old(self).spec_config();
                let after = final(self).spec_config();
                match r {
                    Ok(()) => (exists|i: int| #[trigger] before.profiles.first_named(name@, i))
                        && after == (Config {
                        tuxvantage: TuxVantage { profile: Some(name), ..before.tuxvantage },
                        ..before
                    }),
                    Err(failure) => {
                        &&& forall|i: int|
                            0 <= i < before.profiles.search_len() ==> before.profiles.name_at(i)
                                != name@
                        &&& after == before
                        &&& failure.chain.deep_view() =~= seq![crate::profile::PROFILE_NOT_FOUND@]
                        &&& failure.tip is None
                    },
                }
            }),
    {
        match self.config.profiles.find_index(name.as_str()) {
            Some(_) => {
                self.config.tuxvantage.profile = Some(name);
                Ok(())
            },
            None => Err(Error::new(String::from_str(crate::profile::PROFILE_NOT_FOUND))),
        }
    }

    /// An exclusive write: the consistency check run at startup.
    pub fn startup_check(&mut self, current_exe: &str) -> (warn: bool)
        ensures
            ({
                let before = old(self).spec_config();
                let after = final(self).spec_config();
                match before.consistency.last_exe {
                    Some(last) => after == before && warn == (
                    before.consistency.regulator_service_installed && last@ != current_exe@),
                    None => {
                        &&& after.consistency.last_exe matches Some(recorded) && recorded@
                            == current_exe@
                        &&& after.consistency.regulator_service_installed
                            == before.consistency.regulator_service_installed
                        &&& after.tuxvantage == before.tuxvantage
                        &&& after.profiles == before.profiles
                        &&& !warn
                    },
                }
            }),
    {
        self.config.consistency.startup_check(current_exe)
    }

    /// An exclusive write: record a completed installation in the ledger.
    pub fn install(&mut self, exe: String)
        ensures
            ({
                let before = old(self).spec_config();
                let after = final(self).spec_config();
                &&& after.consistency.regulator_service_installed
                &&& after.consistency.last_exe == Some(exe)
                &&& after.tuxvantage == before.tuxvantage
                &&& after.profiles == before.profiles
            }),
    {
        self.config.consistency.install(exe);
    }
}

/// No resolved value is cached: what a shared read resolves is a function of
/// the layers as they stand, so a writer that filled the override layer and
/// then downgraded to reading observes its own writes. Stated here for the
/// override profile name, the field the command line writes before anything
/// reads.
pub proof fn lemma_write_visible_after_downgrade(config: Config, name: String)
    ensures
        ({
            let written = TuxVantage {
                overrides: Overrides { profile: Some(name), ..config.tuxvantage.overrides },
                ..config.tuxvantage
            };
            written.spec_profile() == Some(name)
        }),
{
}

} // verus!
