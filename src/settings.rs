use vstd::prelude::*;
use vstd::string::StringExecFns;
use once_cell::sync::OnceCell;
use crate::error::ScanError;

verus! {

/// The polling interval used when the configuration names none.
pub const DEFAULT_INTERVAL_MS: u64 = 500;

/// The overall deadline used when the configuration names none.
pub const DEFAULT_SCAN_TIMEOUT_SECS: u64 = 5;

/// The configuration of the proximity check.
///
/// `interval_ms` is the pause between two probes, in milliseconds;
/// `scan_timeout` is the overall deadline, in seconds, where `0` means
/// that the scan is never cut short.
#[derive(Clone, Debug)]
pub struct Settings {
    pub adapter: Option<String>,
    pub target: String,
    pub interval_ms: Option<u64>,
    pub scan_timeout: Option<u64>,
}

/// How long one attempt may run.
#[derive(Clone, Copy, Debug, PartialEq, Eq, Structural)]
pub enum Deadline {
    /// No timer: the scan runs until it decides (for testing only).
    Unlimited,
    /// The scan is abandoned once this many seconds have elapsed.
    Limited { secs: u64 },
}

pub open spec fn interval_of(s: Settings) -> u64 {
    match s.interval_ms {
        Some(ms) => ms,
        None => DEFAULT_INTERVAL_MS,
    }
}

pub open spec fn deadline_of(s: Settings) -> Deadline {
    match s.scan_timeout {
        Some(0) => Deadline::Unlimited,
        Some(secs) => Deadline::Limited { secs },
        None => Deadline::Limited { secs: DEFAULT_SCAN_TIMEOUT_SECS },
    }
}

impl Settings {
    /// The pause between two probes, with the default filled in.
    pub fn poll_interval_ms(&self) -> (r: u64)
        ensures
            r == interval_of(*self),
    {
        match self.interval_ms {
            Some(ms) => ms,
            None => DEFAULT_INTERVAL_MS,
        }
    }

    /// The overall deadline, with the default filled in; zero is unlimited.
    pub fn deadline(&self) -> (r: Deadline)
        ensures
            r == deadline_of(*self),
    {
        match self.scan_timeout {
            Some(secs) => {
                if secs == 0 {
                    Deadline::Unlimited
                } else {
                    Deadline::Limited { secs }
                }
            },
            None => Deadline::Limited { secs: DEFAULT_SCAN_TIMEOUT_SECS },
        }
    }
}

/// The value that a settings cell holds, if it was set.
pub uninterp spec fn cell_value(c: OnceCell<Settings>) -> Option<Settings>;

#[verifier::external_type_specification]
#[verifier::external_body]
#[verifier::reject_recursive_types(T)]
pub struct ExOnceCell<T>(OnceCell<T>);

/// Relies on `once_cell::sync::OnceCell::new`: the cell starts empty.
#[verifier::external_body]
fn cell_new() -> (r: OnceCell<Settings>)
    ensures
        cell_value(r) is None,
{
    OnceCell::new()
}

/// Relies on `once_cell::sync::OnceCell::set`: an empty cell takes the value;
/// a full one keeps its own and hands the new value back as the error.
#[verifier::external_body]
fn cell_set(c: &mut OnceCell<Settings>, v: Settings) -> (r: Option<Settings>)
    ensures
        r is None <==> cell_value(*old(c)) is None,
        r is None ==> cell_value(*final(c)) == Some(v),
        r is Some ==> r == Some(v),
        r is Some ==> cell_value(*final(c)) == cell_value(*old(c)),
{
    c.set(v).err()
}

/// Relies on `once_cell::sync::OnceCell::get`: the value, if the cell was set.
#[verifier::external_body]
fn cell_get(c: &OnceCell<Settings>) -> (r: Option<&Settings>)
    ensures
        match r {
            Some(v) => cell_value(*c) == Some(*v),
            None => cell_value(*c) is None,
        },
{
    c.get()
}

/// The settings of the process: set at most once, then only read.
pub struct SettingsStore {
    cell: OnceCell<Settings>,
}

/// What the store holds after a load of `s` into a store that held `before`,
/// and whether the load succeeded.
pub open spec fn after_load(before: Option<Settings>, s: Settings) -> (Option<Settings>, bool) {
    match before {
        None => (Some(s), true),
        Some(held) => (Some(held), false),
    }
}

impl SettingsStore {
    /// The settings that were loaded, if any.
    pub closed spec fn loaded(&self) -> Option<Settings> {
        cell_value(self.cell)
    }

    /// A store into which nothing was loaded yet.
    pub fn new() -> (r: SettingsStore)
        ensures
            r.loaded() is None,
    {
        SettingsStore { cell: cell_new() }
    }
}

/// Loads the settings once; a second load fails and leaves the first in place.
pub fn load_settings(store: &mut SettingsStore, s: Settings) -> (r: Result<(), ScanError>)
    ensures
        final(store).loaded() == after_load(old(store).loaded(), s).0,
        r is Ok == after_load(old(store).loaded(), s).1,
{
    match cell_set(&mut store.cell, s) {
        None => Ok(()),
        Some(_) => Err(ScanError { msg: "Tried to load settings file more than once".to_string() }),
    }
}

/// The loaded settings.
pub fn get(store: &SettingsStore) -> (r: &Settings)
    requires
        store.loaded() is Some,
    ensures
        store.loaded() == Some(*r),
{
    cell_get(&store.cell).unwrap()
}

/// Where the authentication hook reads its settings: a file in the user's
/// home directory; without a home directory there is none.
pub fn home_settings_path(home: Option<String>) -> (r: Option<String>)
    ensures
        home is None ==> r is None,
        home is Some ==> r is Some && r->0@ == home->0@ + "/.pam_btbeacon.yml"@,
{
    match home {
        Some(h) => Some(h.concat("/.pam_btbeacon.yml")),
        None => None,
    }
}

/// The settings file of an attempt: the given path, else the default one.
pub fn settings_path_or_default(path: Option<String>) -> (r: String)
    ensures
        path is Some ==> r == path->0,
        path is None ==> r@ == "./settings.yml"@,
{
    match path {
        Some(p) => p,
        None => String::from_str("./settings.yml"),
    }
}

/// Loading is a one-time operation: once settings are held, any later load
/// fails and the settings first loaded stay in place.
pub proof fn load_is_one_time(first: Settings, second: Settings)
    ensures
        after_load(None, first) == (Some(first), true),
        after_load(after_load(None, first).0, second) == (Some(first), false),
{
}

} // verus!
