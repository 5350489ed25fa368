use pam_btbeacon::adapter::select_adapter;
use pam_btbeacon::address::{is_paired, same_address};
use pam_btbeacon::engine::{Action, Attempt, Event, Phase};
use pam_btbeacon::error::{auth_result, AuthResult, Outcome, ScanError};
use pam_btbeacon::settings::{
    get, home_settings_path, load_settings, settings_path_or_default, Deadline, Settings, SettingsStore,
};

const TARGET: [u8; 6] = [0xAA, 0xBB, 0xCC, 0xDD, 0xEE, 0xFF];

fn settings(interval_ms: Option<u64>, scan_timeout: Option<u64>) -> Settings {
    Settings {
        adapter: None,
        target: "AA:BB:CC:DD:EE:FF".to_string(),
        interval_ms,
        scan_timeout,
    }
}

/// Drives a fresh attempt up to its first probe, at time 0.
fn ready_attempt(s: &Settings) -> Attempt {
    let mut a = Attempt::new(s, Some(TARGET));
    assert_eq!(a.action(), Action::ListAdapters);
    let act = a.step(Event::AdapterNames { names: vec!["hci0".to_string()] }, 0);
    assert_eq!(act, Action::OpenAdapter { index: 0 });
    assert_eq!(a.step(Event::Powered { on: true }, 0), Action::ListKnown);
    let act = a.step(Event::Known { addresses: vec![[1, 2, 3, 4, 5, 6], TARGET] }, 0);
    assert_eq!(act, Action::QueryConnected);
    a
}

#[test]
fn connect_succeeds_on_third_probe() {
    let s = settings(Some(100), Some(1));
    let mut a = ready_attempt(&s);
    let mut now: u64 = 0;
    for _ in 0..2 {
        assert_eq!(a.step(Event::Connected { connected: false }, now + 1), Action::Connect);
        assert_eq!(a.step(Event::ConnectResult { ok: false }, now + 2), Action::Sleep { ms: 100 });
        now += 102;
        assert_eq!(a.step(Event::Slept, now), Action::QueryConnected);
    }
    assert_eq!(a.step(Event::Connected { connected: false }, now + 1), Action::Connect);
    let act = a.step(Event::ConnectResult { ok: true }, now + 2);
    assert_eq!(act, Action::Finish { outcome: Outcome::Present });
    assert_eq!(auth_result(a.outcome().unwrap()), AuthResult::Success);
    assert_eq!(a.probes, 3);
    assert_eq!(a.waited_ms, 200);
}

#[test]
fn unpaired_target_is_denied_at_once() {
    let s = settings(None, None);
    let mut a = Attempt::new(&s, Some(TARGET));
    a.step(Event::AdapterNames { names: vec!["hci0".to_string()] }, 0);
    a.step(Event::Powered { on: true }, 0);
    let act = a.step(Event::Known { addresses: vec![[1, 2, 3, 4, 5, 6]] }, 0);
    assert_eq!(act, Action::Finish { outcome: Outcome::NotPaired });
    assert_eq!(a.probes, 0);
    assert_eq!(a.waited_ms, 0);
    assert_eq!(auth_result(Outcome::NotPaired), AuthResult::Failure);
}

#[test]
fn connected_target_succeeds_after_one_probe() {
    let s = settings(None, None);
    let mut a = ready_attempt(&s);
    let act = a.step(Event::Connected { connected: true }, 5);
    assert_eq!(act, Action::Finish { outcome: Outcome::Present });
    assert_eq!(a.probes, 1);
    assert_eq!(a.waited_ms, 0);
}

#[test]
fn absent_probes_wait_one_interval_each() {
    let s = settings(Some(250), Some(0));
    let mut a = ready_attempt(&s);
    for k in 0..4u64 {
        a.step(Event::Connected { connected: false }, 0);
        assert_eq!(a.step(Event::ConnectResult { ok: false }, 0), Action::Sleep { ms: 250 });
        a.step(Event::Slept, 0);
        assert_eq!(a.waited_ms, (k + 1) * 250);
    }
    a.step(Event::Connected { connected: true }, 0);
    assert_eq!(a.outcome(), Some(Outcome::Present));
    assert_eq!(a.waited_ms, 1000);
    assert_eq!(a.probes, 5);
}

#[test]
fn unlimited_deadline_keeps_polling() {
    let s = settings(Some(1), Some(0));
    let mut a = ready_attempt(&s);
    assert_eq!(a.deadline, Deadline::Unlimited);
    let mut now: u64 = 0;
    for _ in 0..1000 {
        now += 1_000_000;
        a.step(Event::Connected { connected: false }, now);
        a.step(Event::ConnectResult { ok: false }, now);
        assert_eq!(a.step(Event::Slept, now), Action::QueryConnected);
        assert_eq!(a.remaining_ms(now), None);
    }
    assert_eq!(a.outcome(), None);
}

#[test]
fn deadline_times_the_scan_out() {
    let s = settings(Some(500), None);
    let mut a = Attempt::new(&s, Some(TARGET));
    a.step(Event::AdapterNames { names: vec!["hci0".to_string()] }, 0);
    a.step(Event::Powered { on: true }, 40);
    assert_eq!(a.remaining_ms(40), Some(5000));
    assert_eq!(a.remaining_ms(1040), Some(4000));
    a.step(Event::Known { addresses: vec![TARGET] }, 100);
    a.step(Event::Connected { connected: false }, 200);
    assert_eq!(a.remaining_ms(5040), Some(0));
    assert!(a.is_expired(5040));
    assert!(!a.is_expired(5039));
    let act = a.step(Event::Elapsed, 5040);
    assert_eq!(act, Action::Finish { outcome: Outcome::Timeout });
    assert_eq!(auth_result(Outcome::Timeout), AuthResult::Failure);
}

#[test]
fn deadline_does_not_cover_adapter_setup() {
    let s = settings(None, Some(1));
    let mut a = Attempt::new(&s, Some(TARGET));
    assert_eq!(a.remaining_ms(10_000), None);
    a.step(Event::AdapterNames { names: vec!["hci0".to_string()] }, 10_000);
    assert_eq!(a.step(Event::Powered { on: false }, 20_000), Action::PowerOn);
    assert_eq!(a.step(Event::PowerOnResult { ok: true }, 30_000), Action::ListKnown);
    assert_eq!(a.scan_start_ms, 30_000);
    assert_eq!(a.remaining_ms(30_400), Some(600));
}

#[test]
fn bad_target_is_a_configuration_error() {
    let s = settings(None, None);
    let a = Attempt::new(&s, None);
    assert_eq!(a.action(), Action::Finish { outcome: Outcome::ConfigError });
    assert_eq!(auth_result(Outcome::ConfigError), AuthResult::Failure);
}

#[test]
fn stack_failures_are_adapter_errors() {
    let s = settings(None, None);
    let mut a = Attempt::new(&s, Some(TARGET));
    assert_eq!(
        a.step(Event::AdapterNames { names: vec![] }, 0),
        Action::Finish { outcome: Outcome::AdapterError }
    );
    let mut b = Attempt::new(&s, Some(TARGET));
    b.step(Event::AdapterNames { names: vec!["hci0".to_string()] }, 0);
    b.step(Event::Powered { on: false }, 0);
    assert_eq!(
        b.step(Event::PowerOnResult { ok: false }, 0),
        Action::Finish { outcome: Outcome::AdapterError }
    );
    let mut c = ready_attempt(&s);
    assert_eq!(c.step(Event::StackFailed, 1), Action::Finish { outcome: Outcome::AdapterError });
    assert_eq!(c.step(Event::Connected { connected: true }, 2), Action::Finish { outcome: Outcome::AdapterError });
    assert_eq!(auth_result(Outcome::AdapterError), AuthResult::Failure);
    assert_eq!(auth_result(Outcome::Absent), AuthResult::Failure);
}

#[test]
fn configured_adapter_is_preferred() {
    let names = vec!["hci0".to_string(), "hci1".to_string(), "hci1".to_string()];
    assert_eq!(select_adapter(&Some("hci1".to_string()), &names), Some(1));
    assert_eq!(select_adapter(&Some("hci7".to_string()), &names), Some(0));
    assert_eq!(select_adapter(&None, &names), Some(0));
    assert_eq!(select_adapter(&Some("hci0".to_string()), &vec![]), None);
    let s = Settings { adapter: Some("hci1".to_string()), ..settings(None, None) };
    let mut a = Attempt::new(&s, Some(TARGET));
    assert_eq!(a.step(Event::AdapterNames { names }, 0), Action::OpenAdapter { index: 1 });
}

#[test]
fn addresses_compare_bytewise() {
    assert!(same_address(&TARGET, &[0xAA, 0xBB, 0xCC, 0xDD, 0xEE, 0xFF]));
    assert!(!same_address(&TARGET, &[0xAA, 0xBB, 0xCC, 0xDD, 0xEE, 0xFE]));
    assert!(is_paired(&vec![[0; 6], TARGET], &TARGET));
    assert!(!is_paired(&vec![], &TARGET));
    assert!(!is_paired(&vec![[0; 6]], &TARGET));
}

#[test]
fn settings_defaults() {
    let s = settings(None, None);
    assert_eq!(s.poll_interval_ms(), 500);
    assert_eq!(s.deadline(), Deadline::Limited { secs: 5 });
    let t = settings(Some(100), Some(0));
    assert_eq!(t.poll_interval_ms(), 100);
    assert_eq!(t.deadline(), Deadline::Unlimited);
    assert_eq!(settings(None, Some(9)).deadline(), Deadline::Limited { secs: 9 });
}

#[test]
fn settings_load_only_once() {
    let mut store = SettingsStore::new();
    assert!(load_settings(&mut store, settings(Some(100), None)).is_ok());
    assert_eq!(get(&store).interval_ms, Some(100));
    assert!(load_settings(&mut store, settings(Some(900), None)).is_err());
    assert_eq!(get(&store).interval_ms, Some(100));
    assert_eq!(get(&store).target, "AA:BB:CC:DD:EE:FF");
}

#[test]
fn error_keeps_its_message() {
    let e = ScanError::with_msg("Device not paired");
    assert_eq!(e.msg, "Device not paired");
}

#[test]
fn settings_paths() {
    assert_eq!(home_settings_path(Some("/home/ada".to_string())), Some("/home/ada/.pam_btbeacon.yml".to_string()));
    assert_eq!(home_settings_path(None), None);
    assert_eq!(settings_path_or_default(None), "./settings.yml");
    assert_eq!(settings_path_or_default(Some("/etc/beacon.yml".to_string())), "/etc/beacon.yml");
}
