use wavelog_hamlib::config::{Config, LogLevel};
use wavelog_hamlib::mode::Mode;
use wavelog_hamlib::propagation::PropagationMode;
use wavelog_hamlib::sync::{Action, Event, Notice, Phase, SyncLoop};
use wavelog_hamlib::update::RigSnapshot;
use wavelog_hamlib::wavelog::is_success;

fn config() -> Config {
    Config {
        log_level: LogLevel::Info,
        interval: 1500,
        wavelog_url: "http://localhost/".to_string(),
        wavelog_key: "SECRET-REDACTED".to_string(),
        wavelog_radio: "FT-991".to_string(),
        rigctl_host: "localhost".to_string(),
        rigctl_port: 4532,
        rigctl_timeout: 3000,
        sat: "QO-100".to_string(),
    }
}

fn reading() -> RigSnapshot {
    RigSnapshot {
        rx_vfo: "VFOA".to_string(),
        tx_vfo: "VFOB".to_string(),
        rx_mode: Mode::SSB,
        rx_frequency: 10489600000,
        tx_mode: Mode::SSB,
        tx_frequency: 10489600000,
    }
}

fn syncing() -> SyncLoop {
    let mut l = SyncLoop::new(config());
    l.step(Event::Connected);
    l
}

#[test]
fn loop_starts_by_connecting() {
    let l = SyncLoop::new(config());
    assert_eq!(l.phase, Phase::Connecting);
    assert!(matches!(l.first_action(), Action::Connect));
}

#[test]
fn connection_leads_to_reading() {
    let mut l = SyncLoop::new(config());
    let s = l.step(Event::Connected);
    assert_eq!(l.phase, Phase::Syncing);
    assert!(matches!(s.action, Action::ReadSnapshot));
    assert_eq!(s.notice, Notice::Quiet);
}

#[test]
fn failed_connection_stops_the_loop() {
    let mut l = SyncLoop::new(config());
    let s = l.step(Event::ConnectFailed);
    assert_eq!(l.phase, Phase::Stopped);
    assert!(matches!(s.action, Action::Exit));
    assert_eq!(s.notice, Notice::Error);
    let again = l.step(Event::Woke);
    assert!(matches!(again.action, Action::Exit));
}

#[test]
fn reading_is_submitted() {
    let mut l = syncing();
    let s = l.step(Event::SnapshotRead(reading()));
    assert_eq!(s.notice, Notice::Quiet);
    match s.action {
        Action::Submit(u) => {
            assert_eq!(u.radio, "FT-991");
            assert_eq!(u.frequency, 2400100000);
            assert_eq!(u.frequency_rx, Some(10489600000));
            assert_eq!(u.prop_mode, Some(PropagationMode::SAT));
            assert_eq!(u.sat_name, Some("QO-100".to_string()));
        }
        other => panic!("expected a submission, got {:?}", other),
    }
}

#[test]
fn query_failure_skips_publishing_and_continues() {
    let mut l = syncing();
    let s = l.step(Event::QueryFailed);
    assert_eq!(l.phase, Phase::Syncing);
    assert!(matches!(s.action, Action::Sleep(1500)));
    assert_eq!(s.notice, Notice::Error);
    let next = l.step(Event::Woke);
    assert!(matches!(next.action, Action::ReadSnapshot));
    assert_eq!(l.phase, Phase::Syncing);
}

#[test]
fn refused_update_warns_and_continues() {
    let mut l = syncing();
    let s = l.step(Event::Submitted(is_success("error")));
    assert_eq!(s.notice, Notice::Warning);
    assert!(matches!(s.action, Action::Sleep(1500)));
    assert_eq!(l.phase, Phase::Syncing);
}

#[test]
fn accepted_update_is_quiet() {
    let mut l = syncing();
    let s = l.step(Event::Submitted(is_success("success")));
    assert_eq!(s.notice, Notice::Quiet);
    assert!(matches!(s.action, Action::Sleep(1500)));
}

#[test]
fn transport_failure_is_an_error_and_continues() {
    let mut l = syncing();
    let s = l.step(Event::SubmitFailed);
    assert_eq!(s.notice, Notice::Error);
    assert!(matches!(s.action, Action::Sleep(1500)));
    assert_eq!(l.phase, Phase::Syncing);
}

#[test]
fn stray_events_while_connecting_retry() {
    let mut l = SyncLoop::new(config());
    let s = l.step(Event::Woke);
    assert_eq!(l.phase, Phase::Connecting);
    assert!(matches!(s.action, Action::Connect));
}
