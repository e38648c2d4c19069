use wavelog_hamlib::config::{Config, LogLevel};
use wavelog_hamlib::mode::Mode;
use wavelog_hamlib::propagation::PropagationMode;
use wavelog_hamlib::update::{downlink_offset, satellite_offsets, synthesize, RigSnapshot};

fn config_with(sat: &str) -> Config {
    Config {
        log_level: LogLevel::Warn,
        interval: 2000,
        wavelog_url: "https://log.example.org/".to_string(),
        wavelog_key: "SECRET-REDACTED".to_string(),
        wavelog_radio: "IC-9700".to_string(),
        rigctl_host: "localhost".to_string(),
        rigctl_port: 4532,
        rigctl_timeout: 3000,
        sat: sat.to_string(),
    }
}

fn snapshot(rx_mode: Mode, rx: u64, tx_mode: Mode, tx: u64) -> RigSnapshot {
    RigSnapshot {
        rx_vfo: "VFOA".to_string(),
        tx_vfo: "VFOB".to_string(),
        rx_mode,
        rx_frequency: rx,
        tx_mode,
        tx_frequency: tx,
    }
}

#[test]
fn offset_table_knows_qo100() {
    assert_eq!(downlink_offset("QO-100"), Some(8089500000));
    assert_eq!(downlink_offset("AO-91"), None);
    assert_eq!(downlink_offset(""), None);
    let table = satellite_offsets();
    assert_eq!(table.len(), 1);
    assert_eq!(table[0].designator, "QO-100");
    assert_eq!(table[0].offset_hz, 8089500000);
}

#[test]
fn qo100_same_frequency_is_moved_to_uplink() {
    let s = snapshot(Mode::SSB, 10489500000, Mode::SSB, 10489500000);
    let u = synthesize(&s, &config_with("QO-100"));
    assert_eq!(u.frequency, 2400000000);
    assert_eq!(u.frequency_rx, Some(10489500000));
}

#[test]
fn qo100_split_frequencies_are_kept() {
    let s = snapshot(Mode::SSB, 10489750000, Mode::SSB, 2400250000);
    let u = synthesize(&s, &config_with("QO-100"));
    assert_eq!(u.frequency, 2400250000);
    assert_eq!(u.frequency_rx, Some(10489750000));
}

#[test]
fn qo100_scenario_below_offset_keeps_frequency() {
    // The rig's frequency lies below the satellite offset: no correction applies.
    let s = snapshot(Mode::SSB, 14205000, Mode::SSB, 14205000);
    let u = synthesize(&s, &config_with("QO-100"));
    assert_eq!(u.frequency, 14205000);
    assert_eq!(u.prop_mode, Some(PropagationMode::SAT));
    assert_eq!(u.sat_name, Some("QO-100".to_string()));
    assert_eq!(u.mode, Mode::SSB);
    assert_eq!(u.mode_rx, Some(Mode::SSB));
}

#[test]
fn offset_equal_to_frequency_gives_zero() {
    let s = snapshot(Mode::CW, 8089500000, Mode::CW, 8089500000);
    let u = synthesize(&s, &config_with("QO-100"));
    assert_eq!(u.frequency, 0);
}

#[test]
fn unknown_satellite_sets_fields_without_correction() {
    let s = snapshot(Mode::FM, 435000000, Mode::FM, 435000000);
    let u = synthesize(&s, &config_with("AO-91"));
    assert_eq!(u.frequency, 435000000);
    assert_eq!(u.prop_mode, Some(PropagationMode::SAT));
    assert_eq!(u.sat_name, Some("AO-91".to_string()));
}

#[test]
fn no_satellite_leaves_fields_absent() {
    let s = snapshot(Mode::SSB, 14205000, Mode::CW, 14206000);
    let u = synthesize(&s, &config_with(""));
    assert_eq!(u.radio, "IC-9700".to_string());
    assert_eq!(u.frequency, 14206000);
    assert_eq!(u.mode, Mode::CW);
    assert_eq!(u.frequency_rx, Some(14205000));
    assert_eq!(u.mode_rx, Some(Mode::SSB));
    assert_eq!(u.prop_mode, None);
    assert_eq!(u.sat_name, None);
    assert_eq!(u.power, None);
}

#[test]
fn no_satellite_same_frequency_not_corrected() {
    let s = snapshot(Mode::SSB, 10489500000, Mode::SSB, 10489500000);
    let u = synthesize(&s, &config_with(""));
    assert_eq!(u.frequency, 10489500000);
}

#[test]
fn synthesis_is_deterministic() {
    let s = snapshot(Mode::SSB, 10489500000, Mode::SSB, 10489500000);
    let c = config_with("QO-100");
    let a = synthesize(&s, &c);
    let b = synthesize(&s, &c);
    assert_eq!(a, b);
}
