use radio_sweep::scan::{
    auth_method_to_string, display_ssid, rank_by_signal, scan_step, scan_step_accepts, AuthMethod,
    ScanCommand, ScanEvent, ScanState, RESTART_MS, SCAN_PERIOD_MS, STARTUP_MS,
};

/// A scanner that has come up and was told to scan for the first time.
fn scanning() -> ScanState {
    let (state, command) = scan_step(ScanState::Idle, ScanEvent::Completed);
    assert_eq!(command, ScanCommand::CreateWifi);
    let (state, command) = scan_step(state, ScanEvent::Completed);
    assert_eq!(command, ScanCommand::WrapWifi);
    let (state, command) = scan_step(state, ScanEvent::Completed);
    assert_eq!(command, ScanCommand::Configure);
    let (state, command) = scan_step(state, ScanEvent::Completed);
    assert_eq!(command, ScanCommand::Start);
    let (state, command) = scan_step(state, ScanEvent::Completed);
    assert_eq!(command, ScanCommand::Sleep(2000));
    let (state, command) = scan_step(state, ScanEvent::Completed);
    assert_eq!(command, ScanCommand::CheckStarted);
    let (state, command) = scan_step(state, ScanEvent::Running(true));
    assert_eq!(command, ScanCommand::Scan);
    assert_eq!(state, ScanState::Scanning);
    state
}

#[test]
fn scan_constants() {
    assert_eq!(STARTUP_MS, 2000);
    assert_eq!(RESTART_MS, 1000);
    assert_eq!(SCAN_PERIOD_MS, 5000);
}

#[test]
fn auth_methods_with_a_name() {
    assert_eq!(auth_method_to_string(Some(AuthMethod::Open)), "Open");
    assert_eq!(auth_method_to_string(Some(AuthMethod::Wep)), "WEP");
    assert_eq!(auth_method_to_string(Some(AuthMethod::Wpa)), "WPA");
    assert_eq!(auth_method_to_string(Some(AuthMethod::Wpa2Personal)), "WPA2-Personal");
    assert_eq!(auth_method_to_string(Some(AuthMethod::Wpa3Personal)), "WPA3-Personal");
    assert_eq!(auth_method_to_string(Some(AuthMethod::Wpa2Enterprise)), "WPA2-Enterprise");
    assert_eq!(auth_method_to_string(Some(AuthMethod::Wpa2Wpa3Personal)), "WPA2/WPA3");
}

#[test]
fn auth_methods_without_a_name() {
    assert_eq!(auth_method_to_string(None), "Unknown");
    assert_eq!(auth_method_to_string(Some(AuthMethod::WpaWpa2Personal)), "Unknown");
    assert_eq!(auth_method_to_string(Some(AuthMethod::WapiPersonal)), "Unknown");
}

#[test]
fn hidden_network_gets_a_stand_in_name() {
    assert_eq!(display_ssid(""), "<Hidden network>");
    assert_eq!(display_ssid("Wokwi-GUEST"), "Wokwi-GUEST");
    assert_eq!(display_ssid(" "), " ");
    assert_eq!(display_ssid("caf\u{e9}"), "caf\u{e9}");
}

#[test]
fn strongest_signal_is_listed_first() {
    assert_eq!(rank_by_signal(&vec![-45, -67, -30]), vec![2, 0, 1]);
    assert_eq!(rank_by_signal(&vec![-90, -80, -70, -60]), vec![3, 2, 1, 0]);
    assert_eq!(rank_by_signal(&vec![-10, -20, -30]), vec![0, 1, 2]);
    assert_eq!(rank_by_signal(&vec![0, 127, -128, 1, -1]), vec![1, 3, 0, 4, 2]);
}

#[test]
fn equal_signals_keep_the_order_found() {
    assert_eq!(rank_by_signal(&vec![-50, -50, -50]), vec![0, 1, 2]);
    assert_eq!(rank_by_signal(&vec![-50, -40, -50, -40, -60]), vec![1, 3, 0, 2, 4]);
}

#[test]
fn ranking_of_few_networks() {
    assert_eq!(rank_by_signal(&Vec::new()), Vec::<usize>::new());
    assert_eq!(rank_by_signal(&vec![-128]), vec![0]);
}

#[test]
fn ranking_agrees_with_a_stable_sort() {
    let mut state: u32 = 12345;
    for round in 0..50usize {
        let mut signals = Vec::new();
        for _ in 0..(round % 17) * 3 {
            state = state.wrapping_mul(1664525).wrapping_add(1013904223);
            signals.push(((state >> 24) % 12) as i8 - 90);
        }
        let mut expected: Vec<usize> = (0..signals.len()).collect();
        expected.sort_by(|a, b| signals[*b].cmp(&signals[*a]));
        assert_eq!(rank_by_signal(&signals), expected);
    }
}

#[test]
fn scanner_comes_up_in_order() {
    assert_eq!(scanning(), ScanState::Scanning);
}

#[test]
fn scanner_scans_every_five_seconds() {
    let mut state = scanning();
    for _ in 0..4 {
        let (next, command) = scan_step(state, ScanEvent::Completed);
        assert_eq!((next, command), (ScanState::Resting, ScanCommand::Sleep(5000)));
        let (next, command) = scan_step(next, ScanEvent::Completed);
        assert_eq!((next, command), (ScanState::Checking, ScanCommand::CheckStarted));
        let (next, command) = scan_step(next, ScanEvent::Running(true));
        assert_eq!((next, command), (ScanState::Scanning, ScanCommand::Scan));
        state = next;
    }
}

#[test]
fn a_failed_scan_does_not_end_the_scanner() {
    let state = scanning();
    let (state, command) = scan_step(state, ScanEvent::Failed);
    assert_eq!((state, command), (ScanState::Resting, ScanCommand::Sleep(5000)));
    let (state, command) = scan_step(state, ScanEvent::Completed);
    assert_eq!((state, command), (ScanState::Checking, ScanCommand::CheckStarted));
}

#[test]
fn a_stopped_driver_is_started_again() {
    for answer in [ScanEvent::Running(false), ScanEvent::Failed, ScanEvent::Completed] {
        let (state, command) = scan_step(ScanState::Checking, answer);
        assert_eq!((state, command), (ScanState::Restarting, ScanCommand::Start));
        let (state, command) = scan_step(state, ScanEvent::Completed);
        assert_eq!((state, command), (ScanState::Recovering, ScanCommand::Sleep(1000)));
        let (state, command) = scan_step(state, ScanEvent::Completed);
        assert_eq!((state, command), (ScanState::Scanning, ScanCommand::Scan));
    }
}

#[test]
fn a_driver_that_cannot_be_brought_up_ends_the_scanner() {
    for state in
        [ScanState::Creating, ScanState::Wrapping, ScanState::Starting, ScanState::Restarting]
    {
        for event in [ScanEvent::Failed, ScanEvent::Running(true), ScanEvent::Running(false)] {
            assert_eq!(scan_step(state, event), (ScanState::Ended, ScanCommand::GiveUp));
        }
    }
    for event in [ScanEvent::Completed, ScanEvent::Failed, ScanEvent::Running(true)] {
        assert_eq!(scan_step(ScanState::Ended, event), (ScanState::Ended, ScanCommand::GiveUp));
    }
}

#[test]
fn sleeps_and_scans_cannot_end_the_scanner() {
    for state in
        [ScanState::Settling, ScanState::Recovering, ScanState::Scanning, ScanState::Resting]
    {
        let expected = scan_step(state, ScanEvent::Completed);
        assert_ne!(expected.0, ScanState::Ended);
        for event in [ScanEvent::Failed, ScanEvent::Running(true), ScanEvent::Running(false)] {
            assert_eq!(scan_step(state, event), expected);
        }
    }
}

#[test]
fn a_refused_configuration_has_no_step() {
    assert!(scan_step_accepts(ScanState::Configuring, ScanEvent::Completed));
    assert!(!scan_step_accepts(ScanState::Configuring, ScanEvent::Failed));
    assert!(!scan_step_accepts(ScanState::Configuring, ScanEvent::Running(true)));
    for state in [
        ScanState::Idle,
        ScanState::Creating,
        ScanState::Wrapping,
        ScanState::Starting,
        ScanState::Settling,
        ScanState::Checking,
        ScanState::Restarting,
        ScanState::Recovering,
        ScanState::Scanning,
        ScanState::Resting,
        ScanState::Ended,
    ] {
        for event in [ScanEvent::Completed, ScanEvent::Failed, ScanEvent::Running(false)] {
            assert!(scan_step_accepts(state, event));
        }
    }
}
