use clrigctl::flrig::{
    radio_data_from_rig, rig_power_watts, Mode, ModeAction, PowerWatts, RigModeGuard,
};

const ALL_MODES: [Mode; 16] = [
    Mode::LSB,
    Mode::USB,
    Mode::AM,
    Mode::CW,
    Mode::RTTY,
    Mode::FM,
    Mode::CW_R,
    Mode::RTTY_R,
    Mode::D_LSB,
    Mode::D_USB,
    Mode::CW_U,
    Mode::CW_L,
    Mode::RTTY_U,
    Mode::RTTY_L,
    Mode::DATA_U,
    Mode::DATA_L,
];

#[test]
fn mode_labels_round_trip() {
    for m in ALL_MODES {
        assert_eq!(Mode::from_label(m.as_str()), Some(m));
    }
    assert_eq!(Mode::D_USB.as_str(), "D-USB");
    assert_eq!(Mode::DATA_U.as_str(), "DATA-U");
    assert_eq!(Mode::from_label("CW-R"), Some(Mode::CW_R));
    assert_eq!(Mode::from_label("cw"), None);
    assert_eq!(Mode::from_label("PKT-U"), None);
}

#[test]
fn guard_skips_equal_modes() {
    for bw in [None, Some(250)] {
        let guard = RigModeGuard { cwbandwidth: bw };
        for m in ALL_MODES {
            assert_eq!(guard.apply_mode(m, m), ModeAction::Skip);
        }
    }
}

#[test]
fn guard_cw_with_narrow_filter() {
    let guard = RigModeGuard { cwbandwidth: Some(500) };
    for m in ALL_MODES {
        if m != Mode::CW {
            assert_eq!(guard.apply_mode(Mode::CW, m), ModeAction::WriteThenNarrow(Mode::CW, 500));
        }
    }
    assert_eq!(guard.apply_mode(Mode::USB, Mode::CW), ModeAction::Write(Mode::USB));
    assert_eq!(guard.apply_mode(Mode::CW_U, Mode::USB), ModeAction::Write(Mode::CW_U));
}

#[test]
fn guard_cw_without_filter() {
    let guard = RigModeGuard { cwbandwidth: None };
    assert_eq!(guard.apply_mode(Mode::CW, Mode::LSB), ModeAction::Write(Mode::CW));
    assert_eq!(guard.apply_mode(Mode::RTTY, Mode::CW), ModeAction::Write(Mode::RTTY));
}

#[test]
fn guard_reported_labels() {
    let guard = RigModeGuard { cwbandwidth: Some(300) };
    assert_eq!(guard.check_mode(Mode::CW, "CW").unwrap(), ModeAction::Skip);
    assert_eq!(
        guard.check_mode(Mode::CW, "USB").unwrap(),
        ModeAction::WriteThenNarrow(Mode::CW, 300)
    );
    let err = guard.check_mode(Mode::CW, "PSK").unwrap_err();
    assert_eq!(err.msg, "mode PSK is unknown");
    assert_eq!(err.to_text(), "UnknownModeError: mode PSK is unknown");
}

fn watts(power: u32, max_power: u32, max_watts: u32) -> PowerWatts {
    PowerWatts { power, max_power, max_watts }
}

#[test]
fn power_readings_clamped() {
    assert_eq!(rig_power_watts(25, 100, 5), watts(25, 100, 5));
    assert_eq!(rig_power_watts(-3, 100, 10), watts(0, 100, 10));
    assert_eq!(rig_power_watts(3, -1, 10), watts(3, 0, 10));
    assert_eq!(rig_power_watts(i32::MIN, i32::MAX, 7), watts(0, i32::MAX as u32, 7));
}

#[test]
fn power_ratio_in_f32() {
    // The ratio as the gateway prints it.
    let text = |w: PowerWatts| (w.power as f32 * w.max_watts as f32 / w.max_power as f32).to_string();
    assert_eq!(text(rig_power_watts(50, 100, 10)), "5");
    assert_eq!(text(rig_power_watts(25, 100, 5)), "1.25");
    assert_eq!(text(rig_power_watts(0, 100, 10)), "0");
    assert_eq!(text(rig_power_watts(1, 3, 10)), "3.3333333");
    assert_eq!(text(rig_power_watts(7, 0, 10)), "inf");
    assert_eq!(text(rig_power_watts(0, 0, 10)), "NaN");
}

#[test]
fn radio_data_keeps_readings() {
    let d = radio_data_from_rig("7074000".to_string(), "D-USB".to_string(), "1.25".to_string());
    assert_eq!(d.frequency, "7074000");
    assert_eq!(d.mode, "D-USB");
    assert_eq!(d.power, "1.25");
    assert_eq!(d.key, "");
    assert_eq!(d.radio, "");
}
