use clrigctl::bandplan::is_ft8;
use clrigctl::cat::{
    parse_qsy_path, plan_qsy, qsy_response_body, translate, wavelog_to_flrig_mode,
    wavelog_to_yaesu_flrig_mode, Qsy, QsyError, WavelogMode,
};
use clrigctl::flrig::Mode;

const ALL_WL_MODES: [WavelogMode; 6] = [
    WavelogMode::Cw,
    WavelogMode::Phone,
    WavelogMode::LSB,
    WavelogMode::USB,
    WavelogMode::Digi,
    WavelogMode::Rtty,
];

const BAND_40M: [f64; 5] = [
    7_000_000.0,
    7_030_000.0,
    7_100_000.0,
    7_185_000.0,
    7_200_000.0,
];

const FT8_CENTRES: [u64; 10] = [
    1_840_000, 3_575_000, 7_074_000, 10_136_000, 14_074_000, 18_100_000, 21_074_000,
    24_915_000, 28_074_000, 50_313_000,
];

#[test]
fn ft8_40m() {
    const FT8_40M: f64 = 7_074_000.0;
    assert!(is_ft8(FT8_40M as u64));
}

#[test]
fn ft8_40m_below() {
    const FT8_40M_TOO_LOW: f64 = 7_071_999.9999;
    assert!(!is_ft8(FT8_40M_TOO_LOW as u64));
}

#[test]
fn ft8_40m_lower() {
    const FT8_40M_LOWER: f64 = 7_072_000.0;
    assert!(is_ft8(FT8_40M_LOWER as u64));
}

#[test]
fn ft8_40m_upper() {
    const FT8_40M_UPPER: f64 = 7_076_999.9999;
    assert!(is_ft8(FT8_40M_UPPER as u64));
}

#[test]
fn ft8_40m_above() {
    const FT8_40M_TOO_HIGH: f64 = 7_077_000.0;
    assert!(!is_ft8(FT8_40M_TOO_HIGH as u64));
}

#[test]
fn ft8_every_window_edges() {
    for c in FT8_CENTRES {
        assert!(is_ft8(c));
        assert!(is_ft8(c - 2_000));
        assert!(!is_ft8(c - 2_001));
        assert!(is_ft8(c + 2_999));
        assert!(!is_ft8(c + 3_000));
    }
}

#[test]
fn ft8_far_from_windows() {
    assert!(!is_ft8(0));
    assert!(!is_ft8(7_100_000));
    assert!(!is_ft8(14_200_000));
    assert!(!is_ft8(u64::MAX));
}

#[test]
fn flrig_40m_ft8() {
    const FT8_40M: f64 = 7_074_000.0;
    for wl_mode in ALL_WL_MODES {
        assert_eq!(wavelog_to_flrig_mode(FT8_40M as u64, wl_mode), Mode::D_USB);
    }
}

#[test]
fn flrig_40m_cw() {
    for freq in BAND_40M {
        assert_eq!(wavelog_to_flrig_mode(freq as u64, WavelogMode::Cw), Mode::CW);
    }
}

#[test]
fn flrig_40m_phone() {
    for freq in BAND_40M {
        assert_eq!(wavelog_to_flrig_mode(freq as u64, WavelogMode::Phone), Mode::LSB);
    }
}

#[test]
fn flrig_40m_lsb() {
    for freq in BAND_40M {
        assert_eq!(wavelog_to_flrig_mode(freq as u64, WavelogMode::LSB), Mode::LSB);
    }
}

#[test]
fn flrig_40m_usb() {
    for freq in BAND_40M {
        assert_eq!(wavelog_to_flrig_mode(freq as u64, WavelogMode::USB), Mode::USB);
    }
}

#[test]
fn flrig_40m_digi_rtty() {
    for freq in BAND_40M {
        assert_eq!(wavelog_to_flrig_mode(freq as u64, WavelogMode::Digi), Mode::RTTY);
        assert_eq!(wavelog_to_flrig_mode(freq as u64, WavelogMode::Rtty), Mode::RTTY);
    }
}

#[test]
fn yaesu_40m_table() {
    for freq in BAND_40M {
        let f = freq as u64;
        assert_eq!(wavelog_to_yaesu_flrig_mode(f, WavelogMode::Cw), Mode::CW_U);
        assert_eq!(wavelog_to_yaesu_flrig_mode(f, WavelogMode::Phone), Mode::LSB);
        assert_eq!(wavelog_to_yaesu_flrig_mode(f, WavelogMode::LSB), Mode::LSB);
        assert_eq!(wavelog_to_yaesu_flrig_mode(f, WavelogMode::USB), Mode::USB);
        assert_eq!(wavelog_to_yaesu_flrig_mode(f, WavelogMode::Digi), Mode::RTTY_U);
        assert_eq!(wavelog_to_yaesu_flrig_mode(f, WavelogMode::Rtty), Mode::RTTY_U);
    }
}

#[test]
fn translate_in_every_window_ignores_mode() {
    for c in FT8_CENTRES {
        for wl_mode in ALL_WL_MODES {
            assert_eq!(translate(c, wl_mode, false), Mode::D_USB);
            assert_eq!(translate(c, wl_mode, true), Mode::DATA_U);
        }
    }
}

#[test]
fn translate_phone_sideband_by_frequency() {
    assert_eq!(translate(9_999_999, WavelogMode::Phone, false), Mode::LSB);
    assert_eq!(translate(10_000_000, WavelogMode::Phone, false), Mode::USB);
    assert_eq!(translate(14_250_000, WavelogMode::Phone, true), Mode::USB);
    assert_eq!(translate(3_700_000, WavelogMode::USB, false), Mode::USB);
    assert_eq!(translate(14_250_000, WavelogMode::LSB, true), Mode::LSB);
}

#[test]
fn qsy_path_valid() {
    assert_eq!(
        parse_qsy_path("/14030000/cw"),
        Ok(Qsy { freq: 14_030_000, mode: WavelogMode::Cw })
    );
    assert_eq!(
        parse_qsy_path("//7100000/phone"),
        Ok(Qsy { freq: 7_100_000, mode: WavelogMode::Phone })
    );
    assert_eq!(parse_qsy_path("/0/rtty"), Ok(Qsy { freq: 0, mode: WavelogMode::Rtty }));
    assert_eq!(
        parse_qsy_path("/+5/digi"),
        Ok(Qsy { freq: 5, mode: WavelogMode::Digi })
    );
    assert_eq!(
        parse_qsy_path("/4294967295/usb"),
        Ok(Qsy { freq: 4_294_967_295, mode: WavelogMode::USB })
    );
    assert_eq!(
        parse_qsy_path("/4294967296/cw"),
        Ok(Qsy { freq: 4_294_967_296, mode: WavelogMode::Cw })
    );
    assert_eq!(
        parse_qsy_path("/18446744073709551615/usb"),
        Ok(Qsy { freq: u64::MAX, mode: WavelogMode::USB })
    );
    assert_eq!(
        parse_qsy_path("3500000/lsb"),
        Ok(Qsy { freq: 3_500_000, mode: WavelogMode::LSB })
    );
}

#[test]
fn qsy_path_bad_frequency() {
    assert_eq!(parse_qsy_path("/abc/cw"), Err(QsyError::BadFrequency));
    assert_eq!(parse_qsy_path("//cw"), Err(QsyError::BadPath));
    assert_eq!(parse_qsy_path("/-5/cw"), Err(QsyError::BadFrequency));
    assert_eq!(parse_qsy_path("/+/cw"), Err(QsyError::BadFrequency));
    assert_eq!(
        parse_qsy_path("/18446744073709551616/cw"),
        Err(QsyError::BadFrequency)
    );
    assert_eq!(
        parse_qsy_path("/99999999999999999999/cw"),
        Err(QsyError::BadFrequency)
    );
    assert_eq!(parse_qsy_path("/14 030/cw"), Err(QsyError::BadFrequency));
    assert_eq!(
        QsyError::BadFrequency.message(),
        "Frequency must be a positive integer"
    );
}

#[test]
fn qsy_path_bad_mode() {
    assert_eq!(parse_qsy_path("/14030000/xyz"), Err(QsyError::BadMode));
    assert_eq!(parse_qsy_path("/14030000/CW"), Err(QsyError::BadMode));
    assert_eq!(parse_qsy_path("/14030000/"), Err(QsyError::BadMode));
    assert_eq!(QsyError::BadMode.message(), "Invalid mode");
}

#[test]
fn qsy_path_bad_shape() {
    assert_eq!(parse_qsy_path("/14030000"), Err(QsyError::BadPath));
    assert_eq!(parse_qsy_path("/14030000/cw/x"), Err(QsyError::BadPath));
    assert_eq!(parse_qsy_path(""), Err(QsyError::BadPath));
    assert_eq!(parse_qsy_path("/"), Err(QsyError::BadPath));
    assert_eq!(QsyError::BadPath.message(), "Expected /<freq>/<mode>");
}

#[test]
fn qsy_plan_translates() {
    let (q, mode) = plan_qsy("/7074000/phone", false).unwrap();
    assert_eq!(q, Qsy { freq: 7_074_000, mode: WavelogMode::Phone });
    assert_eq!(mode, Mode::D_USB);
    let (_, mode) = plan_qsy("/14030000/cw", true).unwrap();
    assert_eq!(mode, Mode::CW_U);
    assert_eq!(plan_qsy("/x/cw", true).unwrap_err(), QsyError::BadFrequency);
}

#[test]
fn qsy_reply_body() {
    let body = qsy_response_body(14_030_000, Mode::CW, "IC-703");
    assert_eq!(
        qsy_response_body(144_174_000, Mode::FM, "X")
            .contains("\"frequency\": 144174000,"),
        true
    );
    assert_eq!(
        body,
        "{\n    \"status\": \"ok\",\n    \"connected\": true,\n    \"frequency\": 14030000,\n    \"mode\": \"CW\",\n    \"rig\": \"IC-703\"\n}\n"
    );
}
