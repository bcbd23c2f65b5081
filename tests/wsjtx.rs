use bincode2::LengthOption;
use clrigctl::wsjtx::{decode_hdr, WSJTXError, WSJTXMsg, WSJTX_MAGIC};

fn be(v: u32) -> Vec<u8> {
    v.to_be_bytes().to_vec()
}

fn string_field(s: &str) -> Vec<u8> {
    let mut out = be(s.len() as u32);
    out.extend_from_slice(s.as_bytes());
    out
}

fn header(magic: u32, schema: u32, tag: u32) -> Vec<u8> {
    let mut out = be(magic);
    out.extend(be(schema));
    out.extend(be(tag));
    out
}

fn logged_adif(id: &str, text: &str) -> Vec<u8> {
    let mut out = header(WSJTX_MAGIC, 2, 12);
    out.extend(string_field(id));
    out.extend(string_field(text));
    out
}

const ADIF: &str = "<call:5>G4ABC <gridsquare:4>IO91 <mode:3>FT8 <rst_sent:3>-10 <eor>";

#[test]
fn logged_adif_round_trip() {
    for text in [ADIF, "", "Grüße aus München <eor>"] {
        let data = decode_hdr(&logged_adif("WSJT-X", text)).unwrap();
        assert_eq!(data.magic, 0xADBC_CBDA);
        assert_eq!(data.schema, 2);
        match data.msg {
            WSJTXMsg::LoggedADIF(m) => {
                assert_eq!(m.id, "WSJT-X");
                assert_eq!(m.adif_text, text);
            }
            other => panic!("unexpected message {:?}", other),
        }
    }
}

#[test]
fn logged_adif_as_bincode_writes_it() {
    let mut config = bincode2::config();
    config
        .big_endian()
        .string_length(LengthOption::U32)
        .array_length(LengthOption::U32);
    let bytes = config
        .serialize(&(WSJTX_MAGIC, 2u32, 12u32, "WSJT-X".to_string(), ADIF.to_string()))
        .unwrap();
    assert_eq!(bytes, logged_adif("WSJT-X", ADIF));
    match decode_hdr(&bytes).unwrap().msg {
        WSJTXMsg::LoggedADIF(m) => assert_eq!(m.adif_text, ADIF),
        other => panic!("unexpected message {:?}", other),
    }
}

#[test]
fn heartbeat_as_bincode_writes_it() {
    let mut config = bincode2::config();
    config
        .big_endian()
        .string_length(LengthOption::U32)
        .array_length(LengthOption::U32);
    let bytes = config
        .serialize(&(WSJTX_MAGIC, 2u32, 0u32, "WSJT-X".to_string(), 3u32, "2.6.1".to_string(), 7u32))
        .unwrap();
    match decode_hdr(&bytes).unwrap().msg {
        WSJTXMsg::Heartbeat(h) => {
            assert_eq!(h.id, "WSJT-X");
            assert_eq!(h.max_schema_num, 3);
            assert_eq!(h.version, "2.6.1");
            assert_eq!(h.revision, 7);
        }
        other => panic!("unexpected message {:?}", other),
    }
}

#[test]
fn status_decodes() {
    let mut b = header(WSJTX_MAGIC, 2, 1);
    b.extend(string_field("WSJT-X"));
    b.extend(14_074_000u64.to_be_bytes());
    b.extend(string_field("FT8"));
    b.extend(string_field("K1ABC"));
    b.extend(string_field("-12"));
    b.extend(string_field("FT8"));
    b.extend([1u8, 0, 1, 0]);
    b.extend(be(1500));
    b.extend(be(1200));
    match decode_hdr(&b).unwrap().msg {
        WSJTXMsg::Status(s) => {
            assert_eq!(s.id, "WSJT-X");
            assert_eq!(s.dial_frequency_hz, 14_074_000);
            assert_eq!(s.mode, "FT8");
            assert_eq!(s.dx_call, "K1ABC");
            assert_eq!(s.report, "-12");
            assert_eq!(s.tx_mode, "FT8");
            assert_eq!((s.tx_enabled, s.transmitting, s.decoding, s.pad), (1, 0, 1, 0));
            assert_eq!((s.rx_df, s.tx_df), (1500, 1200));
        }
        other => panic!("unexpected message {:?}", other),
    }
    b.pop();
    assert!(matches!(decode_hdr(&b), Err(WSJTXError::DeserializationFailure(_))));
}

#[test]
fn decode_message_decodes() {
    let mut b = header(WSJTX_MAGIC, 2, 2);
    b.extend(string_field("WSJT-X"));
    b.push(1);
    b.extend(be(45_000));
    b.extend((-15i32).to_be_bytes());
    b.extend(0.25f64.to_be_bytes());
    b.extend(be(1234));
    b.extend(string_field("~"));
    b.extend(string_field("CQ G4ABC IO91"));
    b.extend([0u8, 1]);
    match decode_hdr(&b).unwrap().msg {
        WSJTXMsg::Decode(d) => {
            assert_eq!(d.id, "WSJT-X");
            assert_eq!(d.new, 1);
            assert_eq!(d.time, 45_000);
            assert_eq!(d.snr, -15);
            assert_eq!(f64::from_bits(d.delta_t_bits), 0.25);
            assert_eq!(d.delta_f, 1234);
            assert_eq!(d.mode, "~");
            assert_eq!(d.message, "CQ G4ABC IO91");
            assert_eq!((d.low_confidence, d.off_air), (0, 1));
        }
        other => panic!("unexpected message {:?}", other),
    }
}

#[test]
fn bare_messages_decode() {
    assert!(matches!(decode_hdr(&header(WSJTX_MAGIC, 2, 3)).unwrap().msg, WSJTXMsg::Clear));
    assert!(matches!(decode_hdr(&header(WSJTX_MAGIC, 2, 6)).unwrap().msg, WSJTXMsg::Close));
    assert!(matches!(decode_hdr(&header(WSJTX_MAGIC, 2, 15)).unwrap().msg, WSJTXMsg::Configure));
    let mut trailing = header(WSJTX_MAGIC, 2, 8);
    trailing.extend([9u8, 9, 9]);
    assert!(matches!(decode_hdr(&trailing).unwrap().msg, WSJTXMsg::HaltTx));
}

#[test]
fn short_datagram_rejected() {
    for n in 0..12 {
        let b = header(WSJTX_MAGIC, 2, 3);
        match decode_hdr(&b[..n]) {
            Err(WSJTXError::DatagramTooShort(m)) => {
                assert_eq!(m, "Datagram too short for WSJTX header")
            }
            other => panic!("unexpected result {:?}", other),
        }
    }
}

#[test]
fn bad_magic_rejected() {
    match decode_hdr(&header(0xDEAD_BEEF, 2, 3)) {
        Err(WSJTXError::BadMagic(m)) => assert_eq!(m, "Bad magic: 3735928559"),
        other => panic!("unexpected result {:?}", other),
    }
    assert!(matches!(decode_hdr(&header(0, 3, 99)), Err(WSJTXError::BadMagic(_))));
}

#[test]
fn other_schema_rejected() {
    match decode_hdr(&header(WSJTX_MAGIC, 3, 3)) {
        Err(WSJTXError::UnsupportedSchema(m)) => {
            assert_eq!(m, "Schema: 3; only schema 2 so far")
        }
        other => panic!("unexpected result {:?}", other),
    }
}

#[test]
fn undecodable_payload_rejected() {
    let failed = |b: &[u8]| matches!(decode_hdr(b), Err(WSJTXError::DeserializationFailure(_)));
    assert!(failed(&header(WSJTX_MAGIC, 2, 16)));
    assert!(failed(&header(WSJTX_MAGIC, 2, 0)));
    let mut truncated = logged_adif("WSJT-X", ADIF);
    truncated.pop();
    assert!(failed(&truncated));
    let mut bad_utf8 = header(WSJTX_MAGIC, 2, 12);
    bad_utf8.extend(string_field("id"));
    bad_utf8.extend(be(2));
    bad_utf8.extend([0xC3u8, 0x28]);
    assert!(failed(&bad_utf8));
    match decode_hdr(&header(WSJTX_MAGIC, 2, 16)) {
        Err(WSJTXError::DeserializationFailure(m)) => {
            assert_eq!(m, "Couldn't deserialize datagram into WSJTX header")
        }
        other => panic!("unexpected result {:?}", other),
    }
}

#[test]
fn error_text_names_the_condition() {
    let e = decode_hdr(&header(WSJTX_MAGIC, 7, 3)).unwrap_err();
    assert_eq!(e.to_text(), "UnsupportedSchema: Schema: 7; only schema 2 so far");
    let e = decode_hdr(&[1u8, 2, 3]).unwrap_err();
    assert_eq!(e.to_text(), "DatagramTooShort: Datagram too short for WSJTX header");
    let e = WSJTXError::QSOUploadFailed("upload failure".to_string());
    assert_eq!(e.to_text(), "QSOUploadFailed: upload failure");
}

#[test]
fn message_text_as_operators_read_it() {
    let mut b = header(WSJTX_MAGIC, 2, 0);
    b.extend(string_field("WSJT-X"));
    b.extend(be(3));
    b.extend(string_field("2.6.1"));
    b.extend(be(7));
    assert_eq!(
        decode_hdr(&b).unwrap().msg.to_text(""),
        "Heartbeat id:WSJT-X max_schema_num:3 version:2.6.1 revision:7"
    );

    let mut b = header(WSJTX_MAGIC, 2, 1);
    b.extend(string_field("WSJT-X"));
    b.extend(14_074_000u64.to_be_bytes());
    b.extend(string_field("FT8"));
    b.extend(string_field("K1ABC"));
    b.extend(string_field("-12"));
    b.extend(string_field("FT8"));
    b.extend([1u8, 0, 1, 0]);
    b.extend(be(1500));
    b.extend(be(1200));
    assert_eq!(
        decode_hdr(&b).unwrap().msg.to_text(""),
        "Status id: WSJT-X dial_frequency_hz: 14074000 mode: FT8 dxcall: K1ABC report: -12 \
         tx_mode: FT8 tx_enabled: 1 transmitting: 0 decoding: 1 rx_df: 1500 tx_df: 1200"
    );

    let mut b = header(WSJTX_MAGIC, 2, 2);
    b.extend(string_field("WSJT-X"));
    b.push(1);
    b.extend(be(45_000));
    b.extend((-15i32).to_be_bytes());
    b.extend(0.25f64.to_be_bytes());
    b.extend(be(1234));
    b.extend(string_field("~"));
    b.extend(string_field("CQ G4ABC IO91"));
    b.extend([0u8, 1]);
    let msg = decode_hdr(&b).unwrap().msg;
    let delta_t = match &msg {
        WSJTXMsg::Decode(d) => f64::from_bits(d.delta_t_bits).to_string(),
        _ => String::new(),
    };
    assert_eq!(
        msg.to_text(&delta_t),
        "Decode: id: WSJT-X new: 1 time: 45000 snr: -15 delta_t: 0.25 delta_f: 1234 \
         mode: ~ message: CQ G4ABC IO91 low_confidence: 0 off_air: 1"
    );

    assert_eq!(
        decode_hdr(&logged_adif("WSJT-X", ADIF)).unwrap().msg.to_text(""),
        format!("LoggedADIF: Logged id: WSJT-X ADIF text: {}", ADIF)
    );
    assert_eq!(decode_hdr(&header(WSJTX_MAGIC, 2, 5)).unwrap().msg.to_text(""), "QSO Logged");
    assert_eq!(decode_hdr(&header(WSJTX_MAGIC, 2, 8)).unwrap().msg.to_text(""), "Halt Tx");
    assert_eq!(
        decode_hdr(&header(WSJTX_MAGIC, 2, 14)).unwrap().msg.to_text(""),
        "Switch Configuration"
    );
}
