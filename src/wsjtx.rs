use vstd::prelude::*;
use vstd::utf8::{decode_utf8, encode_utf8, valid_utf8};
use vstd::string::StringExecFns;

use crate::text::{decimal, push_decimal, push_signed_decimal, signed_decimal};

verus! {

/// Where to listen for WSJT-X datagrams.
pub struct WsjtxSettings {
    pub host: String,
    pub port: u16,
    /// Seconds to wait after a failed receive before trying again.
    pub err_timeout: u64,
}

/// Fixed marker that opens every WSJT-X datagram.
pub const WSJTX_MAGIC: u32 = 0xadbccbda;

/// The one schema version understood here.
pub const WSJTX_SCHEMA: u32 = 2;

/// Bytes of the fixed header: magic, schema and the message tag.
pub const SZ_HDR: usize = 12;

// ---------------------------------------------------------------------------
// The byte layout, as spec functions over the datagram.
//
// Integers are big-endian; a string is a 32-bit byte count followed by that
// many bytes of UTF-8. Each `take_*` reads one field at position `p` and
// yields its value and the position just past it, or `None` when the bytes
// run out or are not a valid field.
// ---------------------------------------------------------------------------

/// Big-endian 32-bit integer at `p`.
pub open spec fn be_u32(b: Seq<u8>, p: int) -> u32 {
    (b[p] as int * 0x100_0000 + b[p + 1] as int * 0x1_0000 + b[p + 2] as int * 0x100
        + b[p + 3] as int) as u32
}

/// Two's complement reading of a 32-bit pattern.
pub open spec fn i32_of_bits(u: u32) -> i32 {
    if u < 0x8000_0000 {
        u as i32
    } else {
        (u - 0x1_0000_0000) as i32
    }
}

pub open spec fn take_u8(b: Seq<u8>, p: int) -> Option<(u8, int)> {
    if 0 <= p && p + 1 <= b.len() {
        Some((b[p], p + 1))
    } else {
        None
    }
}

pub open spec fn take_u32(b: Seq<u8>, p: int) -> Option<(u32, int)> {
    if 0 <= p && p + 4 <= b.len() {
        Some((be_u32(b, p), p + 4))
    } else {
        None
    }
}

pub open spec fn take_i32(b: Seq<u8>, p: int) -> Option<(i32, int)> {
    match take_u32(b, p) {
        Some((u, q)) => Some((i32_of_bits(u), q)),
        None => None,
    }
}

pub open spec fn take_u64(b: Seq<u8>, p: int) -> Option<(u64, int)> {
    if 0 <= p && p + 8 <= b.len() {
        Some(((be_u32(b, p) as int * 0x1_0000_0000 + be_u32(b, p + 4) as int) as u64, p + 8))
    } else {
        None
    }
}

pub open spec fn take_string(b: Seq<u8>, p: int) -> Option<(Seq<char>, int)> {
    match take_u32(b, p) {
        Some((n, q)) => {
            if q + n <= b.len() && valid_utf8(b.subrange(q, q + n)) {
                Some((decode_utf8(b.subrange(q, q + n)), q + n))
            } else {
                None
            }
        },
        None => None,
    }
}

/// The abstract value of a decoder's result.
pub open spec fn opt_view<T: View>(r: Option<(T, usize)>) -> Option<(T::V, int)> {
    match r {
        Some((v, q)) => Some((v@, q as int)),
        None => None,
    }
}

// ---------------------------------------------------------------------------
// Readers for single fields.
// ---------------------------------------------------------------------------

/// Relies on `std::str::from_utf8`: it accepts exactly the well-formed UTF-8
/// byte sequences, and the text it yields is the characters they encode.
#[verifier::external_body]
fn utf8_to_string(b: &[u8]) -> (r: Option<String>)
    ensures
        r is Some <==> valid_utf8(b@),
        r matches Some(s) ==> s@ == decode_utf8(b@),
{
    match std::str::from_utf8(b) {
        Ok(s) => Some(s.to_owned()),
        Err(_) => None,
    }
}

fn read_u8(b: &[u8], p: usize) -> (r: Option<(u8, usize)>)
    requires
        p <= b@.len(),
    ensures
        opt_view(r) == take_u8(b@, p as int),
{
    if b.len() - p < 1 {
        return None;
    }
    Some((b[p], p + 1))
}

fn be_u32_at(b: &[u8], p: usize) -> (r: u32)
    requires
        p + 4 <= b@.len(),
    ensures
        r == be_u32(b@, p as int),
{
    (b[p] as u32) * 0x100_0000 + (b[p + 1] as u32) * 0x1_0000 + (b[p + 2] as u32) * 0x100 + (
    b[p + 3] as u32)
}

fn read_u32(b: &[u8], p: usize) -> (r: Option<(u32, usize)>)
    requires
        p <= b@.len(),
    ensures
        opt_view(r) == take_u32(b@, p as int),
{
    if b.len() - p < 4 {
        return None;
    }
    Some((be_u32_at(b, p), p + 4))
}

fn read_i32(b: &[u8], p: usize) -> (r: Option<(i32, usize)>)
    requires
        p <= b@.len(),
    ensures
        opt_view(r) == take_i32(b@, p as int),
{
    match read_u32(b, p) {
        Some((u, q)) => {
            let v: i32 = if u < 0x8000_0000 {
                u as i32
            } else {
                ((u - 0x8000_0000) as i32) - 0x7fff_ffff - 1
            };
            Some((v, q))
        },
        None => None,
    }
}

fn read_u64(b: &[u8], p: usize) -> (r: Option<(u64, usize)>)
    requires
        p <= b@.len(),
    ensures
        opt_view(r) == take_u64(b@, p as int),
{
    if b.len() - p < 8 {
        return None;
    }
    let (hi, q) = match read_u32(b, p) {
        Some(x) => x,
        None => return None,
    };
    let (lo, q2) = match read_u32(b, q) {
        Some(x) => x,
        None => return None,
    };
    Some(((hi as u64) * 0x1_0000_0000 + (lo as u64), q2))
}

fn read_string(b: &[u8], p: usize) -> (r: Option<(String, usize)>)
    requires
        p <= b@.len(),
    ensures
        opt_view(r) == take_string(b@, p as int),
{
    let (n, q) = match read_u32(b, p) {
        Some(x) => x,
        None => return None,
    };
    if b.len() - q < n as usize {
        return None;
    }
    let end = q + n as usize;
    match utf8_to_string(&b[q..end]) {
        Some(s) => Some((s, end)),
        None => None,
    }
}

// ---------------------------------------------------------------------------
// Messages and their abstract values.
// ---------------------------------------------------------------------------

/// Periodic liveness report of a WSJT-X instance.
#[allow(non_camel_case_types)]
#[derive(Debug)]
pub struct WSJTX_Heartbeat {
    pub id: String,
    pub max_schema_num: u32,
    pub version: String,
    pub revision: u32,
}

pub struct HeartbeatModel {
    pub id: Seq<char>,
    pub max_schema_num: u32,
    pub version: Seq<char>,
    pub revision: u32,
}

impl View for WSJTX_Heartbeat {
    type V = HeartbeatModel;

    open spec fn view(&self) -> HeartbeatModel {
        HeartbeatModel {
            id: self.id@,
            max_schema_num: self.max_schema_num,
            version: self.version@,
            revision: self.revision,
        }
    }
}

/// Status of a WSJT-X instance: dial frequency, modes and transmit state.
#[allow(non_camel_case_types)]
#[derive(Debug)]
pub struct WSJTX_Status {
    pub id: String,
    pub dial_frequency_hz: u64,
    pub mode: String,
    pub dx_call: String,
    pub report: String,
    pub tx_mode: String,
    pub tx_enabled: u8,
    pub transmitting: u8,
    pub decoding: u8,
    pub pad: u8,
    pub rx_df: u32,
    pub tx_df: u32,
}

pub struct StatusModel {
    pub id: Seq<char>,
    pub dial_frequency_hz: u64,
    pub mode: Seq<char>,
    pub dx_call: Seq<char>,
    pub report: Seq<char>,
    pub tx_mode: Seq<char>,
    pub tx_enabled: u8,
    pub transmitting: u8,
    pub decoding: u8,
    pub pad: u8,
    pub rx_df: u32,
    pub tx_df: u32,
}

impl View for WSJTX_Status {
    type V = StatusModel;

    open spec fn view(&self) -> StatusModel {
        StatusModel {
            id: self.id@,
            dial_frequency_hz: self.dial_frequency_hz,
            mode: self.mode@,
            dx_call: self.dx_call@,
            report: self.report@,
            tx_mode: self.tx_mode@,
            tx_enabled: self.tx_enabled,
            transmitting: self.transmitting,
            decoding: self.decoding,
            pad: self.pad,
            rx_df: self.rx_df,
            tx_df: self.tx_df,
        }
    }
}

/// One decoded transmission. `delta_t_bits` holds the IEEE-754 bits of the
/// time offset in seconds, as they stand on the wire.
#[allow(non_camel_case_types)]
#[derive(Debug)]
pub struct WSJTX_Decode {
    pub id: String,
    pub new: u8,
    pub time: u32,
    pub snr: i32,
    pub delta_t_bits: u64,
    pub delta_f: u32,
    pub mode: String,
    pub message: String,
    pub low_confidence: u8,
    pub off_air: u8,
}

pub struct DecodeModel {
    pub id: Seq<char>,
    pub new: u8,
    pub time: u32,
    pub snr: i32,
    pub delta_t_bits: u64,
    pub delta_f: u32,
    pub mode: Seq<char>,
    pub message: Seq<char>,
    pub low_confidence: u8,
    pub off_air: u8,
}

impl View for WSJTX_Decode {
    type V = DecodeModel;

    open spec fn view(&self) -> DecodeModel {
        DecodeModel {
            id: self.id@,
            new: self.new,
            time: self.time,
            snr: self.snr,
            delta_t_bits: self.delta_t_bits,
            delta_f: self.delta_f,
            mode: self.mode@,
            message: self.message@,
            low_confidence: self.low_confidence,
            off_air: self.off_air,
        }
    }
}

/// A logged contact, as an ADIF record.
#[allow(non_camel_case_types)]
#[derive(Debug)]
pub struct WSJTX_LoggedADIF {
    pub id: String,
    pub adif_text: String,
}

pub struct LoggedAdifModel {
    pub id: Seq<char>,
    pub adif_text: Seq<char>,
}

impl View for WSJTX_LoggedADIF {
    type V = LoggedAdifModel;

    open spec fn view(&self) -> LoggedAdifModel {
        LoggedAdifModel { id: self.id@, adif_text: self.adif_text@ }
    }
}

// ---------------------------------------------------------------------------
// The payload of each message, as spec functions.
// ---------------------------------------------------------------------------

pub open spec fn take_heartbeat(b: Seq<u8>, p: int) -> Option<(HeartbeatModel, int)> {
    match take_string(b, p) {
        None => None,
        Some((id, p1)) => match take_u32(b, p1) {
            None => None,
            Some((max_schema_num, p2)) => match take_string(b, p2) {
                None => None,
                Some((version, p3)) => match take_u32(b, p3) {
                    None => None,
                    Some((revision, p4)) => Some(
                        (HeartbeatModel { id, max_schema_num, version, revision }, p4),
                    ),
                },
            },
        },
    }
}

/// The fixed-size tail of a status message: four flag bytes and two offsets.
pub open spec fn status_tail_fits(b: Seq<u8>, p: int) -> bool {
    0 <= p && p + 12 <= b.len()
}

pub open spec fn take_status(b: Seq<u8>, p: int) -> Option<(StatusModel, int)> {
    match take_string(b, p) {
        None => None,
        Some((id, p1)) => match take_u64(b, p1) {
            None => None,
            Some((dial_frequency_hz, p2)) => match take_string(b, p2) {
                None => None,
                Some((mode, p3)) => match take_string(b, p3) {
                    None => None,
                    Some((dx_call, p4)) => match take_string(b, p4) {
                        None => None,
                        Some((report, p5)) => match take_string(b, p5) {
                            None => None,
                            Some((tx_mode, p6)) => if status_tail_fits(b, p6) {
                                Some(
                                    (
                                        StatusModel {
                                            id,
                                            dial_frequency_hz,
                                            mode,
                                            dx_call,
                                            report,
                                            tx_mode,
                                            tx_enabled: b[p6],
                                            transmitting: b[p6 + 1],
                                            decoding: b[p6 + 2],
                                            pad: b[p6 + 3],
                                            rx_df: be_u32(b, p6 + 4),
                                            tx_df: be_u32(b, p6 + 8),
                                        },
                                        p6 + 12,
                                    ),
                                )
                            } else {
                                None
                            },
                        },
                    },
                },
            },
        },
    }
}

/// The fixed-size middle of a decode message: flag, time, SNR, time offset and
/// frequency offset.
pub open spec fn decode_middle_fits(b: Seq<u8>, p: int) -> bool {
    0 <= p && p + 21 <= b.len()
}

pub open spec fn take_decode(b: Seq<u8>, p: int) -> Option<(DecodeModel, int)> {
    match take_string(b, p) {
        None => None,
        Some((id, p1)) => if decode_middle_fits(b, p1) {
            match take_string(b, p1 + 21) {
                None => None,
                Some((mode, p2)) => match take_string(b, p2) {
                    None => None,
                    Some((message, p3)) => if 0 <= p3 && p3 + 2 <= b.len() {
                        Some(
                            (
                                DecodeModel {
                                    id,
                                    new: b[p1],
                                    time: be_u32(b, p1 + 1),
                                    snr: i32_of_bits(be_u32(b, p1 + 5)),
                                    delta_t_bits: (be_u32(b, p1 + 9) as int * 0x1_0000_0000
                                        + be_u32(b, p1 + 13) as int) as u64,
                                    delta_f: be_u32(b, p1 + 17),
                                    mode,
                                    message,
                                    low_confidence: b[p3],
                                    off_air: b[p3 + 1],
                                },
                                p3 + 2,
                            ),
                        )
                    } else {
                        None
                    },
                },
            }
        } else {
            None
        },
    }
}

pub open spec fn take_logged_adif(b: Seq<u8>, p: int) -> Option<(LoggedAdifModel, int)> {
    match take_string(b, p) {
        None => None,
        Some((id, p1)) => match take_string(b, p1) {
            None => None,
            Some((adif_text, p2)) => Some((LoggedAdifModel { id, adif_text }, p2)),
        },
    }
}

// ---------------------------------------------------------------------------
// Payload decoders.
// ---------------------------------------------------------------------------

fn read_heartbeat(b: &[u8], p: usize) -> (r: Option<(WSJTX_Heartbeat, usize)>)
    requires
        p <= b@.len(),
    ensures
        opt_view(r) == take_heartbeat(b@, p as int),
{
    let (id, p1) = match read_string(b, p) {
        Some(x) => x,
        None => return None,
    };
    let (max_schema_num, p2) = match read_u32(b, p1) {
        Some(x) => x,
        None => return None,
    };
    let (version, p3) = match read_string(b, p2) {
        Some(x) => x,
        None => return None,
    };
    let (revision, p4) = match read_u32(b, p3) {
        Some(x) => x,
        None => return None,
    };
    Some((WSJTX_Heartbeat { id, max_schema_num, version, revision }, p4))
}

fn read_status(b: &[u8], p: usize) -> (r: Option<(WSJTX_Status, usize)>)
    requires
        p <= b@.len(),
    ensures
        opt_view(r) == take_status(b@, p as int),
{
    let (id, p1) = match read_string(b, p) {
        Some(x) => x,
        None => return None,
    };
    let (dial_frequency_hz, p2) = match read_u64(b, p1) {
        Some(x) => x,
        None => return None,
    };
    let (mode, p3) = match read_string(b, p2) {
        Some(x) => x,
        None => return None,
    };
    let (dx_call, p4) = match read_string(b, p3) {
        Some(x) => x,
        None => return None,
    };
    let (report, p5) = match read_string(b, p4) {
        Some(x) => x,
        None => return None,
    };
    let (tx_mode, p6) = match read_string(b, p5) {
        Some(x) => x,
        None => return None,
    };
    if b.len() - p6 < 12 {
        return None;
    }
    let (rx_df, _) = match read_u32(b, p6 + 4) {
        Some(x) => x,
        None => return None,
    };
    let (tx_df, _) = match read_u32(b, p6 + 8) {
        Some(x) => x,
        None => return None,
    };
    let status = WSJTX_Status {
        id,
        dial_frequency_hz,
        mode,
        dx_call,
        report,
        tx_mode,
        tx_enabled: b[p6],
        transmitting: b[p6 + 1],
        decoding: b[p6 + 2],
        pad: b[p6 + 3],
        rx_df,
        tx_df,
    };
    Some((status, p6 + 12))
}

fn read_decode(b: &[u8], p: usize) -> (r: Option<(WSJTX_Decode, usize)>)
    requires
        p <= b@.len(),
    ensures
        opt_view(r) == take_decode(b@, p as int),
{
    let (id, p1) = match read_string(b, p) {
        Some(x) => x,
        None => return None,
    };
    if b.len() - p1 < 21 {
        return None;
    }
    let (time, _) = match read_u32(b, p1 + 1) {
        Some(x) => x,
        None => return None,
    };
    let (snr, _) = match read_i32(b, p1 + 5) {
        Some(x) => x,
        None => return None,
    };
    let (delta_t_bits, _) = match read_u64(b, p1 + 9) {
        Some(x) => x,
        None => return None,
    };
    let (delta_f, _) = match read_u32(b, p1 + 17) {
        Some(x) => x,
        None => return None,
    };
    let (mode, p2) = match read_string(b, p1 + 21) {
        Some(x) => x,
        None => return None,
    };
    let (message, p3) = match read_string(b, p2) {
        Some(x) => x,
        None => return None,
    };
    if b.len() - p3 < 2 {
        return None;
    }
    let decode = WSJTX_Decode {
        id,
        new: b[p1],
        time,
        snr,
        delta_t_bits,
        delta_f,
        mode,
        message,
        low_confidence: b[p3],
        off_air: b[p3 + 1],
    };
    Some((decode, p3 + 2))
}

fn read_logged_adif(b: &[u8], p: usize) -> (r: Option<(WSJTX_LoggedADIF, usize)>)
    requires
        p <= b@.len(),
    ensures
        opt_view(r) == take_logged_adif(b@, p as int),
{
    let (id, p1) = match read_string(b, p) {
        Some(x) => x,
        None => return None,
    };
    let (adif_text, p2) = match read_string(b, p1) {
        Some(x) => x,
        None => return None,
    };
    Some((WSJTX_LoggedADIF { id, adif_text }, p2))
}

// ---------------------------------------------------------------------------
// Whole datagrams.
// ---------------------------------------------------------------------------

/// A WSJT-X message, by tag. Only the first three and the logged-ADIF message
/// carry fields; the others are recognised and carry nothing further here.
#[derive(Debug)]
pub enum WSJTXMsg {
    Heartbeat(WSJTX_Heartbeat),
    Status(WSJTX_Status),
    Decode(WSJTX_Decode),
    Clear,
    Reply,
    QSOLogged,
    Close,
    Replay,
    HaltTx,
    FreeText,
    WSPRDecode,
    Location,
    LoggedADIF(WSJTX_LoggedADIF),
    HighlightCallsign,
    SwitchConfiguration,
    Configure,
}

pub enum MsgModel {
    Heartbeat(HeartbeatModel),
    Status(StatusModel),
    Decode(DecodeModel),
    Clear,
    Reply,
    QSOLogged,
    Close,
    Replay,
    HaltTx,
    FreeText,
    WSPRDecode,
    Location,
    LoggedADIF(LoggedAdifModel),
    HighlightCallsign,
    SwitchConfiguration,
    Configure,
}

impl View for WSJTXMsg {
    type V = MsgModel;

    open spec fn view(&self) -> MsgModel {
        match self {
            WSJTXMsg::Heartbeat(m) => MsgModel::Heartbeat(m@),
            WSJTXMsg::Status(m) => MsgModel::Status(m@),
            WSJTXMsg::Decode(m) => MsgModel::Decode(m@),
            WSJTXMsg::Clear => MsgModel::Clear,
            WSJTXMsg::Reply => MsgModel::Reply,
            WSJTXMsg::QSOLogged => MsgModel::QSOLogged,
            WSJTXMsg::Close => MsgModel::Close,
            WSJTXMsg::Replay => MsgModel::Replay,
            WSJTXMsg::HaltTx => MsgModel::HaltTx,
            WSJTXMsg::FreeText => MsgModel::FreeText,
            WSJTXMsg::WSPRDecode => MsgModel::WSPRDecode,
            WSJTXMsg::Location => MsgModel::Location,
            WSJTXMsg::LoggedADIF(m) => MsgModel::LoggedADIF(m@),
            WSJTXMsg::HighlightCallsign => MsgModel::HighlightCallsign,
            WSJTXMsg::SwitchConfiguration => MsgModel::SwitchConfiguration,
            WSJTXMsg::Configure => MsgModel::Configure,
        }
    }
}

/// A decoded datagram: its header and its message.
#[derive(Debug)]
pub struct WSJTXData {
    pub magic: u32,
    pub schema: u32,
    pub msg: WSJTXMsg,
}

pub struct DataModel {
    pub magic: u32,
    pub schema: u32,
    pub msg: MsgModel,
}

impl View for WSJTXData {
    type V = DataModel;

    open spec fn view(&self) -> DataModel {
        DataModel { magic: self.magic, schema: self.schema, msg: self.msg@ }
    }
}

/// Why a datagram was not accepted, or its contact not passed on. Each variant
/// carries a message for the operator.
#[derive(Debug)]
pub enum WSJTXError {
    DatagramTooShort(String),
    DeserializationFailure(String),
    BadMagic(String),
    UnsupportedSchema(String),
    QSOUploadFailed(String),
}

/// The text that reports an error: its kind, then its message.
pub open spec fn error_text(e: WSJTXError) -> Seq<char> {
    match e {
        WSJTXError::DatagramTooShort(m) => "DatagramTooShort: "@ + m@,
        WSJTXError::DeserializationFailure(m) => "DeserializationFailure: "@ + m@,
        WSJTXError::BadMagic(m) => "BadMagic: "@ + m@,
        WSJTXError::UnsupportedSchema(m) => "UnsupportedSchema: "@ + m@,
        WSJTXError::QSOUploadFailed(m) => "QSOUploadFailed: "@ + m@,
    }
}

impl WSJTXError {
    /// The error as an operator reads it: its kind, then its message.
    pub fn to_text(&self) -> (r: String)
        ensures
            r@ == error_text(*self),
    {
        let (mut s, m) = match self {
            WSJTXError::DatagramTooShort(m) => (String::from_str("DatagramTooShort: "), m),
            WSJTXError::DeserializationFailure(m) => (String::from_str("DeserializationFailure: "), m),
            WSJTXError::BadMagic(m) => (String::from_str("BadMagic: "), m),
            WSJTXError::UnsupportedSchema(m) => (String::from_str("UnsupportedSchema: "), m),
            WSJTXError::QSOUploadFailed(m) => (String::from_str("QSOUploadFailed: "), m),
        };
        s.append(m.as_str());
        s
    }
}

/// The reasons a datagram fails to decode, with the values they report.
pub enum WireFault {
    DatagramTooShort,
    DeserializationFailure,
    BadMagic(u32),
    UnsupportedSchema(u32),
}

pub open spec fn fault_message(f: WireFault) -> Seq<char> {
    match f {
        WireFault::DatagramTooShort => "Datagram too short for WSJTX header"@,
        WireFault::DeserializationFailure => "Couldn't deserialize datagram into WSJTX header"@,
        WireFault::BadMagic(m) => "Bad magic: "@ + decimal(m as nat),
        WireFault::UnsupportedSchema(v) => "Schema: "@ + decimal(v as nat)
            + "; only schema 2 so far"@,
    }
}

/// `e` is the error that reports fault `f`.
pub open spec fn reports(e: WSJTXError, f: WireFault) -> bool {
    match f {
        WireFault::DatagramTooShort => e matches WSJTXError::DatagramTooShort(m) && m@
            == fault_message(f),
        WireFault::DeserializationFailure => e matches WSJTXError::DeserializationFailure(m) && m@
            == fault_message(f),
        WireFault::BadMagic(_) => e matches WSJTXError::BadMagic(m) && m@ == fault_message(f),
        WireFault::UnsupportedSchema(_) => e matches WSJTXError::UnsupportedSchema(m) && m@
            == fault_message(f),
    }
}

/// The message with tag `tag` whose payload starts at `p`.
pub open spec fn take_msg(b: Seq<u8>, tag: u32, p: int) -> Option<MsgModel> {
    if tag == 0 {
        match take_heartbeat(b, p) {
            Some((m, _)) => Some(MsgModel::Heartbeat(m)),
            None => None,
        }
    } else if tag == 1 {
        match take_status(b, p) {
            Some((m, _)) => Some(MsgModel::Status(m)),
            None => None,
        }
    } else if tag == 2 {
        match take_decode(b, p) {
            Some((m, _)) => Some(MsgModel::Decode(m)),
            None => None,
        }
    } else if tag == 3 {
        Some(MsgModel::Clear)
    } else if tag == 4 {
        Some(MsgModel::Reply)
    } else if tag == 5 {
        Some(MsgModel::QSOLogged)
    } else if tag == 6 {
        Some(MsgModel::Close)
    } else if tag == 7 {
        Some(MsgModel::Replay)
    } else if tag == 8 {
        Some(MsgModel::HaltTx)
    } else if tag == 9 {
        Some(MsgModel::FreeText)
    } else if tag == 10 {
        Some(MsgModel::WSPRDecode)
    } else if tag == 11 {
        Some(MsgModel::Location)
    } else if tag == 12 {
        match take_logged_adif(b, p) {
            Some((m, _)) => Some(MsgModel::LoggedADIF(m)),
            None => None,
        }
    } else if tag == 13 {
        Some(MsgModel::HighlightCallsign)
    } else if tag == 14 {
        Some(MsgModel::SwitchConfiguration)
    } else if tag == 15 {
        Some(MsgModel::Configure)
    } else {
        None
    }
}

/// What a datagram decodes to. The header is checked before the payload is
/// read: length first, then the magic marker, then the schema.
pub open spec fn decode_spec(b: Seq<u8>) -> Result<DataModel, WireFault> {
    if b.len() < SZ_HDR {
        Err(WireFault::DatagramTooShort)
    } else if be_u32(b, 0) != WSJTX_MAGIC {
        Err(WireFault::BadMagic(be_u32(b, 0)))
    } else if be_u32(b, 4) != WSJTX_SCHEMA {
        Err(WireFault::UnsupportedSchema(be_u32(b, 4)))
    } else {
        match take_msg(b, be_u32(b, 8), SZ_HDR as int) {
            Some(msg) => Ok(DataModel { magic: be_u32(b, 0), schema: be_u32(b, 4), msg }),
            None => Err(WireFault::DeserializationFailure),
        }
    }
}

fn read_msg(b: &[u8], tag: u32, p: usize) -> (r: Option<WSJTXMsg>)
    requires
        p <= b@.len(),
    ensures
        match take_msg(b@, tag, p as int) {
            Some(m) => r matches Some(msg) && msg@ == m,
            None => r is None,
        },
{
    match tag {
        0 => match read_heartbeat(b, p) {
            Some((m, _)) => Some(WSJTXMsg::Heartbeat(m)),
            None => None,
        },
        1 => match read_status(b, p) {
            Some((m, _)) => Some(WSJTXMsg::Status(m)),
            None => None,
        },
        2 => match read_decode(b, p) {
            Some((m, _)) => Some(WSJTXMsg::Decode(m)),
            None => None,
        },
        3 => Some(WSJTXMsg::Clear),
        4 => Some(WSJTXMsg::Reply),
        5 => Some(WSJTXMsg::QSOLogged),
        6 => Some(WSJTXMsg::Close),
        7 => Some(WSJTXMsg::Replay),
        8 => Some(WSJTXMsg::HaltTx),
        9 => Some(WSJTXMsg::FreeText),
        10 => Some(WSJTXMsg::WSPRDecode),
        11 => Some(WSJTXMsg::Location),
        12 => match read_logged_adif(b, p) {
            Some((m, _)) => Some(WSJTXMsg::LoggedADIF(m)),
            None => None,
        },
        13 => Some(WSJTXMsg::HighlightCallsign),
        14 => Some(WSJTXMsg::SwitchConfiguration),
        15 => Some(WSJTXMsg::Configure),
        _ => None,
    }
}

/// Decodes one WSJT-X datagram: checks its length, magic marker and schema,
/// then reads the message that its tag selects. Bytes after the message are
/// ignored.
pub fn decode_hdr(buf: &[u8]) -> (r: Result<WSJTXData, WSJTXError>)
    ensures
        match decode_spec(buf@) {
            Ok(d) => r matches Ok(data) && data@ == d,
            Err(f) => r matches Err(e) && reports(e, f),
        },
{
    if buf.len() < SZ_HDR {
        return Err(WSJTXError::DatagramTooShort(String::from_str("Datagram too short for WSJTX header")));
    }
    let magic = be_u32_at(buf, 0);
    if magic != WSJTX_MAGIC {
        let mut m = String::from_str("Bad magic: ");
        push_decimal(&mut m, magic as u64);
        return Err(WSJTXError::BadMagic(m));
    }
    let schema = be_u32_at(buf, 4);
    if schema != WSJTX_SCHEMA {
        let mut m = String::from_str("Schema: ");
        push_decimal(&mut m, schema as u64);
        m.append("; only schema 2 so far");
        return Err(WSJTXError::UnsupportedSchema(m));
    }
    let tag = be_u32_at(buf, 8);
    match read_msg(buf, tag, SZ_HDR) {
        Some(msg) => Ok(WSJTXData { magic, schema, msg }),
        None => Err(
            WSJTXError::DeserializationFailure(
                String::from_str("Couldn't deserialize datagram into WSJTX header"),
            ),
        ),
    }
}

// ---------------------------------------------------------------------------
// Laws of the format.
// ---------------------------------------------------------------------------

/// The four big-endian bytes of `v`.
pub open spec fn be_bytes(v: u32) -> Seq<u8> {
    seq![
        (v / 0x100_0000) as u8,
        ((v / 0x1_0000) % 0x100) as u8,
        ((v / 0x100) % 0x100) as u8,
        (v % 0x100) as u8,
    ]
}

/// A string as it stands on the wire: its UTF-8 byte count, then the bytes.
pub open spec fn string_field(s: Seq<char>) -> Seq<u8> {
    be_bytes(encode_utf8(s).len() as u32) + encode_utf8(s)
}

/// A logged-ADIF datagram with the given instance id and ADIF text.
pub open spec fn logged_adif_datagram(id: Seq<char>, adif_text: Seq<char>) -> Seq<u8> {
    be_bytes(WSJTX_MAGIC) + be_bytes(WSJTX_SCHEMA) + be_bytes(12) + string_field(id) + string_field(
        adif_text,
    )
}

proof fn lemma_be_u32_of_bytes(b: Seq<u8>, p: int, v: u32)
    requires
        0 <= p,
        p + 4 <= b.len(),
        b.subrange(p, p + 4) == be_bytes(v),
    ensures
        be_u32(b, p) == v,
{
    assert(b[p] == be_bytes(v)[0]);
    assert(b[p + 1] == be_bytes(v)[1]);
    assert(b[p + 2] == be_bytes(v)[2]);
    assert(b[p + 3] == be_bytes(v)[3]);
    let x = v as int;
    assert(x == (x / 0x100_0000) * 0x100_0000 + ((x / 0x1_0000) % 0x100) * 0x1_0000 + ((x / 0x100)
        % 0x100) * 0x100 + x % 0x100) by (nonlinear_arith)
        requires
            0 <= x < 0x1_0000_0000,
    ;
}

proof fn lemma_take_string_of_field(b: Seq<u8>, p: int, s: Seq<char>)
    requires
        0 <= p,
        encode_utf8(s).len() <= u32::MAX,
        p + string_field(s).len() <= b.len(),
        b.subrange(p, p + string_field(s).len()) == string_field(s),
    ensures
        take_string(b, p) == Some((s, p + string_field(s).len())),
{
    let e = encode_utf8(s);
    let f = string_field(s);
    assert(b.subrange(p, p + 4) =~= f.subrange(0, 4));
    assert(f.subrange(0, 4) =~= be_bytes(e.len() as u32));
    lemma_be_u32_of_bytes(b, p, e.len() as u32);
    assert(f.subrange(4, 4 + e.len() as int) =~= e);
    assert(b.subrange(p + 4, p + 4 + e.len()) =~= f.subrange(4, 4 + e.len() as int));
    vstd::utf8::encode_utf8_valid_utf8(s);
    vstd::utf8::encode_utf8_decode_utf8(s);
}

/// A logged-ADIF datagram with the right magic marker and schema decodes to a
/// logged contact whose ADIF text, and instance id, are those that were
/// encoded, whatever text it holds.
pub proof fn logged_adif_round_trip(id: Seq<char>, adif_text: Seq<char>)
    requires
        encode_utf8(id).len() <= u32::MAX,
        encode_utf8(adif_text).len() <= u32::MAX,
    ensures
        decode_spec(logged_adif_datagram(id, adif_text)) matches Ok(d) && d.msg matches MsgModel::LoggedADIF(m)
            && m.adif_text == adif_text && m.id == id,
{
    let b = logged_adif_datagram(id, adif_text);
    let fi = string_field(id);
    let ft = string_field(adif_text);
    assert(b.subrange(0, 4) =~= be_bytes(WSJTX_MAGIC));
    assert(b.subrange(4, 8) =~= be_bytes(WSJTX_SCHEMA));
    assert(b.subrange(8, 12) =~= be_bytes(12));
    lemma_be_u32_of_bytes(b, 0, WSJTX_MAGIC);
    lemma_be_u32_of_bytes(b, 4, WSJTX_SCHEMA);
    lemma_be_u32_of_bytes(b, 8, 12);
    let li = fi.len() as int;
    let lt = ft.len() as int;
    assert(b.subrange(12, 12 + li) =~= fi);
    lemma_take_string_of_field(b, 12, id);
    assert(b.subrange(12 + li, 12 + li + lt) =~= ft);
    lemma_take_string_of_field(b, 12 + li, adif_text);
}

/// The header is checked in order: a datagram shorter than the header is too
/// short; one with another magic marker is rejected for it; one with the right
/// marker and another schema is rejected for that.
pub proof fn header_rejections(b: Seq<u8>)
    ensures
        b.len() < SZ_HDR ==> decode_spec(b) == Err::<DataModel, WireFault>(
            WireFault::DatagramTooShort,
        ),
        b.len() >= SZ_HDR && be_u32(b, 0) != WSJTX_MAGIC ==> decode_spec(b) == Err::<
            DataModel,
            WireFault,
        >(WireFault::BadMagic(be_u32(b, 0))),
        b.len() >= SZ_HDR && be_u32(b, 0) == WSJTX_MAGIC && be_u32(b, 4) != WSJTX_SCHEMA
            ==> decode_spec(b) == Err::<DataModel, WireFault>(
            WireFault::UnsupportedSchema(be_u32(b, 4)),
        ),
{
}

// ---------------------------------------------------------------------------
// Messages as an operator reads them.
// ---------------------------------------------------------------------------

pub open spec fn heartbeat_text(h: HeartbeatModel) -> Seq<char> {
    "Heartbeat id:"@ + h.id + " max_schema_num:"@ + decimal(h.max_schema_num as nat) + " version:"@
        + h.version + " revision:"@ + decimal(h.revision as nat)
}

pub open spec fn status_text(m: StatusModel) -> Seq<char> {
    "Status id: "@ + m.id + " dial_frequency_hz: "@ + decimal(m.dial_frequency_hz as nat)
        + " mode: "@ + m.mode + " dxcall: "@ + m.dx_call + " report: "@ + m.report + " tx_mode: "@
        + m.tx_mode + " tx_enabled: "@ + decimal(m.tx_enabled as nat) + " transmitting: "@
        + decimal(m.transmitting as nat) + " decoding: "@ + decimal(m.decoding as nat)
        + " rx_df: "@ + decimal(m.rx_df as nat) + " tx_df: "@ + decimal(m.tx_df as nat)
}

/// `delta_t` is the text of the decode's time offset in seconds.
pub open spec fn decode_text(m: DecodeModel, delta_t: Seq<char>) -> Seq<char> {
    "Decode: id: "@ + m.id + " new: "@ + decimal(m.new as nat) + " time: "@ + decimal(
        m.time as nat,
    ) + " snr: "@ + signed_decimal(m.snr as int) + " delta_t: "@ + delta_t + " delta_f: "@
        + decimal(m.delta_f as nat) + " mode: "@ + m.mode + " message: "@ + m.message
        + " low_confidence: "@ + decimal(m.low_confidence as nat) + " off_air: "@ + decimal(
        m.off_air as nat,
    )
}

pub open spec fn logged_adif_text(m: LoggedAdifModel) -> Seq<char> {
    "LoggedADIF: Logged id: "@ + m.id + " ADIF text: "@ + m.adif_text
}

/// The text of a message; `delta_t` is used by a decode message only.
pub open spec fn msg_text(m: MsgModel, delta_t: Seq<char>) -> Seq<char> {
    match m {
        MsgModel::Heartbeat(h) => heartbeat_text(h),
        MsgModel::Status(st) => status_text(st),
        MsgModel::Decode(d) => decode_text(d, delta_t),
        MsgModel::Clear => "Clear"@,
        MsgModel::Reply => "Reply"@,
        MsgModel::QSOLogged => "QSO Logged"@,
        MsgModel::Close => "Close"@,
        MsgModel::Replay => "Replay"@,
        MsgModel::HaltTx => "Halt Tx"@,
        MsgModel::FreeText => "Free Text"@,
        MsgModel::WSPRDecode => "WSPR Decode"@,
        MsgModel::Location => "Location"@,
        MsgModel::LoggedADIF(l) => logged_adif_text(l),
        MsgModel::HighlightCallsign => "Highlight Callsign"@,
        MsgModel::SwitchConfiguration => "Switch Configuration"@,
        MsgModel::Configure => "Configure"@,
    }
}

impl WSJTX_Heartbeat {
    pub fn to_text(&self) -> (r: String)
        ensures
            r@ == heartbeat_text(self@),
    {
        let mut s = String::from_str("Heartbeat id:");
        s.append(self.id.as_str());
        s.append(" max_schema_num:");
        push_decimal(&mut s, self.max_schema_num as u64);
        s.append(" version:");
        s.append(self.version.as_str());
        s.append(" revision:");
        push_decimal(&mut s, self.revision as u64);
        s
    }
}

impl WSJTX_Status {
    pub fn to_text(&self) -> (r: String)
        ensures
            r@ == status_text(self@),
    {
        let mut s = String::from_str("Status id: ");
        s.append(self.id.as_str());
        s.append(" dial_frequency_hz: ");
        push_decimal(&mut s, self.dial_frequency_hz);
        s.append(" mode: ");
        s.append(self.mode.as_str());
        s.append(" dxcall: ");
        s.append(self.dx_call.as_str());
        s.append(" report: ");
        s.append(self.report.as_str());
        s.append(" tx_mode: ");
        s.append(self.tx_mode.as_str());
        s.append(" tx_enabled: ");
        push_decimal(&mut s, self.tx_enabled as u64);
        s.append(" transmitting: ");
        push_decimal(&mut s, self.transmitting as u64);
        s.append(" decoding: ");
        push_decimal(&mut s, self.decoding as u64);
        s.append(" rx_df: ");
        push_decimal(&mut s, self.rx_df as u64);
        s.append(" tx_df: ");
        push_decimal(&mut s, self.tx_df as u64);
        s
    }
}

impl WSJTX_Decode {
    /// The decode as text, with `delta_t` standing for its time offset: the
    /// offset is a floating-point value, which the caller formats.
    pub fn to_text(&self, delta_t: &str) -> (r: String)
        ensures
            r@ == decode_text(self@, delta_t@),
    {
        let mut s = String::from_str("Decode: id: ");
        s.append(self.id.as_str());
        s.append(" new: ");
        push_decimal(&mut s, self.new as u64);
        s.append(" time: ");
        push_decimal(&mut s, self.time as u64);
        s.append(" snr: ");
        push_signed_decimal(&mut s, self.snr);
        s.append(" delta_t: ");
        s.append(delta_t);
        s.append(" delta_f: ");
        push_decimal(&mut s, self.delta_f as u64);
        s.append(" mode: ");
        s.append(self.mode.as_str());
        s.append(" message: ");
        s.append(self.message.as_str());
        s.append(" low_confidence: ");
        push_decimal(&mut s, self.low_confidence as u64);
        s.append(" off_air: ");
        push_decimal(&mut s, self.off_air as u64);
        s
    }
}

impl WSJTX_LoggedADIF {
    pub fn to_text(&self) -> (r: String)
        ensures
            r@ == logged_adif_text(self@),
    {
        let mut s = String::from_str("LoggedADIF: Logged id: ");
        s.append(self.id.as_str());
        s.append(" ADIF text: ");
        s.append(self.adif_text.as_str());
        s
    }
}

impl WSJTXMsg {
    /// The message as an operator reads it. `delta_t` is the text of a decode
    /// message's time offset, and is not used for other messages.
    pub fn to_text(&self, delta_t: &str) -> (r: String)
        ensures
            r@ == msg_text(self@, delta_t@),
    {
        match self {
            WSJTXMsg::Heartbeat(m) => m.to_text(),
            WSJTXMsg::Status(m) => m.to_text(),
            WSJTXMsg::Decode(m) => m.to_text(delta_t),
            WSJTXMsg::Clear => String::from_str("Clear"),
            WSJTXMsg::Reply => String::from_str("Reply"),
            WSJTXMsg::QSOLogged => String::from_str("QSO Logged"),
            WSJTXMsg::Close => String::from_str("Close"),
            WSJTXMsg::Replay => String::from_str("Replay"),
            WSJTXMsg::HaltTx => String::from_str("Halt Tx"),
            WSJTXMsg::FreeText => String::from_str("Free Text"),
            WSJTXMsg::WSPRDecode => String::from_str("WSPR Decode"),
            WSJTXMsg::Location => String::from_str("Location"),
            WSJTXMsg::LoggedADIF(m) => m.to_text(),
            WSJTXMsg::HighlightCallsign => String::from_str("Highlight Callsign"),
            WSJTXMsg::SwitchConfiguration => String::from_str("Switch Configuration"),
            WSJTXMsg::Configure => String::from_str("Configure"),
        }
    }
}

} // verus!
