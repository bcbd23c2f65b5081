use vstd::prelude::*;
use vstd::string::{StrSliceExecFns, StringExecFns};

use crate::bandplan::{in_ft8_window, is_ft8};
use crate::flrig::{mode_label, Mode};
use crate::text::{decimal, parse_u64_range, parse_u64_spec, push_decimal, str_equal};

verus! {

/// Where to listen for QSY requests, and which mode names the rig uses.
pub struct CatSettings {
    pub host: String,
    pub port: u16,
    /// The rig names CW, RTTY and data modes with an explicit sideband.
    pub yaesu: bool,
}

/// The coarse mode that a Wavelog bandmap click asks for.
#[allow(clippy::upper_case_acronyms)]
#[derive(Debug, Clone, Copy, PartialEq, Eq, Structural)]
pub enum WavelogMode {
    Cw,
    Phone,
    LSB,
    USB,
    Digi,
    Rtty,
}

/// The mode named by a request token, if any.
pub open spec fn mode_of_token(s: Seq<char>) -> Option<WavelogMode> {
    if s == seq!['c', 'w'] {
        Some(WavelogMode::Cw)
    } else if s == seq!['p', 'h', 'o', 'n', 'e'] {
        Some(WavelogMode::Phone)
    } else if s == seq!['l', 's', 'b'] {
        Some(WavelogMode::LSB)
    } else if s == seq!['u', 's', 'b'] {
        Some(WavelogMode::USB)
    } else if s == seq!['d', 'i', 'g', 'i'] {
        Some(WavelogMode::Digi)
    } else if s == seq!['r', 't', 't', 'y'] {
        Some(WavelogMode::Rtty)
    } else {
        None
    }
}

impl WavelogMode {
    /// The mode named by a request token; tokens are lower case.
    pub fn from_token(s: &str) -> (r: Option<WavelogMode>)
        ensures
            r == mode_of_token(s@),
    {
        proof {
            reveal_strlit("cw");
            reveal_strlit("phone");
            reveal_strlit("lsb");
            reveal_strlit("usb");
            reveal_strlit("digi");
            reveal_strlit("rtty");
            assert("cw"@ =~= seq!['c', 'w']);
            assert("phone"@ =~= seq!['p', 'h', 'o', 'n', 'e']);
            assert("lsb"@ =~= seq!['l', 's', 'b']);
            assert("usb"@ =~= seq!['u', 's', 'b']);
            assert("digi"@ =~= seq!['d', 'i', 'g', 'i']);
            assert("rtty"@ =~= seq!['r', 't', 't', 'y']);
        }
        if str_equal(s, "cw") {
            Some(WavelogMode::Cw)
        } else if str_equal(s, "phone") {
            Some(WavelogMode::Phone)
        } else if str_equal(s, "lsb") {
            Some(WavelogMode::LSB)
        } else if str_equal(s, "usb") {
            Some(WavelogMode::USB)
        } else if str_equal(s, "digi") {
            Some(WavelogMode::Digi)
        } else if str_equal(s, "rtty") {
            Some(WavelogMode::Rtty)
        } else {
            None
        }
    }
}

/// A validated QSY request: a frequency in whole hertz and a coarse mode.
#[derive(Debug, Clone, Copy, PartialEq, Eq, Structural)]
pub struct Qsy {
    pub freq: u64,
    pub mode: WavelogMode,
}

/// Why a QSY request path was refused.
#[derive(Debug, Clone, Copy, PartialEq, Eq, Structural)]
pub enum QsyError {
    /// The path is not of the form `/<freq>/<mode>`.
    BadPath,
    /// The frequency is not a non-negative integer that fits in 64 bits.
    BadFrequency,
    /// The mode token is not one of the known ones.
    BadMode,
}

pub open spec fn qsy_error_message(e: QsyError) -> Seq<char> {
    match e {
        QsyError::BadPath => "Expected /<freq>/<mode>"@,
        QsyError::BadFrequency => "Frequency must be a positive integer"@,
        QsyError::BadMode => "Invalid mode"@,
    }
}

impl QsyError {
    /// The text that the requester is shown.
    pub fn message(&self) -> (r: &'static str)
        ensures
            r@ == qsy_error_message(*self),
    {
        match self {
            QsyError::BadPath => "Expected /<freq>/<mode>",
            QsyError::BadFrequency => "Frequency must be a positive integer",
            QsyError::BadMode => "Invalid mode",
        }
    }
}

/// `s` without its leading slashes.
pub open spec fn strip_slashes(s: Seq<char>) -> Seq<char>
    decreases s.len(),
{
    if s.len() > 0 && s[0] == '/' {
        strip_slashes(s.drop_first())
    } else {
        s
    }
}

pub open spec fn no_slash(s: Seq<char>) -> bool {
    forall|i: int| 0 <= i < s.len() ==> s[i] != '/'
}

/// Position `i` holds the only slash of `t`, which thus splits into two parts.
pub open spec fn single_slash_at(t: Seq<char>, i: int) -> bool {
    &&& 0 <= i < t.len()
    &&& t[i] == '/'
    &&& no_slash(t.subrange(0, i))
    &&& no_slash(t.subrange(i + 1, t.len() as int))
}

/// The request that a path of the form `/<freq>/<mode>` makes. Leading slashes
/// are dropped; what remains must split at `/` into exactly two parts.
pub open spec fn qsy_of_path(path: Seq<char>) -> Result<Qsy, QsyError> {
    let t = strip_slashes(path);
    if exists|i: int| single_slash_at(t, i) {
        let i = choose|i: int| single_slash_at(t, i);
        match parse_u64_spec(t.subrange(0, i)) {
            None => Err(QsyError::BadFrequency),
            Some(freq) => match mode_of_token(t.subrange(i + 1, t.len() as int)) {
                None => Err(QsyError::BadMode),
                Some(mode) => Ok(Qsy { freq, mode }),
            },
        }
    } else {
        Err(QsyError::BadPath)
    }
}

/// The first slash in `s` at or after `from`, or the length of `s`.
fn find_slash(s: &str, from: usize) -> (r: usize)
    requires
        from <= s@.len(),
    ensures
        from <= r <= s@.len(),
        forall|k: int| from <= k < r ==> s@[k] != '/',
        r < s@.len() ==> s@[r as int] == '/',
{
    let n = s.unicode_len();
    let mut k = from;
    while k < n
        invariant
            n == s@.len(),
            from <= k <= n,
            forall|j: int| from <= j < k ==> s@[j] != '/',
        decreases n - k,
    {
        if s.get_char(k) == '/' {
            return k;
        }
        k = k + 1;
    }
    k
}

/// Parses a QSY request path such as `/14030000/cw`.
pub fn parse_qsy_path(path: &str) -> (r: Result<Qsy, QsyError>)
    ensures
        r == qsy_of_path(path@),
{
    let n = path.unicode_len();
    let mut k: usize = 0;
    assert(path@.subrange(0, n as int) =~= path@);
    while k < n && path.get_char(k) == '/'
        invariant
            n == path@.len(),
            k <= n,
            strip_slashes(path@) == strip_slashes(path@.subrange(k as int, n as int)),
        decreases n - k,
    {
        assert(path@.subrange(k as int, n as int).drop_first() =~= path@.subrange(
            k + 1,
            n as int,
        ));
        k = k + 1;
    }
    let ghost t = path@.subrange(k as int, n as int);
    assert(strip_slashes(path@) == t);
    let i = find_slash(path, k);
    if i == n {
        assert forall|x: int| !single_slash_at(t, x) by {
            if 0 <= x < t.len() {
                assert(t[x] == path@[k + x]);
            }
        }
        return Err(QsyError::BadPath);
    }
    let j = find_slash(path, i + 1);
    let ghost at = i - k;
    if j < n {
        assert forall|x: int| !single_slash_at(t, x) by {
            if single_slash_at(t, x) {
                if x < at {
                    assert(t[x] == path@[k + x]);
                } else if x > at {
                    assert(t.subrange(0, x)[at] == path@[i as int]);
                } else {
                    assert(t.subrange(x + 1, t.len() as int)[j - i - 1] == path@[j as int]);
                }
            }
        }
        return Err(QsyError::BadPath);
    }
    let ghost head = t.subrange(0, at);
    let ghost rest = t.subrange(at + 1, t.len() as int);
    assert(single_slash_at(t, at)) by {
        assert forall|y: int| 0 <= y < head.len() implies #[trigger] head[y] != '/' by {
            assert(head[y] == path@[k + y]);
        }
        assert forall|y: int| 0 <= y < rest.len() implies #[trigger] rest[y] != '/' by {
            assert(rest[y] == path@[i + 1 + y]);
        }
    }
    let ghost c = choose|x: int| single_slash_at(t, x);
    assert(c == at) by {
        if c < at {
            assert(t.subrange(0, at)[c] == t[c]);
        } else if c > at {
            assert(t.subrange(0, c)[at] == t[at]);
        }
    }
    assert(t.subrange(0, at) =~= path@.subrange(k as int, i as int));
    assert(t.subrange(at + 1, t.len() as int) =~= path@.subrange(i + 1, n as int));
    let freq = match parse_u64_range(path, k, i) {
        Some(f) => f,
        None => return Err(QsyError::BadFrequency),
    };
    let token = path.substring_char(i + 1, n);
    match WavelogMode::from_token(token) {
        Some(mode) => Ok(Qsy { freq, mode }),
        None => Err(QsyError::BadMode),
    }
}

/// The generic FLRig mode for a click at `freq` asking for `mode`. In an FT8
/// window the frequency decides; phone follows the sideband convention (LSB
/// below 10 MHz, USB from there up); an explicit sideband is kept as asked; other
/// digital modes become RTTY.
pub open spec fn generic_mode(freq: int, mode: WavelogMode) -> Mode {
    if in_ft8_window(freq) {
        Mode::D_USB
    } else {
        match mode {
            WavelogMode::Cw => Mode::CW,
            WavelogMode::Phone => if freq < 10_000_000 {
                Mode::LSB
            } else {
                Mode::USB
            },
            WavelogMode::LSB => Mode::LSB,
            WavelogMode::USB => Mode::USB,
            WavelogMode::Digi => Mode::RTTY,
            WavelogMode::Rtty => Mode::RTTY,
        }
    }
}

/// As `generic_mode`, for rigs whose CW, RTTY and data modes carry an explicit
/// sideband.
pub open spec fn yaesu_mode(freq: int, mode: WavelogMode) -> Mode {
    if in_ft8_window(freq) {
        Mode::DATA_U
    } else {
        match mode {
            WavelogMode::Cw => Mode::CW_U,
            WavelogMode::Phone => if freq < 10_000_000 {
                Mode::LSB
            } else {
                Mode::USB
            },
            WavelogMode::LSB => Mode::LSB,
            WavelogMode::USB => Mode::USB,
            WavelogMode::Digi => Mode::RTTY_U,
            WavelogMode::Rtty => Mode::RTTY_U,
        }
    }
}

pub open spec fn translate_spec(freq: int, mode: WavelogMode, yaesu: bool) -> Mode {
    if yaesu {
        yaesu_mode(freq, mode)
    } else {
        generic_mode(freq, mode)
    }
}

/// The generic FLRig mode for a bandmap click at `freq` Hz asking for `mode`.
pub fn wavelog_to_flrig_mode(freq: u64, mode: WavelogMode) -> (r: Mode)
    ensures
        r == generic_mode(freq as int, mode),
{
    if is_ft8(freq) {
        Mode::D_USB
    } else {
        match mode {
            WavelogMode::Cw => Mode::CW,
            WavelogMode::Phone => if freq < 10_000_000 {
                Mode::LSB
            } else {
                Mode::USB
            },
            WavelogMode::LSB => Mode::LSB,
            WavelogMode::USB => Mode::USB,
            WavelogMode::Digi => Mode::RTTY,
            WavelogMode::Rtty => Mode::RTTY,
        }
    }
}

/// The FLRig mode, with explicit sidebands, for a bandmap click at `freq` Hz
/// asking for `mode`.
pub fn wavelog_to_yaesu_flrig_mode(freq: u64, mode: WavelogMode) -> (r: Mode)
    ensures
        r == yaesu_mode(freq as int, mode),
{
    if is_ft8(freq) {
        Mode::DATA_U
    } else {
        match mode {
            WavelogMode::Cw => Mode::CW_U,
            WavelogMode::Phone => if freq < 10_000_000 {
                Mode::LSB
            } else {
                Mode::USB
            },
            WavelogMode::LSB => Mode::LSB,
            WavelogMode::USB => Mode::USB,
            WavelogMode::Digi => Mode::RTTY_U,
            WavelogMode::Rtty => Mode::RTTY_U,
        }
    }
}

/// The FLRig mode for a bandmap click, in the naming that the rig uses. Inside
/// an FT8 window the digital upper-sideband mode is chosen whatever was asked.
pub fn translate(freq: u64, mode: WavelogMode, yaesu: bool) -> (r: Mode)
    ensures
        r == translate_spec(freq as int, mode, yaesu),
        in_ft8_window(freq as int) ==> r == (if yaesu {
            Mode::DATA_U
        } else {
            Mode::D_USB
        }),
{
    if yaesu {
        wavelog_to_yaesu_flrig_mode(freq, mode)
    } else {
        wavelog_to_flrig_mode(freq, mode)
    }
}

/// On 40 m outside the FT8 window, phone is lower sideband, while an explicit
/// request for upper sideband stays upper sideband.
pub proof fn forty_metre_phone_is_lsb(freq: int, yaesu: bool)
    requires
        7_000_000 <= freq <= 7_200_000,
        !in_ft8_window(freq),
    ensures
        translate_spec(freq, WavelogMode::Phone, yaesu) == Mode::LSB,
        translate_spec(freq, WavelogMode::USB, yaesu) == Mode::USB,
{
}

/// The JSON body that answers a successful QSY.
pub open spec fn qsy_response_json(freq: u64, mode: Mode, rig: Seq<char>) -> Seq<char> {
    "{\n    \"status\": \"ok\",\n    \"connected\": true,\n    \"frequency\": "@ + decimal(freq as nat)
        + ",\n    \"mode\": \""@ + mode_label(mode) + "\",\n    \"rig\": \""@ + rig + "\"\n}\n"@
}

/// The JSON body that answers a successful QSY to `freq` Hz in `mode` on the
/// rig named `rig`.
pub fn qsy_response_body(freq: u64, mode: Mode, rig: &str) -> (r: String)
    ensures
        r@ == qsy_response_json(freq, mode, rig@),
{
    let mut s = String::from_str("{\n    \"status\": \"ok\",\n    \"connected\": true,\n    \"frequency\": ");
    push_decimal(&mut s, freq);
    s.append(",\n    \"mode\": \"");
    s.append(mode.as_str());
    s.append("\",\n    \"rig\": \"");
    s.append(rig);
    s.append("\"\n}\n");
    s
}

/// What a QSY request path asks the rig to do: the parsed request and the
/// rig mode it translates to. The frequency is to be set before the mode.
pub fn plan_qsy(path: &str, yaesu: bool) -> (r: Result<(Qsy, Mode), QsyError>)
    ensures
        match qsy_of_path(path@) {
            Ok(q) => r == Ok::<(Qsy, Mode), QsyError>((q, translate_spec(q.freq as int, q.mode, yaesu))),
            Err(e) => r == Err::<(Qsy, Mode), QsyError>(e),
        },
{
    match parse_qsy_path(path) {
        Ok(q) => Ok((q, translate(q.freq, q.mode, yaesu))),
        Err(e) => Err(e),
    }
}

} // verus!
