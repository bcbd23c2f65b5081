use vstd::prelude::*;
use vstd::string::StringExecFns;

use crate::text::str_equal;
use crate::wavelog::RadioData;

verus! {

/// Connection and rig details for the FLRig daemon.
pub struct FlrigSettings {
    pub host: String,
    pub port: u16,
    /// Output power (W) of the rig at full scale.
    pub maxpower: u32,
    /// Narrow filter bandwidth to restore after switching to CW, if any.
    pub cwbandwidth: Option<u32>,
}

/// A rig mode as FLRig names it. The sideband-qualified forms at the end are
/// those of rigs that have no unqualified CW, RTTY or data mode.
#[allow(non_camel_case_types)]
#[derive(Debug, Clone, Copy, PartialEq, Eq, Structural)]
pub enum Mode {
    LSB,
    USB,
    AM,
    CW,
    RTTY,
    FM,
    CW_R,
    RTTY_R,
    D_LSB,
    D_USB,
    CW_U,
    CW_L,
    RTTY_U,
    RTTY_L,
    DATA_U,
    DATA_L,
}

/// The label FLRig uses for each mode.
pub open spec fn mode_label(m: Mode) -> Seq<char> {
    match m {
        Mode::LSB => seq!['L', 'S', 'B'],
        Mode::USB => seq!['U', 'S', 'B'],
        Mode::AM => seq!['A', 'M'],
        Mode::CW => seq!['C', 'W'],
        Mode::RTTY => seq!['R', 'T', 'T', 'Y'],
        Mode::FM => seq!['F', 'M'],
        Mode::CW_R => seq!['C', 'W', '-', 'R'],
        Mode::RTTY_R => seq!['R', 'T', 'T', 'Y', '-', 'R'],
        Mode::D_LSB => seq!['D', '-', 'L', 'S', 'B'],
        Mode::D_USB => seq!['D', '-', 'U', 'S', 'B'],
        Mode::CW_U => seq!['C', 'W', '-', 'U'],
        Mode::CW_L => seq!['C', 'W', '-', 'L'],
        Mode::RTTY_U => seq!['R', 'T', 'T', 'Y', '-', 'U'],
        Mode::RTTY_L => seq!['R', 'T', 'T', 'Y', '-', 'L'],
        Mode::DATA_U => seq!['D', 'A', 'T', 'A', '-', 'U'],
        Mode::DATA_L => seq!['D', 'A', 'T', 'A', '-', 'L'],
    }
}

impl Mode {
    /// The label FLRig uses for this mode.
    pub fn as_str(&self) -> (r: &'static str)
        ensures
            r@ == mode_label(*self),
    {
        match self {
            Mode::LSB => {
                proof { reveal_strlit("LSB"); }
                "LSB"
            },
            Mode::USB => {
                proof { reveal_strlit("USB"); }
                "USB"
            },
            Mode::AM => {
                proof { reveal_strlit("AM"); }
                "AM"
            },
            Mode::CW => {
                proof { reveal_strlit("CW"); }
                "CW"
            },
            Mode::RTTY => {
                proof { reveal_strlit("RTTY"); }
                "RTTY"
            },
            Mode::FM => {
                proof { reveal_strlit("FM"); }
                "FM"
            },
            Mode::CW_R => {
                proof { reveal_strlit("CW-R"); }
                "CW-R"
            },
            Mode::RTTY_R => {
                proof { reveal_strlit("RTTY-R"); }
                "RTTY-R"
            },
            Mode::D_LSB => {
                proof { reveal_strlit("D-LSB"); }
                "D-LSB"
            },
            Mode::D_USB => {
                proof { reveal_strlit("D-USB"); }
                "D-USB"
            },
            Mode::CW_U => {
                proof { reveal_strlit("CW-U"); }
                "CW-U"
            },
            Mode::CW_L => {
                proof { reveal_strlit("CW-L"); }
                "CW-L"
            },
            Mode::RTTY_U => {
                proof { reveal_strlit("RTTY-U"); }
                "RTTY-U"
            },
            Mode::RTTY_L => {
                proof { reveal_strlit("RTTY-L"); }
                "RTTY-L"
            },
            Mode::DATA_U => {
                proof { reveal_strlit("DATA-U"); }
                "DATA-U"
            },
            Mode::DATA_L => {
                proof { reveal_strlit("DATA-L"); }
                "DATA-L"
            },
        }
    }

    /// The mode whose FLRig label is exactly `s`, if any.
    pub fn from_label(s: &str) -> (r: Option<Mode>)
        ensures
            r matches Some(m) ==> mode_label(m) == s@,
            r is None ==> forall|m: Mode| mode_label(m) != s@,
    {
        let all: [Mode; 16] = [
            Mode::LSB,
            Mode::USB,
            Mode::AM,
            Mode::CW,
            Mode::RTTY,
            Mode::FM,
            Mode::CW_R,
            Mode::RTTY_R,
            Mode::D_LSB,
            Mode::D_USB,
            Mode::CW_U,
            Mode::CW_L,
            Mode::RTTY_U,
            Mode::RTTY_L,
            Mode::DATA_U,
            Mode::DATA_L,
        ];
        let mut i: usize = 0;
        while i < 16
            invariant
                i <= 16,
                forall|j: int| 0 <= j < i ==> mode_label(#[trigger] all@[j]) != s@,
            decreases 16 - i,
        {
            let m = all[i];
            if str_equal(s, m.as_str()) {
                return Some(m);
            }
            i = i + 1;
        }
        assert forall|m: Mode| mode_label(m) != s@ by {
            match m {
                Mode::LSB => assert(all@[0] == m),
                Mode::USB => assert(all@[1] == m),
                Mode::AM => assert(all@[2] == m),
                Mode::CW => assert(all@[3] == m),
                Mode::RTTY => assert(all@[4] == m),
                Mode::FM => assert(all@[5] == m),
                Mode::CW_R => assert(all@[6] == m),
                Mode::RTTY_R => assert(all@[7] == m),
                Mode::D_LSB => assert(all@[8] == m),
                Mode::D_USB => assert(all@[9] == m),
                Mode::CW_U => assert(all@[10] == m),
                Mode::CW_L => assert(all@[11] == m),
                Mode::RTTY_U => assert(all@[12] == m),
                Mode::RTTY_L => assert(all@[13] == m),
                Mode::DATA_U => assert(all@[14] == m),
                Mode::DATA_L => assert(all@[15] == m),
            }
        }
        None
    }
}

/// The rig reported a mode label that names no known mode.
#[derive(Debug)]
pub struct UnknownModeError {
    pub msg: String,
}

impl UnknownModeError {
    /// The error as an operator reads it.
    pub fn to_text(&self) -> (r: String)
        ensures
            r@ == "UnknownModeError: "@ + self.msg@,
    {
        let mut s = String::from_str("UnknownModeError: ");
        s.append(self.msg.as_str());
        s
    }
}

/// Commands that bring the rig to a wanted mode.
#[derive(Debug, Clone, Copy, PartialEq, Eq, Structural)]
pub enum ModeAction {
    /// The rig is already in the mode: issue nothing.
    Skip,
    /// Set the mode.
    Write(Mode),
    /// Set the mode, then set the filter to the given bandwidth.
    WriteThenNarrow(Mode, u32),
}

/// What brings a rig in mode `current` to mode `target`. An unneeded mode write
/// audibly widens the filter on some rigs, so an equal mode is left alone; after
/// a switch to CW a configured narrow filter is put back.
pub open spec fn mode_action(cwbandwidth: Option<u32>, target: Mode, current: Mode) -> ModeAction {
    if target == current {
        ModeAction::Skip
    } else if target == Mode::CW && cwbandwidth is Some {
        ModeAction::WriteThenNarrow(target, cwbandwidth->0)
    } else {
        ModeAction::Write(target)
    }
}

/// Decides which mode commands a rig needs, so that a mode equal to the one in
/// effect is never written again.
pub struct RigModeGuard {
    /// Narrow filter bandwidth to restore after switching to CW, if any.
    pub cwbandwidth: Option<u32>,
}

impl RigModeGuard {
    /// The commands that take a rig in mode `current` to mode `target`.
    pub fn apply_mode(&self, target: Mode, current: Mode) -> (r: ModeAction)
        ensures
            r == mode_action(self.cwbandwidth, target, current),
            target == current ==> r == ModeAction::Skip,
            target == Mode::CW && current != Mode::CW ==> r == match self.cwbandwidth {
                Some(bw) => ModeAction::WriteThenNarrow(Mode::CW, bw),
                None => ModeAction::Write(Mode::CW),
            },
    {
        if target == current {
            ModeAction::Skip
        } else {
            match self.cwbandwidth {
                Some(bw) => if target == Mode::CW {
                    ModeAction::WriteThenNarrow(target, bw)
                } else {
                    ModeAction::Write(target)
                },
                None => ModeAction::Write(target),
            }
        }
    }

    /// The commands that take the rig to mode `target`, given the label of the
    /// mode that it reports. A label that names no mode is an error that carries
    /// the label, and the caller decides what to do.
    pub fn check_mode(&self, target: Mode, reported: &str) -> (r: Result<ModeAction, UnknownModeError>)
        ensures
            r is Err <==> forall|m: Mode| mode_label(m) != reported@,
            r matches Ok(a) ==> exists|m: Mode|
                mode_label(m) == reported@ && a == mode_action(self.cwbandwidth, target, m),
            r matches Err(e) ==> e.msg@ == "mode "@ + reported@ + " is unknown"@,
    {
        match Mode::from_label(reported) {
            Some(current) => Ok(self.apply_mode(target, current)),
            None => {
                let mut msg = String::from_str("mode ");
                msg.append(reported);
                msg.append(" is unknown");
                Err(UnknownModeError { msg })
            },
        }
    }
}

/// A reading reported by the rig, with negative values read as zero.
pub open spec fn clamp_reading(v: i32) -> u32 {
    if v < 0 {
        0
    } else {
        v as u32
    }
}

/// The rig's output power in watts, as the ratio
/// `power * max_watts / max_power`: the power reading on a scale of
/// `max_power`, where full scale gives `max_watts`.
#[derive(Debug, Clone, Copy, PartialEq, Eq, Structural)]
pub struct PowerWatts {
    pub power: u32,
    pub max_power: u32,
    pub max_watts: u32,
}

/// The rig's output power in watts, from its power and full-scale readings
/// (a negative reading is taken as zero) and the watts it gives at full scale.
pub fn rig_power_watts(power: i32, max_power: i32, max_watts: u32) -> (r: PowerWatts)
    ensures
        r == (PowerWatts {
            power: clamp_reading(power),
            max_power: clamp_reading(max_power),
            max_watts,
        }),
{
    let power: u32 = if power < 0 {
        0
    } else {
        power as u32
    };
    let max_power: u32 = if max_power < 0 {
        0
    } else {
        max_power as u32
    };
    PowerWatts { power, max_power, max_watts }
}

/// Rig state from FLRig's readings: the VFO frequency and mode labels as
/// reported, and the output power as text. Key and radio name are left empty
/// for the caller to fill.
pub fn radio_data_from_rig(frequency: String, mode: String, power: String) -> (r: RadioData)
    ensures
        r.key@ == Seq::<char>::empty(),
        r.radio@ == Seq::<char>::empty(),
        r.frequency == frequency,
        r.mode == mode,
        r.power == power,
{
    RadioData { key: String::new(), radio: String::new(), frequency, mode, power }
}

} // verus!
