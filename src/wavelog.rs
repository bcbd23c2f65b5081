use vstd::prelude::*;

verus! {

/// Where and as whom rig state and logged contacts are sent to Wavelog.
#[derive(Clone)]
pub struct WavelogSettings {
    pub url: String,
    pub qso_url: String,
    pub key: String,
    pub identifier: String,
    pub station_profile_id: u32,
    /// Poll interval in milliseconds.
    pub interval: u64,
}

/// Live rig state as Wavelog receives it.
#[derive(Debug)]
pub struct RadioData {
    pub key: String,
    pub radio: String,
    pub frequency: String,
    pub mode: String,
    pub power: String,
}

/// Two readings differ in frequency, mode or power.
pub open spec fn snapshot_changed(previous: RadioData, current: RadioData) -> bool {
    previous.frequency@ != current.frequency@ || previous.mode@ != current.mode@
        || previous.power@ != current.power@
}

/// Whether a reading differs from the previous one in frequency, mode or power,
/// so that it is to be pushed.
pub fn changed(previous: &RadioData, current: &RadioData) -> (r: bool)
    ensures
        r == snapshot_changed(*previous, *current),
{
    !(previous.frequency == current.frequency) || !(previous.mode == current.mode) || !(
    previous.power == current.power)
}

/// Takes a fresh reading into the state last pushed. When the reading differs,
/// its frequency, mode and power replace those held, the key and radio name
/// stay, and the result says that one push is to be attempted; otherwise the
/// state stays as it was. The state moves on whether or not that push then
/// succeeds, so a change is pushed once.
pub fn take_reading(current: &mut RadioData, reading: RadioData) -> (push: bool)
    ensures
        push == snapshot_changed(*old(current), reading),
        push ==> *final(current) == (RadioData {
            key: old(current).key,
            radio: old(current).radio,
            frequency: reading.frequency,
            mode: reading.mode,
            power: reading.power,
        }),
        !push ==> *final(current) == *old(current),
{
    if changed(current, &reading) {
        current.frequency = reading.frequency;
        current.mode = reading.mode;
        current.power = reading.power;
        true
    } else {
        false
    }
}

/// A reading is never a change from itself.
pub proof fn snapshot_unchanged_against_itself(a: RadioData)
    ensures
        !snapshot_changed(a, a),
{
}

/// A reading that differs from another in any one of frequency, mode and
/// power is a change, whatever the other two hold.
pub proof fn snapshot_change_in_any_field(a: RadioData, b: RadioData)
    requires
        a.frequency@ != b.frequency@ || a.mode@ != b.mode@ || a.power@ != b.power@,
    ensures
        snapshot_changed(a, b),
{
}

} // verus!
