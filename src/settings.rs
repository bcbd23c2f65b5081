use vstd::prelude::*;

use crate::cat::CatSettings;
use crate::flrig::FlrigSettings;
use crate::wavelog::WavelogSettings;
use crate::wsjtx::WsjtxSettings;

verus! {

/// The whole configuration, one section per collaborator.
#[allow(non_snake_case)]
pub struct Settings {
    pub wavelog: WavelogSettings,
    pub flrig: FlrigSettings,
    pub CAT: CatSettings,
    pub WSJTX: WsjtxSettings,
}

} // verus!
