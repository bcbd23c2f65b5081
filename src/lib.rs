//! Protocol gateway logic for amateur-radio station automation: the band-plan
//! heuristic, rig-mode translation and write suppression, QSY request parsing,
//! rig-state change detection, and the WSJT-X datagram decoder.

pub mod bandplan;
pub mod cat;
pub mod flrig;
pub mod settings;
pub mod text;
pub mod wavelog;
pub mod wsjtx;
