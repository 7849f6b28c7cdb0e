//! The types shared with the scene-switching engine.
use vstd::prelude::*;

verus! {

/// Which scene the switching engine should show.
#[derive(Clone, Copy, Debug, PartialEq, Eq, Structural)]
pub enum SwitchType {
    Normal,
    Low,
    /// No new information: keep the scene that is showing.
    Previous,
    Offline,
}

/// Bitrate floors in kbit/s, each one optional.
#[derive(Clone, Copy, Debug, PartialEq, Eq, Structural)]
pub struct Triggers {
    pub low: Option<u32>,
    pub offline: Option<u32>,
}

/// The scene names used for each regime.
#[derive(Clone, Debug)]
pub struct SwitchingScenes {
    pub normal: String,
    pub low: String,
    pub offline: String,
}

} // verus!
