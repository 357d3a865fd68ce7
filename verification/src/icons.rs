//! The icons the bar's modules choose between.

use vstd::prelude::*;

verus! {

/// An icon of the bar's icon font.
#[derive(Debug, Clone, Copy, PartialEq, Eq, Structural)]
pub enum Icons {
    /// No icon at all.
    Blank,
    /// Speaker, muted or silent.
    Speaker0,
    /// Speaker at low volume.
    Speaker1,
    /// Speaker at medium volume.
    Speaker2,
    /// Speaker at high volume.
    Speaker3,
    /// Headphones.
    Headphones1,
    /// Headset with microphone.
    Headset,
    /// Monitor with built-in speakers (HDMI audio).
    MonitorSpeaker,
    /// Microphone in use.
    Mic1,
    /// Camera in use.
    Webcam,
    /// Screen being shared.
    ScreenShare,
}

} // verus!
