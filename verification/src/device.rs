//! What a lamp is told to show and what it reports of itself.

use vstd::prelude::*;

verus! {

/// The colour part of a lamp's configuration. A lamp shows either a colour
/// mixed from red, green and blue or a white of some temperature, never both.
#[derive(Clone, Copy, Debug, PartialEq, Eq, Structural)]
pub enum DeviceCommandParams {
    RgbMode { r: u64, g: u64, b: u64, dimming: u64, state: bool },
    TempMode { temp: u64, dimming: u64, state: bool },
}

/// The configuration of one lamp as it was captured: what it showed, and how
/// fast it fades between colours.
#[derive(Clone, Copy, Debug, PartialEq, Eq, Structural)]
pub struct DeviceState {
    pub params: DeviceCommandParams,
    pub fade_in: u64,
    pub fade_out: u64,
}

/// Why a reply of a lamp could not be used.
#[derive(Clone, Copy, Debug, PartialEq, Eq, Structural)]
pub enum ProtocolError {
    /// The reply is no JSON text, holds no result object, or lacks a field
    /// that the state of a lamp must carry.
    Malformed,
}

} // verus!
