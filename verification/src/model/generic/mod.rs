//! Generic models: on/off and battery.
use vstd::prelude::*;

pub mod battery;
pub mod onoff;

verus! {

/// A state that is either on or off.
pub trait GenericOnOff {}

/// A server of a generic on/off state.
pub trait GenericOnOffServer {}

/// The kinds of generic on/off message.
#[derive(PartialEq, Eq, Structural, Clone, Copy, Debug)]
pub enum GenericOnOffMessage {
    Get,
    SetRequest,
    SetUnacknowledged,
}

} // verus!
