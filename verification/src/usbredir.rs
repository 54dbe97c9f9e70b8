//! How the USB redirection widget answers a device switch.

use vstd::prelude::*;

verus! {

/// What the widget shows after the user switched a device on or off.
#[derive(Debug)]
pub struct DeviceStateReply {
    /// The new state of the device's switch, if it is to change.
    pub active: Option<bool>,
    /// The error to show, if any.
    pub error: Option<String>,
}

/// The widget's answer to a switch to `requested` that redirection answered
/// with `result`: on success the switch shows whether the device is now
/// redirected; on failure the error is shown, and a switch that was turned on
/// goes back off.
pub fn device_state_reply(requested: bool, result: Result<bool, String>) -> (reply: DeviceStateReply)
    ensures
        match result {
            Ok(active) => reply.active == Some(active) && reply.error is None,
            Err(e) => {
                &&& reply.active == (if requested { Some(false) } else { None })
                &&& reply.error matches Some(m) && m@ == e@
            },
        },
{
    match result {
        Ok(active) => DeviceStateReply { active: Some(active), error: None },
        Err(e) => DeviceStateReply {
            active: if requested {
                Some(false)
            } else {
                None
            },
            error: Some(e),
        },
    }
}

} // verus!
