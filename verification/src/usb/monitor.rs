//! Device-change notifications: which window messages announce a USB device
//! arriving or leaving, and the event reported for them.
//!
//! The window, its message loop and the channel to the rest of the program
//! belong to the caller, which hands each message in and acts on the answer.

use crate::logger::{chrono_free, clock_text};
use vstd::prelude::*;

verus! {

/// A device arrived or left.
#[derive(Debug, Clone)]
pub struct DeviceEvent {
    /// `connected` or `disconnected`.
    pub event_type: String,
    /// UTC time of day, `HH:MM:SS`.
    pub timestamp: String,
}

/// `WM_DEVICECHANGE`.
pub const WM_DEVICECHANGE: u32 = 0x0219;

/// `DBT_DEVICEARRIVAL`.
pub const DBT_DEVICEARRIVAL: u32 = 0x8000;

/// `DBT_DEVICEREMOVECOMPLETE`.
pub const DBT_DEVICEREMOVECOMPLETE: u32 = 0x8004;

/// What the window procedure does with a message.
pub enum WindowAction {
    /// Not a device change: hand the message to the default procedure.
    PassOn,
    /// A device change, answered with 0; the event to report, if the change
    /// is an arrival or a removal.
    Handled(Option<DeviceEvent>),
}

/// The kind of change a device-change message announces, by its event code
/// (the low 32 bits of `w_param`).
pub open spec fn change_kind(w_param: usize) -> Option<Seq<char>> {
    let w = w_param as u32;
    if w == DBT_DEVICEARRIVAL {
        Some("connected"@)
    } else if w == DBT_DEVICEREMOVECOMPLETE {
        Some("disconnected"@)
    } else {
        None
    }
}

/// Which device changes are reported: event code 0x8000 (a device arrived)
/// is "connected", 0x8004 (a device was removed) is "disconnected", any
/// other code is not reported; only the low 32 bits of `w_param` count.
/// The message itself is a device change when it is 0x0219.
pub proof fn lemma_change_codes(w_param: usize)
    ensures
        WM_DEVICECHANGE == 0x0219,
        (w_param as u32) == 0x8000 ==> change_kind(w_param) == Some("connected"@),
        (w_param as u32) == 0x8004 ==> change_kind(w_param) == Some("disconnected"@),
        (w_param as u32) != 0x8000 && (w_param as u32) != 0x8004 ==> change_kind(w_param) is None,
{
}

/// UTC time of day `secs` seconds after the epoch, `HH:MM:SS`.
pub fn timestamp_str(secs: u64) -> (r: String)
    ensures
        r@ == clock_text(secs as nat),
{
    chrono_free(secs)
}

/// Decides what the window procedure does with message `msg`, received
/// `now_secs` seconds after the epoch.
pub fn window_proc(msg: u32, w_param: usize, now_secs: u64) -> (a: WindowAction)
    ensures
        msg != WM_DEVICECHANGE <==> a is PassOn,
        a matches WindowAction::Handled(e) ==> match change_kind(w_param) {
            Some(kind) => e matches Some(ev) && ev.event_type@ == kind && ev.timestamp@
                == clock_text(now_secs as nat),
            None => e is None,
        },
{
    if msg != WM_DEVICECHANGE {
        return WindowAction::PassOn;
    }
    let w = w_param as u32;
    if w == DBT_DEVICEARRIVAL || w == DBT_DEVICEREMOVECOMPLETE {
        let event_type = if w == DBT_DEVICEARRIVAL {
            "connected".to_owned()
        } else {
            "disconnected".to_owned()
        };
        WindowAction::Handled(Some(DeviceEvent { event_type, timestamp: timestamp_str(now_secs) }))
    } else {
        WindowAction::Handled(None)
    }
}

} // verus!
