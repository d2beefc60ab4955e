//! CableScope: USB controllers, ports and devices, and what is known of
//! them, assembled from what the system reports.
//!
//! Reading the system (Win32 calls, files, the clock) is the caller's part;
//! this library takes what was read as plain values and decides everything
//! else: which nodes are peripherals, which port each one sits on, what the
//! ports' status words mean, names and identities from the VID:PID database,
//! the log's calendar dates.

use vstd::prelude::*;

pub mod db_facts;
pub mod device_db;
pub mod devices;
pub mod instance;
pub mod logger;
pub mod text;
pub mod ucsi;
pub mod usb;

verus! {

} // verus!
