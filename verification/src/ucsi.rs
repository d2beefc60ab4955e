//! USB Type-C connector status (UCSI). Querying the connectors is not
//! supported yet: every connector reads as unavailable.

use vstd::prelude::*;

verus! {

/// State of one USB Type-C connector.
#[derive(Debug, Clone)]
pub struct ConnectorInfo {
    pub available: bool,
    pub connector_id: u32,
    pub power_role: String,
    pub data_role: String,
    pub partner_type: String,
    pub cable_speed: String,
    pub cable_type: String,
    pub usb_capable: bool,
    pub pd_capable: bool,
    pub external_supply: bool,
    pub pd_current_ma: u32,
    pub pd_voltage_mv: u32,
    pub pd_max_watts: u32,
    pub raw_status: u32,
}

/// Every field false, zero or empty: a connector about which nothing is known.
pub open spec fn is_blank(c: ConnectorInfo) -> bool {
    &&& !c.available
    &&& c.connector_id == 0
    &&& c.power_role@.len() == 0
    &&& c.data_role@.len() == 0
    &&& c.partner_type@.len() == 0
    &&& c.cable_speed@.len() == 0
    &&& c.cable_type@.len() == 0
    &&& !c.usb_capable
    &&& !c.pd_capable
    &&& !c.external_supply
    &&& c.pd_current_ma == 0
    &&& c.pd_voltage_mv == 0
    &&& c.pd_max_watts == 0
    &&& c.raw_status == 0
}

impl Default for ConnectorInfo {
    fn default() -> (c: ConnectorInfo)
        ensures
            is_blank(c),
    {
        ConnectorInfo {
            available: false,
            connector_id: 0,
            power_role: String::new(),
            data_role: String::new(),
            partner_type: String::new(),
            cable_speed: String::new(),
            cable_type: String::new(),
            usb_capable: false,
            pd_capable: false,
            external_supply: false,
            pd_current_ma: 0,
            pd_voltage_mv: 0,
            pd_max_watts: 0,
            raw_status: 0,
        }
    }
}

/// Status of a connector: always reported as unavailable (a blank record).
pub fn get_connector_status(_connector_id: u32) -> (r: Result<ConnectorInfo, String>)
    ensures
        r matches Ok(c) && is_blank(c),
{
    Ok(ConnectorInfo::default())
}

} // verus!
