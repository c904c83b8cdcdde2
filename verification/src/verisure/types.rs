//! What the Verisure API reports about an installation.
use vstd::prelude::*;

verus! {

/// A device of the installation.
#[derive(Debug)]
pub struct Device {
    pub device_label: String,
    pub area: Option<String>,
}

/// The alarm's arm state.
#[derive(Debug)]
pub struct ArmState {
    pub status_type: String,
    pub date: Option<String>,
    pub name: Option<String>,
    pub changed_via: Option<String>,
}

/// One climate sensor reading. The readings keep the decimal text of the
/// JSON numbers that the API reported.
#[derive(Debug)]
pub struct ClimateValue {
    pub device: Device,
    pub device_type: Option<String>,
    pub humidity_enabled: Option<bool>,
    pub humidity_timestamp: Option<String>,
    pub humidity_value: Option<String>,
    pub temperature_timestamp: Option<String>,
    pub temperature_value: Option<String>,
}

/// A door or window sensor.
#[derive(Debug)]
pub struct DoorWindow {
    pub device: Device,
    pub state: String,
    pub wired: Option<bool>,
    pub report_time: Option<String>,
}

/// A smart lock.
#[derive(Debug)]
pub struct DoorLock {
    pub device: Device,
    pub lock_status: Option<String>,
    pub door_state: Option<String>,
    pub lock_method: Option<String>,
    pub event_time: Option<String>,
    pub door_lock_type: Option<String>,
    pub secure_mode: Option<String>,
    pub user_string: Option<String>,
    pub motor_jam: Option<bool>,
    pub secure_mode_active: Option<bool>,
}

/// A smart plug.
#[derive(Debug)]
pub struct SmartPlug {
    pub device: Device,
    pub current_state: String,
    pub icon: Option<String>,
    pub is_hazardous: Option<bool>,
}

/// The broadband connection of the installation.
#[derive(Debug)]
pub struct Broadband {
    pub test_date: Option<String>,
    pub is_broadband_connected: Option<bool>,
}

/// Everything one scrape learned about the installation.
#[derive(Debug)]
pub struct VerisureData {
    pub arm_state: Option<ArmState>,
    pub climate_values: Vec<ClimateValue>,
    pub door_windows: Vec<DoorWindow>,
    pub door_locks: Vec<DoorLock>,
    pub smart_plugs: Vec<SmartPlug>,
    pub broadband: Option<Broadband>,
}

impl VerisureData {
    /// Nothing known: no arm state, no devices, no broadband status.
    pub open spec fn is_empty(self) -> bool {
        &&& self.arm_state is None
        &&& self.climate_values@.len() == 0
        &&& self.door_windows@.len() == 0
        &&& self.door_locks@.len() == 0
        &&& self.smart_plugs@.len() == 0
        &&& self.broadband is None
    }
}

impl Default for VerisureData {
    fn default() -> (d: Self)
        ensures
            d.is_empty(),
    {
        VerisureData {
            arm_state: None,
            climate_values: Vec::new(),
            door_windows: Vec::new(),
            door_locks: Vec::new(),
            smart_plugs: Vec::new(),
            broadband: None,
        }
    }
}

} // verus!
