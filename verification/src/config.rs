//! Device configuration as the publisher core consumes it: plain fields with
//! fixed capacity bounds and the fallback values substituted when a stored
//! field is absent or unparsable. Loading and persisting the record is the
//! config store's business, outside this crate.

use vstd::prelude::*;
use vstd::string::StringExecFns;
use crate::codec::connect_remaining_len;
use crate::codec::MAX_REMAINING_LEN;

verus! {

/// Capacity bound on the device identifier, in bytes.
pub const DEVICE_ID_MAX_LEN: usize = 32;

/// The persisted device configuration.
pub struct AppConfig {
    pub ssid: String,
    pub password: String,
    pub mqtt_host: String,
    pub mqtt_port: u16,
    pub device_id: String,
}

impl AppConfig {
    /// Every field respects its fixed capacity bound.
    pub open spec fn wf(&self) -> bool {
        &&& self.ssid@.len() <= 32
        &&& self.password@.len() <= 64
        &&& self.mqtt_host@.len() <= 64
        &&& self.device_id@.len() <= DEVICE_ID_MAX_LEN
    }
}

impl Default for AppConfig {
    /// The fallback configuration.
    fn default() -> (c: AppConfig)
        ensures
            c.ssid@ == "Guest"@,
            c.password@ == "Guest1234"@,
            c.mqtt_host@ == "192.168.1.100"@,
            c.mqtt_port == 1883,
            c.device_id@ == "esp32-sensor"@,
            c.wf(),
    {
        proof {
            reveal_strlit("Guest");
            reveal_strlit("Guest1234");
            reveal_strlit("192.168.1.100");
            reveal_strlit("esp32-sensor");
        }
        AppConfig {
            ssid: String::from_str("Guest"),
            password: String::from_str("Guest1234"),
            mqtt_host: String::from_str("192.168.1.100"),
            mqtt_port: 1883,
            device_id: String::from_str("esp32-sensor"),
        }
    }
}

/// Law: a device identifier within the identity capacity always fits the
/// CONNECT frame's remaining-length ceiling, so encoding it cannot fail.
pub proof fn lemma_identity_always_encodes(id: Seq<u8>)
    requires
        id.len() <= DEVICE_ID_MAX_LEN,
    ensures
        connect_remaining_len(id) <= MAX_REMAINING_LEN,
{
}

} // verus!
