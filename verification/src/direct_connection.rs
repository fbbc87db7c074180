//! The first connection of a device to Cumulocity, by which the device is
//! created in the cloud.

use crate::text::{pieces, split_pieces};
use vstd::prelude::*;

verus! {

/// The type of a device in the cloud.
pub const DEVICE_TYPE: &'static str = "thin-edge.io";

/// The topic on which a device is created.
pub const C8Y_TOPIC_BUILTIN_MESSAGE_UPSTREAM: &'static str = "s/us";

/// The topic on which the cloud tells its errors.
pub const C8Y_TOPIC_ERRORS: &'static str = "s/e";

/// The TCP port on which the cloud takes MQTT over TLS.
pub const C8Y_MQTT_PORT: u16 = 8883;

/// Seconds between the two requests to create the device.
pub const RETRY_DELAY_SECS: u64 = 3;

/// The request to create a device: `100,<device>,thin-edge.io`.
pub fn device_create_payload(device_id: &str) -> (r: String)
    ensures
        r@ == "100,"@ + device_id@ + ","@ + "thin-edge.io"@,
{
    let mut payload = String::from_str("100,");
    payload.append(device_id);
    payload.append(",");
    payload.append(DEVICE_TYPE);
    payload
}

/// Whether the cloud tells that the device exists already.
pub fn is_device_already_existing(payload: &[u8]) -> (r: bool)
    ensures
        r == (payload@ == vstd::utf8::encode_utf8("41,100,Device already existing"@)),
{
    let expected = "41,100,Device already existing".as_bytes();
    if payload.len() != expected.len() {
        return false;
    }
    let n: usize = expected.len();
    let mut i: usize = 0;
    while i < n
        invariant
            n == expected@.len(),
            n == payload@.len(),
            i <= n,
            expected@ == vstd::utf8::encode_utf8("41,100,Device already existing"@),
            forall|k: int| 0 <= k < i ==> payload@[k] == expected@[k],
        decreases n - i,
    {
        if payload[i] != expected[i] {
            return false;
        }
        i = i + 1;
    }
    assert(payload@ =~= expected@);
    true
}

/// The host of the address of a bridge: what stands before its first `:`.
pub fn bridge_host<'a>(address: &'a str) -> (r: &'a str)
    ensures
        r@ == pieces(address@, ':')[0],
{
    let parts = split_pieces(address, ':');
    parts[0]
}

} // verus!
