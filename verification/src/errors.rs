//! Error taxonomy for Bluetooth discovery and monitoring control.

use vstd::prelude::*;

verus! {

/// Errors surfaced by the discovery layer and the monitoring control
/// surface.
///
/// `Discovery` reports a failed acquisition or translation step;
/// `UuidParse` reports a malformed target identifier handed to the
/// monitoring control surface. Both carry a human-readable detail string.
#[derive(Debug)]
pub enum BluetoothError {
    Discovery(String),
    UuidParse(String),
}

impl BluetoothError {
    /// Full human-readable text of this error, in the shape
    /// `<context>: <detail>`.
    pub fn message(&self) -> (msg: String)
        ensures
            self matches BluetoothError::Discovery(d) ==> msg@ == "Bluetooth discovery error: "@ + d@,
            self matches BluetoothError::UuidParse(d) ==> msg@ == "UUID parsing error: "@ + d@,
    {
        match self {
            BluetoothError::Discovery(d) => {
                let prefix: String = "Bluetooth discovery error: ".to_owned();
                prefix.concat(d.as_str())
            },
            BluetoothError::UuidParse(d) => {
                let prefix: String = "UUID parsing error: ".to_owned();
                prefix.concat(d.as_str())
            },
        }
    }

    /// The detail string carried by either variant.
    pub fn detail(&self) -> (d: &String)
        ensures
            self matches BluetoothError::Discovery(s) ==> d == s,
            self matches BluetoothError::UuidParse(s) ==> d == s,
    {
        match self {
            BluetoothError::Discovery(d) => d,
            BluetoothError::UuidParse(d) => d,
        }
    }
}

} // verus!
