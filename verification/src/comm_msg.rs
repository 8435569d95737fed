//! The message that carries comm traffic on the wire.

use vstd::prelude::*;

verus! {

/// `serde_json::Value`, a JSON value. The library carries such values from
/// one place to another and never looks inside.
#[verifier::external_type_specification]
#[verifier::external_body]
pub struct ExValue(serde_json::Value);

/// A message on a custom comm channel, as it travels on the wire: the comm it
/// belongs to, and its payload.
#[derive(Debug, PartialEq)]
pub struct CommMsg {
    pub comm_id: String,
    pub data: serde_json::Value,
}

impl CommMsg {
    /// A message for the comm `comm_id`.
    pub fn new(comm_id: String, data: serde_json::Value) -> (msg: Self)
        ensures
            msg.comm_id == comm_id,
            msg.data == data,
    {
        CommMsg { comm_id, data }
    }

    /// The name of this kind of message on the wire.
    pub fn message_type() -> (name: String)
        ensures
            name@ == "comm_msg"@,
    {
        "comm_msg".to_owned()
    }
}

} // verus!
