//! Device and container identities.

use vstd::prelude::*;

verus! {

/// The 128-bit identifier of a logical device.
#[derive(Clone, Copy, Debug, PartialEq, Eq, Structural)]
pub struct DeviceUuid {
    pub value: u128,
}

/// The handle that the container runtime assigned to a container.
#[derive(Debug, PartialEq, Eq)]
pub struct ContainerId {
    pub value: String,
}

impl View for ContainerId {
    type V = Seq<char>;

    open spec fn view(&self) -> Seq<char> {
        self.value@
    }
}

impl Clone for ContainerId {
    fn clone(&self) -> (copy: Self)
        ensures
            copy == *self,
    {
        ContainerId { value: self.value.clone() }
    }
}

impl ContainerId {
    /// The handle with the text `value`.
    pub fn new(value: &str) -> (id: ContainerId)
        ensures
            id@ == value@,
    {
        ContainerId { value: String::from_str(value) }
    }
}

/// What `uuid::Uuid::parse_str` makes of a text: the UUID's 128 bits, most
/// significant byte first, or `None` where the text is no UUID.
pub uninterp spec fn uuid_of_text(text: Seq<char>) -> Option<u128>;

/// Calls `uuid::Uuid::parse_str` and, on success, `uuid::Uuid::as_u128`.
///
/// The parser is a pure function of the text: it accepts the simple,
/// hyphenated, braced and URN forms and never panics. The contract only names
/// its result.
#[verifier::external_body]
fn parse_uuid_text(text: &str) -> (parsed: Option<u128>)
    ensures
        parsed == uuid_of_text(text@),
{
    match uuid::Uuid::parse_str(text) {
        Ok(uuid) => Some(uuid.as_u128()),
        Err(_) => None,
    }
}

impl DeviceUuid {
    /// The device UUID that a parse result stands for.
    pub open spec fn of_parsed(parsed: Option<u128>) -> Option<DeviceUuid> {
        match parsed {
            Some(value) => Some(DeviceUuid { value }),
            None => None,
        }
    }

    /// Reads a device UUID from its textual form.
    pub fn parse(text: &str) -> (uuid: Option<DeviceUuid>)
        ensures
            uuid == Self::of_parsed(uuid_of_text(text@)),
    {
        match parse_uuid_text(text) {
            Some(value) => Some(DeviceUuid { value }),
            None => None,
        }
    }
}

} // verus!
