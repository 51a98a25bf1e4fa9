//! The messages that the endpoint is constructed and invoked with.
use vstd::prelude::*;

verus! {

/// The address of a party on some chain, written `chain/account`.
///
/// The endpoint never looks inside it: it hands the text on as it is.
#[derive(Clone, Debug, PartialEq, Eq)]
pub struct NetworkAddress {
    text: String,
}

impl View for NetworkAddress {
    type V = Seq<char>;

    closed spec fn view(&self) -> Seq<char> {
        self.text@
    }
}

impl NetworkAddress {
    /// The network address written as `text`.
    pub fn new(text: String) -> (address: NetworkAddress)
        ensures
            address@ == text@,
    {
        NetworkAddress { text }
    }

    /// The address as text.
    pub fn as_str(&self) -> (text: &str)
        ensures
            text@ == self@,
    {
        self.text.as_str()
    }

    /// The address as text, in a string of its own.
    pub fn to_string(&self) -> (text: String)
        ensures
            text@ == self@,
    {
        self.text.clone()
    }
}

/// What the endpoint is constructed with.
#[derive(Clone, Debug, PartialEq, Eq)]
pub struct InstantiateMsg {
    /// The address of the gateway contract, as the host chain writes addresses.
    pub xcall_address: String,
}

/// What the endpoint can be asked to do.
#[derive(Clone, Debug, PartialEq, Eq)]
pub enum ExecuteMsg {
    /// Send `data` to `to` through the gateway; `rollback` is what the gateway hands
    /// back if delivery fails.
    SendCallMessage { to: NetworkAddress, data: Vec<u8>, rollback: Option<Vec<u8>> },
    /// Take delivery of `data`, which the gateway relayed from `from`.
    HandleCallMessage { from: NetworkAddress, data: Vec<u8> },
}

/// The queries that the endpoint puts to the gateway.
#[derive(Clone, Debug, PartialEq, Eq)]
pub enum XCallQueryMsg {
    /// Asks for the gateway's own network address.
    GetNetworkAddress {},
}

} // verus!
