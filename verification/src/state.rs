//! The address registry: the one piece of state that the endpoint keeps.
use crate::error::{ContractError, ErrorView};
use vstd::prelude::*;

verus! {

/// Holds the address of the one gateway that the endpoint trusts.
///
/// The registry is empty until construction stores an address that the host chain
/// accepts. Nothing but construction writes to it.
#[derive(Clone, Debug, PartialEq, Eq)]
pub struct Registry {
    gateway: Option<String>,
}

impl View for Registry {
    type V = Option<Seq<char>>;

    closed spec fn view(&self) -> Option<Seq<char>> {
        match self.gateway {
            Some(address) => Some(address@),
            None => None,
        }
    }
}

/// What a registry holds after an attempt to store `raw_address` in it: the new
/// address if the host accepts it, and what it held before if not.
pub open spec fn initialized(
    before: Option<Seq<char>>,
    raw_address: Seq<char>,
    host_accepts: bool,
) -> Option<Seq<char>> {
    if host_accepts {
        Some(raw_address)
    } else {
        before
    }
}

/// What reading a registry that holds `held` gives.
pub open spec fn lookup(held: Option<Seq<char>>) -> Result<Seq<char>, ErrorView> {
    match held {
        Some(gateway) => Ok(gateway),
        None => Err(ErrorView::GatewayNotConfigured),
    }
}

/// Construction decides what can be read afterwards. With an address that the host
/// accepts, a read gives exactly that address back. With any other address nothing is
/// stored, so that a registry that was empty cannot be read.
pub proof fn construction_decides_what_is_read(
    before: Option<Seq<char>>,
    raw_address: Seq<char>,
    host_accepts: bool,
)
    ensures
        host_accepts ==> lookup(initialized(before, raw_address, host_accepts)) == Ok::<
            Seq<char>,
            ErrorView,
        >(raw_address),
        !host_accepts ==> initialized(before, raw_address, host_accepts) == before,
        !host_accepts && before is None ==> lookup(
            initialized(before, raw_address, host_accepts),
        ) == Err::<Seq<char>, ErrorView>(ErrorView::GatewayNotConfigured),
{
}

impl Registry {
    /// The registry of an endpoint that has not been constructed yet.
    pub fn new() -> (registry: Registry)
        ensures
            registry@ is None,
    {
        Registry { gateway: None }
    }

    /// The registry as durable storage holds it: with the address stored at
    /// construction, or empty.
    pub fn restore(stored: Option<String>) -> (registry: Registry)
        ensures
            registry@ == match stored {
                Some(address) => Some(address@),
                None => None,
            },
    {
        Registry { gateway: stored }
    }

    /// Stores `raw_address` as the gateway address, if the host chain accepts it as
    /// an address (`host_accepts`); if not, fails and leaves the registry as it was.
    pub fn initialize(&mut self, raw_address: String, host_accepts: bool) -> (r: Result<
        (),
        ContractError,
    >)
        ensures
            final(self)@ == initialized(old(self)@, raw_address@, host_accepts),
            host_accepts ==> r is Ok,
            !host_accepts ==> (r matches Err(e) && e@ == ErrorView::InvalidAddress),
    {
        if host_accepts {
            self.gateway = Some(raw_address);
            Ok(())
        } else {
            Err(ContractError::InvalidAddress)
        }
    }

    /// The gateway address, or `GatewayNotConfigured` while the registry is empty.
    pub fn get(&self) -> (r: Result<&str, ContractError>)
        ensures
            lookup(self@) == match r {
                Ok(gateway) => Ok::<Seq<char>, ErrorView>(gateway@),
                Err(e) => Err(e@),
            },
    {
        match &self.gateway {
            Some(address) => Ok(address.as_str()),
            None => Err(ContractError::GatewayNotConfigured),
        }
    }
}

} // verus!
