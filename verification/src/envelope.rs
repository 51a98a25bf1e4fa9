//! The outbound side: the envelope that asks the gateway to relay a call, and the
//! message that carries it there.
use crate::cosmwasm::{fire_and_forget, response_add_attribute, response_add_message, response_new};
use crate::msg::NetworkAddress;
use cosmwasm_std::{Binary, Coin, CosmosMsg, Empty, Response, WasmMsg};
use vstd::prelude::*;

verus! {

/// A request to the gateway to deliver `data` to `to`.
///
/// `sources` and `destinations` name the relays to go through; left out, the
/// gateway chooses.
#[derive(Clone, Debug, PartialEq, Eq)]
pub struct CallEnvelope {
    pub to: NetworkAddress,
    pub data: Vec<u8>,
    pub rollback: Option<Vec<u8>>,
    pub sources: Option<Vec<String>>,
    pub destinations: Option<Vec<String>>,
}

/// A [`CallEnvelope`] as plain sequences.
pub struct CallEnvelopeView {
    pub to: Seq<char>,
    pub data: Seq<u8>,
    pub rollback: Option<Seq<u8>>,
    pub sources: Option<Seq<Seq<char>>>,
    pub destinations: Option<Seq<Seq<char>>>,
}

/// The bytes of an optional payload.
pub open spec fn optional_bytes(payload: Option<Vec<u8>>) -> Option<Seq<u8>> {
    match payload {
        Some(bytes) => Some(bytes@),
        None => None,
    }
}

impl View for CallEnvelope {
    type V = CallEnvelopeView;

    open spec fn view(&self) -> CallEnvelopeView {
        CallEnvelopeView {
            to: self.to@,
            data: self.data@,
            rollback: optional_bytes(self.rollback),
            sources: self.sources.deep_view(),
            destinations: self.destinations.deep_view(),
        }
    }
}

/// The envelope that the endpoint makes of a call: the call's own fields, and no
/// relay named.
pub open spec fn envelope_of(to: Seq<char>, data: Seq<u8>, rollback: Option<Seq<u8>>)
    -> CallEnvelopeView {
    CallEnvelopeView { to, data, rollback, sources: None, destinations: None }
}

impl CallEnvelope {
    /// The envelope for a call to `to` that names no relay.
    pub fn new(to: NetworkAddress, data: Vec<u8>, rollback: Option<Vec<u8>>) -> (envelope:
        CallEnvelope)
        ensures
            envelope@ == envelope_of(to@, data@, optional_bytes(rollback)),
    {
        CallEnvelope { to, data, rollback, sources: None, destinations: None }
    }
}

/// An envelope on its way to the gateway: where to send it, and the funds that go
/// with it. The envelope is still to be encoded for the wire.
#[derive(Clone, Debug, PartialEq, Eq)]
pub struct OutboundCall {
    pub contract_addr: String,
    pub envelope: CallEnvelope,
    pub funds: Vec<Coin>,
}

/// An [`OutboundCall`] as plain sequences.
pub struct OutboundCallView {
    pub contract_addr: Seq<char>,
    pub envelope: CallEnvelopeView,
    pub funds: Seq<Coin>,
}

impl View for OutboundCall {
    type V = OutboundCallView;

    open spec fn view(&self) -> OutboundCallView {
        OutboundCallView {
            contract_addr: self.contract_addr@,
            envelope: self.envelope@,
            funds: self.funds@,
        }
    }
}

impl OutboundCall {
    /// The response that hands the call to the host: one message that executes the
    /// contract at `contract_addr` with `payload`, the encoded envelope, and the
    /// funds; and the attribute `Action = SendMessage`.
    pub fn into_response(self, payload: Vec<u8>) -> (response: Response)
        ensures
            response.messages@ == seq![
                fire_and_forget(
                    CosmosMsg::Wasm(
                        WasmMsg::Execute {
                            contract_addr: self.contract_addr,
                            msg: Binary(payload),
                            funds: self.funds,
                        },
                    ),
                ),
            ],
            crate::cosmwasm::attribute_pairs(response.attributes@) == seq![
                ("Action"@, "SendMessage"@),
            ],
            response.events@.len() == 0,
            response.data is None,
    {
        let message: CosmosMsg<Empty> = CosmosMsg::Wasm(
            WasmMsg::Execute {
                contract_addr: self.contract_addr,
                msg: Binary(payload),
                funds: self.funds,
            },
        );
        proof {
            reveal_strlit("Action");
        }
        let response = response_add_attribute(response_new(), "Action", "SendMessage");
        response_add_message(response, message)
    }
}

} // verus!
