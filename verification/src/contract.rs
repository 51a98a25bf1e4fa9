//! The endpoint's operations: construction, the outbound send, the inbound handle,
//! and the events that the handle raises.
use crate::cosmwasm::{
    addr_as_str, addr_text, attribute_pairs, event_add_attribute, event_new, event_view,
    event_views, response_add_event, response_new, EventView,
};
use crate::envelope::{envelope_of, optional_bytes, CallEnvelope, OutboundCall, OutboundCallView};
use crate::error::{ContractError, ErrorView};
use crate::msg::{ExecuteMsg, InstantiateMsg, NetworkAddress};
use crate::state::{initialized, Registry};
use crate::text::{
    decode_utf8_text, decoded, is_rollback_sentinel, same_text, utf8_failure_text,
    ROLLBACK_SENTINEL,
};
use cosmwasm_std::{Binary, Coin, Event, MessageInfo, Response};
use vstd::prelude::*;
use vstd::utf8::*;

verus! {

/// The type of the event raised for every message received.
pub const MESSAGE_RECEIVED: &'static str = "MessageReceived";

/// The type of the event raised when the message received announces a rollback.
pub const ROLLBACK_DATA_RECEIVED: &'static str = "RollbackDataReceived";

/// Whether a response holds nothing at all.
pub open spec fn is_empty_response(response: Response) -> bool {
    &&& response.messages@.len() == 0
    &&& response.attributes@.len() == 0
    &&& response.events@.len() == 0
    &&& response.data is None
}

/// The event of type `ty` that reports a message from `from` with text `data`.
pub open spec fn receipt(ty: Seq<char>, from: Seq<char>, data: Seq<char>) -> EventView {
    EventView { ty, attributes: seq![("from"@, from), ("data"@, data)] }
}

/// The events that a delivery of `text` from `from` raises, in order: always that a
/// message was received, and after it, for the rollback payload alone, that
/// rollback data was received.
pub open spec fn inbound_events(from: Seq<char>, text: Seq<char>) -> Seq<EventView> {
    if text == ROLLBACK_SENTINEL@ {
        seq![
            receipt(MESSAGE_RECEIVED@, from, text),
            receipt(ROLLBACK_DATA_RECEIVED@, from, text),
        ]
    } else {
        seq![receipt(MESSAGE_RECEIVED@, from, text)]
    }
}

/// What becomes of a delivery of `data`, relayed from `from`, that `sender` makes to
/// an endpoint whose registry holds `registry`.
///
/// The sender is checked first and the payload is decoded after: a caller other than
/// the gateway is refused whatever it sends.
pub open spec fn inbound_outcome(
    registry: Option<Seq<char>>,
    sender: Seq<char>,
    from: Seq<char>,
    data: Seq<u8>,
) -> Result<Seq<EventView>, ErrorView> {
    match registry {
        None => Err(ErrorView::GatewayNotConfigured),
        Some(gateway) => if sender != gateway {
            Err(ErrorView::Unauthorized)
        } else {
            match decoded(data) {
                Err(error) => Err(ErrorView::DecodeError { error }),
                Ok(text) => Ok(inbound_events(from, text)),
            }
        },
    }
}

/// What becomes of a call to `to` that is sent, with `funds`, through an endpoint
/// whose registry holds `registry`.
pub open spec fn outbound_outcome(
    registry: Option<Seq<char>>,
    funds: Seq<Coin>,
    to: Seq<char>,
    data: Seq<u8>,
    rollback: Option<Seq<u8>>,
) -> Result<OutboundCallView, ErrorView> {
    match registry {
        None => Err(ErrorView::GatewayNotConfigured),
        Some(gateway) => Ok(
            OutboundCallView {
                contract_addr: gateway,
                envelope: envelope_of(to, data, rollback),
                funds,
            },
        ),
    }
}

/// Whether `r` is what [`handle_call_message`] returns for a delivery: the failure
/// that [`inbound_outcome`] names, or a response that holds the events it names and
/// nothing else.
pub open spec fn is_inbound_result(
    r: Result<Response, ContractError>,
    registry: Option<Seq<char>>,
    sender: Seq<char>,
    from: Seq<char>,
    data: Seq<u8>,
) -> bool {
    match r {
        Ok(response) => {
            &&& inbound_outcome(registry, sender, from, data) == Ok::<Seq<EventView>, ErrorView>(
                event_views(response.events@),
            )
            &&& response.messages@.len() == 0
            &&& response.attributes@.len() == 0
            &&& response.data is None
        },
        Err(e) => inbound_outcome(registry, sender, from, data) == Err::<Seq<EventView>, ErrorView>(
            e@,
        ),
    }
}

/// Whether `r` is what [`send_call_message`] returns for a call: what
/// [`outbound_outcome`] names.
pub open spec fn is_outbound_result(
    r: Result<OutboundCall, ContractError>,
    registry: Option<Seq<char>>,
    funds: Seq<Coin>,
    to: Seq<char>,
    data: Seq<u8>,
    rollback: Option<Seq<u8>>,
) -> bool {
    outbound_outcome(registry, funds, to, data, rollback) == match r {
        Ok(call) => Ok::<OutboundCallView, ErrorView>(call@),
        Err(e) => Err(e@),
    }
}

/// A call that is sent while a gateway is configured always goes out. It goes to the
/// gateway's address, with the funds that came with it, and its envelope holds the
/// destination, the data and the rollback as they were given, and names no relay.
pub proof fn send_goes_to_the_gateway(
    gateway: Seq<char>,
    funds: Seq<Coin>,
    to: Seq<char>,
    data: Seq<u8>,
    rollback: Option<Seq<u8>>,
)
    ensures
        outbound_outcome(Some(gateway), funds, to, data, rollback) matches Ok(call) && {
            &&& call.contract_addr == gateway
            &&& call.funds == funds
            &&& call.envelope.to == to
            &&& call.envelope.data == data
            &&& call.envelope.rollback == rollback
            &&& call.envelope.sources is None
            &&& call.envelope.destinations is None
        },
{
}

/// A delivery by anyone but the configured gateway is refused as unauthorized,
/// whatever its payload, and raises no event.
pub proof fn stranger_is_refused(
    gateway: Seq<char>,
    sender: Seq<char>,
    from: Seq<char>,
    data: Seq<u8>,
)
    requires
        sender != gateway,
    ensures
        inbound_outcome(Some(gateway), sender, from, data) == Err::<Seq<EventView>, ErrorView>(
            ErrorView::Unauthorized,
        ),
{
}

/// A delivery by the gateway of UTF-8 text other than the rollback payload raises
/// exactly one event: that a message was received, with the text as its data.
pub proof fn message_is_reported_once(gateway: Seq<char>, from: Seq<char>, data: Seq<u8>)
    requires
        valid_utf8(data),
        decode_utf8(data) != ROLLBACK_SENTINEL@,
    ensures
        inbound_outcome(Some(gateway), gateway, from, data) == Ok::<Seq<EventView>, ErrorView>(
            seq![receipt(MESSAGE_RECEIVED@, from, decode_utf8(data))],
        ),
{
}

/// A delivery by the gateway of exactly the rollback payload raises exactly two
/// events, in this order: that a message was received, and that rollback data was
/// received. Both have the rollback payload as their data.
pub proof fn rollback_is_reported_twice(gateway: Seq<char>, from: Seq<char>, data: Seq<u8>)
    requires
        data == encode_utf8(ROLLBACK_SENTINEL@),
    ensures
        inbound_outcome(Some(gateway), gateway, from, data) == Ok::<Seq<EventView>, ErrorView>(
            seq![
                receipt(MESSAGE_RECEIVED@, from, ROLLBACK_SENTINEL@),
                receipt(ROLLBACK_DATA_RECEIVED@, from, ROLLBACK_SENTINEL@),
            ],
        ),
{
    encode_utf8_valid_utf8(ROLLBACK_SENTINEL@);
    encode_utf8_decode_utf8(ROLLBACK_SENTINEL@);
}

/// A delivery by the gateway of bytes that are not UTF-8 text fails to decode, and
/// raises no event.
pub proof fn garbled_payload_is_refused(gateway: Seq<char>, from: Seq<char>, data: Seq<u8>)
    requires
        !valid_utf8(data),
    ensures
        inbound_outcome(Some(gateway), gateway, from, data) == Err::<Seq<EventView>, ErrorView>(
            ErrorView::DecodeError { error: utf8_failure_text(data) },
        ),
{
}

/// Constructs the endpoint: stores `msg.xcall_address` in the registry as the
/// gateway address.
///
/// `host_accepts` is the host chain's verdict on that address. Without it nothing is
/// stored and construction fails.
pub fn instantiate(registry: &mut Registry, msg: InstantiateMsg, host_accepts: bool) -> (r: Result<
    Response,
    ContractError,
>)
    ensures
        final(registry)@ == initialized(old(registry)@, msg.xcall_address@, host_accepts),
        host_accepts ==> (r matches Ok(response) && is_empty_response(response)),
        !host_accepts ==> (r matches Err(e) && e@ == ErrorView::InvalidAddress),
{
    match registry.initialize(msg.xcall_address, host_accepts) {
        Ok(()) => Ok(response_new()),
        Err(e) => Err(e),
    }
}

/// The event that reports a message from `from` with text `data`.
pub fn event_message_received(from: &str, data: &str) -> (event: Event)
    ensures
        event_view(event) == receipt(MESSAGE_RECEIVED@, from@, data@),
{
    let event = event_new(MESSAGE_RECEIVED);
    assert(attribute_pairs(event.attributes@) =~= Seq::empty());
    let event = event_add_attribute(event, "from", from);
    let event = event_add_attribute(event, "data", data);
    assert(attribute_pairs(event.attributes@) =~= seq![("from"@, from@), ("data"@, data@)]);
    event
}

/// The event that reports rollback data from `from` with text `data`.
pub fn event_rollbackdata_received(from: &str, data: &str) -> (event: Event)
    ensures
        event_view(event) == receipt(ROLLBACK_DATA_RECEIVED@, from@, data@),
{
    let event = event_new(ROLLBACK_DATA_RECEIVED);
    assert(attribute_pairs(event.attributes@) =~= Seq::empty());
    let event = event_add_attribute(event, "from", from);
    let event = event_add_attribute(event, "data", data);
    assert(attribute_pairs(event.attributes@) =~= seq![("from"@, from@), ("data"@, data@)]);
    event
}

/// Takes delivery of `data`, relayed from `from`, on behalf of the caller in `info`.
///
/// Only the gateway that the registry holds may deliver. Its payload must be UTF-8
/// text; the response reports it in the events of [`inbound_events`].
pub fn handle_call_message(
    registry: &Registry,
    info: MessageInfo,
    from: NetworkAddress,
    data: Vec<u8>,
) -> (r: Result<Response, ContractError>)
    ensures
        is_inbound_result(r, registry@, addr_text(info.sender), from@, data@),
{
    let gateway = match registry.get() {
        Ok(gateway) => gateway,
        Err(e) => {
            return Err(e);
        },
    };
    if !same_text(addr_as_str(&info.sender), gateway) {
        return Err(ContractError::Unauthorized {  });
    }
    let payload = match decode_utf8_text(data.as_slice()) {
        Ok(text) => text,
        Err(error) => {
            return Err(ContractError::DecodeError { error });
        },
    };
    let mut response = response_new();
    response = response_add_event(response, event_message_received(from.as_str(), payload));
    assert(event_views(response.events@) =~= seq![
        receipt(MESSAGE_RECEIVED@, from@, payload@),
    ]);
    if is_rollback_sentinel(payload) {
        response =
        response_add_event(response, event_rollbackdata_received(from.as_str(), payload));
        assert(event_views(response.events@) =~= seq![
            receipt(MESSAGE_RECEIVED@, from@, payload@),
            receipt(ROLLBACK_DATA_RECEIVED@, from@, payload@),
        ]);
    }
    Ok(response)
}

/// Addresses a call to `to` to the gateway that the registry holds, with the funds
/// that came in `info`.
///
/// The envelope names no relay. It is still to be encoded: see
/// [`OutboundCall::into_response`].
pub fn send_call_message(
    registry: &Registry,
    info: MessageInfo,
    to: NetworkAddress,
    data: Vec<u8>,
    rollback: Option<Vec<u8>>,
) -> (r: Result<OutboundCall, ContractError>)
    ensures
        is_outbound_result(r, registry@, info.funds@, to@, data@, optional_bytes(rollback)),
{
    let gateway = match registry.get() {
        Ok(gateway) => gateway,
        Err(e) => {
            return Err(e);
        },
    };
    Ok(
        OutboundCall {
            contract_addr: gateway.to_owned(),
            envelope: CallEnvelope::new(to, data, rollback),
            funds: info.funds,
        },
    )
}

/// What [`execute`] hands back when it succeeds.
#[derive(Debug, PartialEq)]
pub enum ExecuteOutcome {
    /// A call addressed to the gateway, still to be encoded.
    Outbound(OutboundCall),
    /// The response to a delivery.
    Delivered(Response),
}

/// Does what `msg` asks: [`send_call_message`] or [`handle_call_message`].
pub fn execute(registry: &Registry, info: MessageInfo, msg: ExecuteMsg) -> (r: Result<
    ExecuteOutcome,
    ContractError,
>)
    ensures
        match msg {
            ExecuteMsg::SendCallMessage { to, data, rollback } => match r {
                Ok(ExecuteOutcome::Outbound(call)) => is_outbound_result(
                    Ok(call),
                    registry@,
                    info.funds@,
                    to@,
                    data@,
                    optional_bytes(rollback),
                ),
                Ok(ExecuteOutcome::Delivered(_)) => false,
                Err(e) => is_outbound_result(
                    Err(e),
                    registry@,
                    info.funds@,
                    to@,
                    data@,
                    optional_bytes(rollback),
                ),
            },
            ExecuteMsg::HandleCallMessage { from, data } => match r {
                Ok(ExecuteOutcome::Delivered(response)) => is_inbound_result(
                    Ok(response),
                    registry@,
                    addr_text(info.sender),
                    from@,
                    data@,
                ),
                Ok(ExecuteOutcome::Outbound(_)) => false,
                Err(e) => is_inbound_result(
                    Err(e),
                    registry@,
                    addr_text(info.sender),
                    from@,
                    data@,
                ),
            },
        },
{
    match msg {
        ExecuteMsg::SendCallMessage { to, data, rollback } => {
            match send_call_message(registry, info, to, data, rollback) {
                Ok(call) => Ok(ExecuteOutcome::Outbound(call)),
                Err(e) => Err(e),
            }
        },
        ExecuteMsg::HandleCallMessage { from, data } => {
            match handle_call_message(registry, info, from, data) {
                Ok(response) => Ok(ExecuteOutcome::Delivered(response)),
                Err(e) => Err(e),
            }
        },
    }
}

/// Answers a query. The endpoint answers none: every query fails.
pub fn query() -> (r: Result<Binary, ContractError>)
    ensures
        r matches Err(e) && e@ == ErrorView::NotImplemented,
{
    Err(ContractError::NotImplemented)
}

} // verus!
