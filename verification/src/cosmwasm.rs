//! The part of `cosmwasm_std` that the endpoint builds its answers with.
//!
//! The types whose fields are all public are made known to Verus as they are, so
//! that contracts speak of their fields. The functions below are the only code
//! here that Verus takes on trust: each makes one call into `cosmwasm_std` and
//! states what that call does.
use cosmwasm_std::{
    Addr, Attribute, BankMsg, Binary, Coin, CosmosMsg, Empty, Event, MessageInfo, ReplyOn,
    Response, SubMsg, WasmMsg,
};
use vstd::prelude::*;

verus! {

#[verifier::external_type_specification]
#[verifier::external_body]
pub struct ExAddr(Addr);

#[verifier::external_type_specification]
#[verifier::external_body]
pub struct ExCoin(Coin);

#[verifier::external_type_specification]
#[verifier::external_body]
pub struct ExEmpty(Empty);

#[verifier::external_type_specification]
pub struct ExMessageInfo(MessageInfo);

#[verifier::external_type_specification]
pub struct ExAttribute(Attribute);

#[verifier::external_type_specification]
pub struct ExEvent(Event);

#[verifier::external_type_specification]
pub struct ExBinary(Binary);

#[verifier::external_type_specification]
pub struct ExBankMsg(BankMsg);

#[verifier::external_type_specification]
pub struct ExWasmMsg(WasmMsg);

#[verifier::external_type_specification]
#[verifier::reject_recursive_types(T)]
pub struct ExCosmosMsg<T>(CosmosMsg<T>);

#[verifier::external_type_specification]
pub struct ExReplyOn(ReplyOn);

#[verifier::external_type_specification]
#[verifier::reject_recursive_types(T)]
pub struct ExSubMsg<T>(SubMsg<T>);

#[verifier::external_type_specification]
#[verifier::reject_recursive_types(T)]
pub struct ExResponse<T>(Response<T>);

/// The text of an address, as `Addr::as_str` gives it.
pub uninterp spec fn addr_text(addr: Addr) -> Seq<char>;

/// Attributes as pairs of key and value, in order.
pub open spec fn attribute_pairs(attributes: Seq<Attribute>) -> Seq<(Seq<char>, Seq<char>)> {
    attributes.map_values(|a: Attribute| (a.key@, a.value@))
}

/// An event as plain text: its type and its attributes in order.
pub struct EventView {
    pub ty: Seq<char>,
    pub attributes: Seq<(Seq<char>, Seq<char>)>,
}

/// What an event says.
pub open spec fn event_view(event: Event) -> EventView {
    EventView { ty: event.ty@, attributes: attribute_pairs(event.attributes@) }
}

/// What each of a list of events says, in order.
pub open spec fn event_views(events: Seq<Event>) -> Seq<EventView> {
    events.map_values(|e: Event| event_view(e))
}

/// The message with which `Response::add_message` queues `msg`: sent once, with no
/// reply asked for and no gas limit.
pub open spec fn fire_and_forget(msg: CosmosMsg<Empty>) -> SubMsg<Empty> {
    SubMsg { id: 0, msg, gas_limit: None, reply_on: ReplyOn::Never }
}

/// Calls `Addr::as_str`. Trusted: the text returned is the address's own, which
/// [`addr_text`] names.
#[verifier::external_body]
pub(crate) fn addr_as_str(addr: &Addr) -> (text: &str)
    ensures
        text@ == addr_text(*addr),
{
    addr.as_str()
}

/// Calls `Event::new`. Trusted: the event has the type given and no attributes.
#[verifier::external_body]
pub(crate) fn event_new(ty: &str) -> (event: Event)
    ensures
        event.ty@ == ty@,
        event.attributes@.len() == 0,
{
    Event::new(ty)
}

/// Calls `Event::add_attribute`. Trusted: the event comes back with its type and
/// its attributes as they were, and one more attribute after them, made of `key`
/// and `value`.
#[verifier::external_body]
pub(crate) fn event_add_attribute(event: Event, key: &str, value: &str) -> (out: Event)
    ensures
        out.ty@ == event.ty@,
        attribute_pairs(out.attributes@) == attribute_pairs(event.attributes@).push(
            (key@, value@),
        ),
{
    event.add_attribute(key, value)
}

/// Calls `Response::new`. Trusted: the response is empty.
#[verifier::external_body]
pub(crate) fn response_new() -> (response: Response<Empty>)
    ensures
        response.messages@.len() == 0,
        response.attributes@.len() == 0,
        response.events@.len() == 0,
        response.data is None,
{
    Response::new()
}

/// Calls `Response::add_attribute`, which in a debug build panics on a key that
/// starts with an underscore. Trusted: the response comes back with one more
/// attribute after those it had, made of `key` and `value`, and is otherwise as it
/// was.
#[verifier::external_body]
pub(crate) fn response_add_attribute(response: Response<Empty>, key: &str, value: &str) -> (out:
    Response<Empty>)
    requires
        key@.len() == 0 || key@[0] != '_',
    ensures
        attribute_pairs(out.attributes@) == attribute_pairs(response.attributes@).push(
            (key@, value@),
        ),
        out.messages@ == response.messages@,
        out.events@ == response.events@,
        out.data == response.data,
{
    response.add_attribute(key, value)
}

/// Calls `Response::add_event`. Trusted: the response comes back with `event` after
/// the events it had, and is otherwise as it was.
#[verifier::external_body]
pub(crate) fn response_add_event(response: Response<Empty>, event: Event) -> (out: Response<
    Empty,
>)
    ensures
        out.events@ == response.events@.push(event),
        out.messages@ == response.messages@,
        out.attributes@ == response.attributes@,
        out.data == response.data,
{
    response.add_event(event)
}

/// Calls `Response::add_message`. Trusted: the response comes back with `msg`,
/// queued as [`fire_and_forget`] says, after the messages it had, and is otherwise
/// as it was.
#[verifier::external_body]
pub(crate) fn response_add_message(response: Response<Empty>, msg: CosmosMsg<Empty>) -> (out:
    Response<Empty>)
    ensures
        out.messages@ == response.messages@.push(fire_and_forget(msg)),
        out.attributes@ == response.attributes@,
        out.events@ == response.events@,
        out.data == response.data,
{
    response.add_message(msg)
}

} // verus!
