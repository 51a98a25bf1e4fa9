use cosmwasm_std::testing::mock_info;
use cosmwasm_std::{coins, Attribute, Event};
use hello_world::contract::{
    event_message_received, event_rollbackdata_received, handle_call_message, MESSAGE_RECEIVED,
    ROLLBACK_DATA_RECEIVED,
};
use hello_world::msg::NetworkAddress;
use hello_world::state::Registry;
use hello_world::text::{is_rollback_sentinel, same_text, ROLLBACK_SENTINEL};
use hello_world::ContractError;

const GATEWAY: &str = "wasm1gateway...";

fn gateway() -> Registry {
    Registry::restore(Some(GATEWAY.to_string()))
}

fn remote() -> NetworkAddress {
    NetworkAddress::new("0x1.icon/0xabc".to_string())
}

fn attribute(key: &str, value: &str) -> Attribute {
    Attribute { key: key.to_string(), value: value.to_string() }
}

#[test]
fn delivery_without_gateway_fails() {
    let registry = Registry::new();
    let info = mock_info(GATEWAY, &[]);
    let failure = handle_call_message(&registry, info, remote(), b"hello".to_vec()).unwrap_err();
    assert_eq!(failure, ContractError::GatewayNotConfigured);
}

#[test]
fn stranger_is_refused_whatever_the_payload() {
    let registry = gateway();
    let payloads: [&[u8]; 4] = [b"hello", b"ExecuteRollback", b"", &[0xff, 0xfe]];
    for caller in ["wasm1someoneelse...", "wasm1gateway..", "wasm1gateway....", "WASM1GATEWAY...", ""]
    {
        for payload in payloads {
            let info = mock_info(caller, &coins(1, "uatom"));
            let failure =
                handle_call_message(&registry, info, remote(), payload.to_vec()).unwrap_err();
            assert_eq!(failure, ContractError::Unauthorized {});
        }
    }
}

#[test]
fn text_is_reported_in_one_event() {
    let registry = gateway();
    for text in ["hello", "", "executerollback", "ExecuteRollback ", "ExecuteRollbac", "h\u{e9}llo \u{1f600}"]
    {
        let info = mock_info(GATEWAY, &[]);
        let response =
            handle_call_message(&registry, info, remote(), text.as_bytes().to_vec()).unwrap();
        assert_eq!(response.events.len(), 1);
        assert_eq!(response.events[0].ty, "MessageReceived");
        assert_eq!(
            response.events[0].attributes,
            vec![attribute("from", "0x1.icon/0xabc"), attribute("data", text)]
        );
        assert!(response.messages.is_empty());
        assert!(response.attributes.is_empty());
        assert!(response.data.is_none());
    }
}

#[test]
fn rollback_is_reported_in_two_events() {
    let registry = gateway();
    let info = mock_info(GATEWAY, &[]);
    let response =
        handle_call_message(&registry, info, remote(), b"ExecuteRollback".to_vec()).unwrap();
    let attributes = vec![attribute("from", "0x1.icon/0xabc"), attribute("data", "ExecuteRollback")];
    assert_eq!(response.events.len(), 2);
    assert_eq!(response.events[0].ty, "MessageReceived");
    assert_eq!(response.events[0].attributes, attributes);
    assert_eq!(response.events[1].ty, "RollbackDataReceived");
    assert_eq!(response.events[1].attributes, attributes);
    assert!(response.messages.is_empty());
    assert!(response.attributes.is_empty());
    assert!(response.data.is_none());
}

#[test]
fn bytes_that_are_not_text_fail_to_decode() {
    let registry = gateway();
    let info = mock_info(GATEWAY, &[]);
    let failure = handle_call_message(&registry, info, remote(), vec![0xff, 0xfe]).unwrap_err();
    assert_eq!(
        failure,
        ContractError::DecodeError {
            error: "invalid utf-8 sequence of 1 bytes from index 0".to_string()
        }
    );
}

#[test]
fn decode_failure_is_described_as_std_describes_it() {
    let registry = gateway();
    let garbled: [&[u8]; 4] =
        [&[0xff], &[b'o', b'k', 0xc3], &[b'a', 0xe2, 0x82], &[0xed, 0xa0, 0x80]];
    for bytes in garbled {
        let expected = std::str::from_utf8(bytes).unwrap_err().to_string();
        let info = mock_info(GATEWAY, &[]);
        let failure = handle_call_message(&registry, info, remote(), bytes.to_vec()).unwrap_err();
        assert_eq!(failure, ContractError::DecodeError { error: expected });
    }
}

#[test]
fn same_delivery_twice_gives_the_same_events() {
    let registry = gateway();
    let first =
        handle_call_message(&registry, mock_info(GATEWAY, &[]), remote(), b"again".to_vec());
    let second =
        handle_call_message(&registry, mock_info(GATEWAY, &[]), remote(), b"again".to_vec());
    assert_eq!(first, second);
}

#[test]
fn message_received_event_has_from_and_data() {
    let event = event_message_received("0x1.icon/0xabc", "hello");
    assert_eq!(
        event,
        Event::new("MessageReceived")
            .add_attribute("from", "0x1.icon/0xabc")
            .add_attribute("data", "hello")
    );
    assert_eq!(event.ty, MESSAGE_RECEIVED);
    assert_eq!(event.attributes, vec![attribute("from", "0x1.icon/0xabc"), attribute("data", "hello")]);
}

#[test]
fn rollback_event_has_from_and_data() {
    let event = event_rollbackdata_received("", "_x \"quoted\"");
    assert_eq!(event.ty, "RollbackDataReceived");
    assert_eq!(event.ty, ROLLBACK_DATA_RECEIVED);
    assert_eq!(event.attributes, vec![attribute("from", ""), attribute("data", "_x \"quoted\"")]);
}

#[test]
fn sentinel_is_matched_exactly() {
    assert_eq!(ROLLBACK_SENTINEL, "ExecuteRollback");
    assert!(is_rollback_sentinel("ExecuteRollback"));
    for text in ["", "executerollback", "ExecuteRollback\n", " ExecuteRollback", "ExecuteRollbackX", "Execute"]
    {
        assert!(!is_rollback_sentinel(text));
    }
}

#[test]
fn same_text_compares_every_character() {
    assert!(same_text("", ""));
    assert!(same_text("wasm1gateway...", "wasm1gateway..."));
    assert!(!same_text("wasm1gateway...", "wasm1gateway.."));
    assert!(!same_text("a", "A"));
    assert!(!same_text("", " "));
}

#[test]
fn network_address_keeps_its_text() {
    let address = NetworkAddress::new("0x1.icon/0xabc".to_string());
    assert_eq!(address.as_str(), "0x1.icon/0xabc");
    assert_eq!(address.to_string(), "0x1.icon/0xabc");
    assert_eq!(address, NetworkAddress::new("0x1.icon/0xabc".to_string()));
    assert_ne!(address, NetworkAddress::new("0x1.icon/0xABC".to_string()));
}
