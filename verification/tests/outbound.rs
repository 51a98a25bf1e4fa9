use cosmwasm_std::testing::mock_info;
use cosmwasm_std::{coins, Binary, Coin, CosmosMsg, ReplyOn, SubMsg, WasmMsg};
use hello_world::contract::send_call_message;
use hello_world::envelope::{CallEnvelope, OutboundCall};
use hello_world::msg::NetworkAddress;
use hello_world::state::Registry;
use hello_world::ContractError;

fn gateway() -> Registry {
    Registry::restore(Some("wasm1gateway...".to_string()))
}

fn remote() -> NetworkAddress {
    NetworkAddress::new("0x1.icon/0xabc".to_string())
}

#[test]
fn send_without_gateway_fails() {
    let registry = Registry::new();
    let info = mock_info("wasm1anyone", &coins(5, "uatom"));
    let failure = send_call_message(&registry, info, remote(), vec![1], None).unwrap_err();
    assert_eq!(failure, ContractError::GatewayNotConfigured);
}

#[test]
fn send_succeeds_for_any_caller_and_payload() {
    let registry = gateway();
    let payloads: [(Vec<u8>, Option<Vec<u8>>); 4] = [
        (vec![], None),
        (vec![], Some(vec![])),
        (vec![0xff, 0x00, 0xfe], Some(vec![0xff; 300])),
        (b"ExecuteRollback".to_vec(), Some(b"undo".to_vec())),
    ];
    for caller in ["wasm1gateway...", "wasm1someoneelse...", ""] {
        for (data, rollback) in payloads.iter() {
            let info = mock_info(caller, &[]);
            let call =
                send_call_message(&registry, info, remote(), data.clone(), rollback.clone())
                    .unwrap();
            assert_eq!(
                call,
                OutboundCall {
                    contract_addr: "wasm1gateway...".to_string(),
                    envelope: CallEnvelope {
                        to: remote(),
                        data: data.clone(),
                        rollback: rollback.clone(),
                        sources: None,
                        destinations: None,
                    },
                    funds: vec![],
                }
            );
        }
    }
}

#[test]
fn send_forwards_the_funds_unchanged() {
    let registry = gateway();
    let funds = vec![Coin::new(7, "uatom"), Coin::new(0, "uosmo"), Coin::new(7, "uatom")];
    let info = mock_info("wasm1anyone", &funds);
    let call = send_call_message(&registry, info, remote(), vec![1, 2], None).unwrap();
    assert_eq!(call.funds, funds);
}

#[test]
fn envelope_names_no_relay() {
    let envelope = CallEnvelope::new(remote(), vec![9], Some(vec![8]));
    assert_eq!(envelope.to, remote());
    assert_eq!(envelope.data, vec![9]);
    assert_eq!(envelope.rollback, Some(vec![8]));
    assert_eq!(envelope.sources, None);
    assert_eq!(envelope.destinations, None);
}

#[test]
fn response_carries_one_message_and_the_action() {
    let funds = coins(12, "uatom");
    let call = OutboundCall {
        contract_addr: "wasm1gateway...".to_string(),
        envelope: CallEnvelope::new(remote(), vec![1], None),
        funds: funds.clone(),
    };
    let response = call.into_response(vec![0x7b, 0x7d]);
    assert_eq!(
        response.messages,
        vec![SubMsg {
            id: 0,
            msg: CosmosMsg::Wasm(WasmMsg::Execute {
                contract_addr: "wasm1gateway...".to_string(),
                msg: Binary(vec![0x7b, 0x7d]),
                funds,
            }),
            gas_limit: None,
            reply_on: ReplyOn::Never,
        }]
    );
    assert_eq!(response.attributes.len(), 1);
    assert_eq!(response.attributes[0].key, "Action");
    assert_eq!(response.attributes[0].value, "SendMessage");
    assert!(response.events.is_empty());
    assert!(response.data.is_none());
}

#[test]
fn response_takes_an_empty_payload() {
    let call = OutboundCall {
        contract_addr: String::new(),
        envelope: CallEnvelope::new(remote(), vec![], None),
        funds: vec![],
    };
    let response = call.into_response(vec![]);
    assert_eq!(response.messages.len(), 1);
    assert_eq!(
        response.messages[0].msg,
        CosmosMsg::Wasm(WasmMsg::Execute {
            contract_addr: String::new(),
            msg: Binary(vec![]),
            funds: vec![],
        })
    );
}
