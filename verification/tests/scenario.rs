use contracts_manager::contract::{execute, instantiate, query, reply};
use contracts_manager::contracts::Contract;
use contracts_manager::error::{ContractError, HostFailure, Missing};
use contracts_manager::execute::instantiate_contract::INSTANTIATE_REPLY_ID;
use contracts_manager::host::{
    Attribute, ContractInfo, Env, Event, InstantiateRequest, MessageInfo, Reply, ReplyOn, Response,
    SubMsg, SubMsgResponse, SubMsgResult,
};
use contracts_manager::metadata::{ContractMetadata, RewardsTarget};
use contracts_manager::msg::{AddressInput, ExecuteMsg, InstantiateMsg, QueryMsg, QueryResponse};
use contracts_manager::state::State;

fn env() -> Env {
    Env { contract: ContractInfo { address: "registry".to_string() } }
}

fn from(sender: &str) -> MessageInfo {
    MessageInfo { sender: sender.to_string(), funds: vec![] }
}

fn attribute(key: &str, value: &str) -> Attribute {
    Attribute { key: key.to_string(), value: value.to_string() }
}

fn registry_of(admin: &str) -> State {
    let (state, _) = instantiate(env(), from(admin), InstantiateMsg { owner: None }).unwrap();
    state
}

/// The bytes that the host sends for a contract instantiated at `address`.
fn instantiated_at(address: &str) -> Vec<u8> {
    let mut data = vec![0x0a, address.len() as u8];
    data.extend_from_slice(address.as_bytes());
    data
}

fn instantiate_reply(address: &str, code_id: &str) -> Reply {
    Reply {
        id: INSTANTIATE_REPLY_ID,
        result: SubMsgResult::Success(SubMsgResponse {
            events: vec![Event {
                ty: "instantiate".to_string(),
                attributes: vec![
                    attribute("_contract_address", address),
                    attribute("code_id", code_id),
                ],
            }],
            data: Some(instantiated_at(address)),
        }),
    }
}

fn request(code_id: u64, label: &str) -> ExecuteMsg {
    ExecuteMsg::InstantiateContract {
        code_id,
        instantiate_msg: b"{}".to_vec(),
        label: label.to_string(),
    }
}

fn add_contract(state: &mut State, admin: &str, code_id: u64, label: &str, address: &str) {
    execute(state, env(), from(admin), request(code_id, label)).unwrap();
    reply(state, env(), instantiate_reply(address, &code_id.to_string())).unwrap();
}

fn listed(state: &State) -> Vec<(String, String)> {
    match query(state, env(), QueryMsg::ContractsList {}).unwrap() {
        QueryResponse::ContractsList(list) => {
            list.into_iter().map(|(label, contract)| (label, contract.address)).collect()
        }
        other => panic!("unexpected answer: {:?}", other),
    }
}

fn pair(label: &str, address: &str) -> (String, String) {
    (label.to_string(), address.to_string())
}

#[test]
fn alice_instantiates_a_vault_and_sets_its_rewards_address() {
    let mut state = registry_of("alice");
    assert_eq!(state.admin, "alice");

    let response = execute(&mut state, env(), from("alice"), request(5, "vault")).unwrap();
    assert_eq!(state.label_cache, Some("vault".to_string()));
    assert_eq!(
        response,
        Response {
            messages: vec![SubMsg {
                id: INSTANTIATE_REPLY_ID,
                msg: InstantiateRequest {
                    admin: Some("registry".to_string()),
                    code_id: 5,
                    msg: b"{}".to_vec(),
                    funds: vec![],
                    label: "vault".to_string(),
                },
                reply_on: ReplyOn::Success,
            }],
            attributes: vec![
                attribute("action", "instantiate_contract"),
                attribute("code_id", "5"),
                attribute("label", "vault"),
            ],
        }
    );

    let response = reply(&mut state, env(), instantiate_reply("contractX", "5")).unwrap();
    assert_eq!(response, Response { messages: vec![], attributes: vec![] });
    assert_eq!(state.contracts.get(5, &"vault".to_string()), Some("contractX".to_string()));
    assert_eq!(
        state.metadata.get(&"contractX".to_string()),
        Some(ContractMetadata { rewards_address: None, metadata_set: false })
    );
    assert_eq!(state.label_cache, None);

    assert_eq!(listed(&state), vec![pair("vault", "contractX")]);

    let set = ExecuteMsg::SetContractMetadata {
        contract_address: "contractX".to_string(),
        rewards_address: "rewardsY".to_string(),
    };
    let response = execute(&mut state, env(), from("alice"), set.clone()).unwrap();
    assert_eq!(
        response,
        Response { messages: vec![], attributes: vec![attribute("action", "set_contract_metadata")] }
    );
    let answer = query(
        &state,
        env(),
        QueryMsg::ContractMetadata { contract_address: "contractX".to_string() },
    );
    assert_eq!(
        answer,
        Ok(QueryResponse::ContractMetadata(ContractMetadata {
            rewards_address: Some("rewardsY".to_string()),
            metadata_set: true,
        }))
    );

    let before = state.clone();
    assert_eq!(execute(&mut state, env(), from("bob"), set), Err(ContractError::Unauthorized));
    assert_eq!(state, before);
}

#[test]
fn instantiate_makes_the_sender_admin_when_no_owner_is_named() {
    let (state, response) =
        instantiate(env(), from("alice"), InstantiateMsg { owner: None }).unwrap();
    assert_eq!(state.admin, "alice");
    assert_eq!(state.label_cache, None);
    assert!(state.contracts.records().is_empty());
    assert!(state.metadata.entries().is_empty());
    assert_eq!(
        response,
        Response {
            messages: vec![],
            attributes: vec![attribute("action", "instantiated_contract_manager")],
        }
    );
}

#[test]
fn instantiate_makes_the_named_owner_admin() {
    let owner = AddressInput { text: "carol".to_string(), well_formed: true };
    let (state, _) =
        instantiate(env(), from("alice"), InstantiateMsg { owner: Some(owner) }).unwrap();
    assert_eq!(state.admin, "carol");
}

#[test]
fn instantiate_rejects_a_malformed_owner() {
    let owner = AddressInput { text: "C".to_string(), well_formed: false };
    let result = instantiate(env(), from("alice"), InstantiateMsg { owner: Some(owner) });
    assert_eq!(result.err(), Some(ContractError::InvalidAddress));
}

#[test]
fn after_a_change_of_owner_only_the_new_owner_is_admitted() {
    let mut state = registry_of("alice");
    add_contract(&mut state, "alice", 5, "vault", "contractX");
    let to_bob = ExecuteMsg::ChangeOwner {
        new_owner: AddressInput { text: "bob".to_string(), well_formed: true },
    };
    let response = execute(&mut state, env(), from("alice"), to_bob).unwrap();
    assert_eq!(
        response.attributes,
        vec![attribute("action", "change_owner"), attribute("new_owner", "bob")]
    );
    assert_eq!(state.admin, "bob");

    let privileged = vec![
        request(7, "pool"),
        ExecuteMsg::ChangeOwner {
            new_owner: AddressInput { text: "alice".to_string(), well_formed: true },
        },
        ExecuteMsg::ChangeOwner {
            new_owner: AddressInput { text: "?".to_string(), well_formed: false },
        },
        ExecuteMsg::SetContractMetadata {
            contract_address: "contractX".to_string(),
            rewards_address: "rewardsY".to_string(),
        },
        ExecuteMsg::SetContractMetadata {
            contract_address: "nowhere".to_string(),
            rewards_address: "rewardsY".to_string(),
        },
    ];
    for caller in ["alice", "carol", "", "bob "] {
        for msg in privileged.iter() {
            let before = state.clone();
            let result = execute(&mut state, env(), from(caller), msg.clone());
            assert_eq!(result, Err(ContractError::Unauthorized));
            assert_eq!(state, before);
        }
    }
    assert!(execute(&mut state, env(), from("bob"), request(7, "pool")).is_ok());
}

#[test]
fn change_owner_rejects_a_malformed_address() {
    let mut state = registry_of("alice");
    let msg = ExecuteMsg::ChangeOwner {
        new_owner: AddressInput { text: "b".to_string(), well_formed: false },
    };
    assert_eq!(execute(&mut state, env(), from("alice"), msg), Err(ContractError::InvalidAddress));
    assert_eq!(state.admin, "alice");
}

#[test]
fn a_message_that_names_no_operation_is_unimplemented() {
    let mut state = registry_of("alice");
    let before = state.clone();
    for caller in ["alice", "bob"] {
        let msg = ExecuteMsg::Other { name: "migrate_all".to_string() };
        assert_eq!(execute(&mut state, env(), from(caller), msg), Err(ContractError::Unimplemented));
    }
    assert_eq!(state, before);
}

#[test]
fn a_request_overwrites_the_cached_label() {
    let mut state = registry_of("alice");
    execute(&mut state, env(), from("alice"), request(5, "first")).unwrap();
    execute(&mut state, env(), from("alice"), request(5, "second")).unwrap();
    assert_eq!(state.label_cache, Some("second".to_string()));
    reply(&mut state, env(), instantiate_reply("contractX", "5")).unwrap();
    assert_eq!(state.contracts.get(5, &"second".to_string()), Some("contractX".to_string()));
    assert_eq!(state.contracts.get(5, &"first".to_string()), None);
}

#[test]
fn a_reply_adds_one_record_and_one_unset_metadata_entry() {
    let mut state = registry_of("alice");
    add_contract(&mut state, "alice", 1, "a", "addr1");
    let before = state.clone();
    add_contract(&mut state, "alice", 2, "b", "addr2");
    assert_eq!(state.contracts.records().len(), before.contracts.records().len() + 1);
    assert_eq!(state.metadata.entries().len(), before.metadata.entries().len() + 1);
    assert_eq!(state.contracts.get(1, &"a".to_string()), Some("addr1".to_string()));
    assert_eq!(state.contracts.get(2, &"b".to_string()), Some("addr2".to_string()));
    assert_eq!(
        state.metadata.get(&"addr2".to_string()),
        Some(ContractMetadata { rewards_address: None, metadata_set: false })
    );
    assert_eq!(state.label_cache, None);
    assert_eq!(state.admin, "alice");
}

#[test]
fn a_duplicate_is_accepted_at_the_request_and_fails_at_the_reply() {
    let mut state = registry_of("alice");
    add_contract(&mut state, "alice", 5, "vault", "contractX");
    assert!(execute(&mut state, env(), from("alice"), request(5, "vault")).is_ok());
    let before = state.clone();
    let result = reply(&mut state, env(), instantiate_reply("contractZ", "5"));
    assert_eq!(result, Err(ContractError::DuplicateKey));
    assert_eq!(state, before);
    assert_eq!(state.contracts.get(5, &"vault".to_string()), Some("contractX".to_string()));
    assert_eq!(state.metadata.get(&"contractZ".to_string()), None);
}

#[test]
fn the_same_label_under_another_code_id_is_no_duplicate() {
    let mut state = registry_of("alice");
    add_contract(&mut state, "alice", 5, "vault", "contractX");
    add_contract(&mut state, "alice", 6, "vault", "contractZ");
    assert_eq!(listed(&state), vec![pair("vault", "contractZ"), pair("vault", "contractX")]);
}

#[test]
fn set_contract_metadata_needs_a_recorded_contract() {
    let mut state = registry_of("alice");
    let before = state.clone();
    let msg = ExecuteMsg::SetContractMetadata {
        contract_address: "nowhere".to_string(),
        rewards_address: "rewardsY".to_string(),
    };
    assert_eq!(
        execute(&mut state, env(), from("alice"), msg),
        Err(ContractError::NotFound(Missing::Metadata))
    );
    assert_eq!(state, before);
}

#[test]
fn set_contract_metadata_twice_keeps_the_last_address() {
    let mut state = registry_of("alice");
    add_contract(&mut state, "alice", 5, "vault", "contractX");
    let mut once = state.clone();
    for rewards in ["rewardsY", "rewardsZ"] {
        let msg = ExecuteMsg::SetContractMetadata {
            contract_address: "contractX".to_string(),
            rewards_address: rewards.to_string(),
        };
        execute(&mut state, env(), from("alice"), msg).unwrap();
    }
    let last = ExecuteMsg::SetContractMetadata {
        contract_address: "contractX".to_string(),
        rewards_address: "rewardsZ".to_string(),
    };
    execute(&mut once, env(), from("alice"), last).unwrap();
    assert_eq!(state, once);
    assert_eq!(
        state.metadata.get(&"contractX".to_string()),
        Some(ContractMetadata { rewards_address: Some("rewardsZ".to_string()), metadata_set: true })
    );
    assert_eq!(state.metadata.entries().len(), 1);
}

#[test]
fn contract_metadata_of_an_unknown_address_is_not_found() {
    let state = registry_of("alice");
    let answer =
        query(&state, env(), QueryMsg::ContractMetadata { contract_address: "x".to_string() });
    assert_eq!(answer, Err(ContractError::NotFound(Missing::Metadata)));
}

#[test]
fn contracts_list_of_a_fresh_registry_is_empty() {
    let state = registry_of("alice");
    assert_eq!(listed(&state), Vec::<(String, String)>::new());
    assert_eq!(
        query(&state, env(), QueryMsg::ContractsList {}),
        Ok(QueryResponse::ContractsList(Vec::<(String, Contract)>::new()))
    );
}

#[test]
fn contracts_list_descends_by_code_id_then_label() {
    let mut state = registry_of("alice");
    let added = [
        (5, "vault", "a1"),
        (2, "zeta", "a2"),
        (300, "alpha", "a3"),
        (5, "", "a4"),
        (5, "vaults", "a5"),
        (5, "Vault", "a6"),
        (5, "va", "a7"),
        (256, "alpha", "a8"),
        (5, "\u{e9}t\u{e9}", "a9"),
        (5, "z", "a10"),
    ];
    for (code_id, label, address) in added {
        add_contract(&mut state, "alice", code_id, label, address);
    }
    assert_eq!(
        listed(&state),
        vec![
            pair("alpha", "a3"),
            pair("alpha", "a8"),
            pair("\u{e9}t\u{e9}", "a9"),
            pair("z", "a10"),
            pair("vaults", "a5"),
            pair("vault", "a1"),
            pair("va", "a7"),
            pair("Vault", "a6"),
            pair("", "a4"),
            pair("zeta", "a2"),
        ]
    );
}

#[test]
fn rewards_record_gives_the_contracts_whose_metadata_is_set() {
    let mut state = registry_of("alice");
    add_contract(&mut state, "alice", 1, "a", "addr1");
    add_contract(&mut state, "alice", 2, "b", "addr2");
    add_contract(&mut state, "alice", 3, "c", "addr3");
    for (contract, rewards) in [("addr3", "r3"), ("addr1", "r1"), ("addr3", "r3b")] {
        let msg = ExecuteMsg::SetContractMetadata {
            contract_address: contract.to_string(),
            rewards_address: rewards.to_string(),
        };
        execute(&mut state, env(), from("alice"), msg).unwrap();
    }
    let pagination = Some(vec![1u8, 2, 3]);
    let answer = query(&state, env(), QueryMsg::RewardsRecord { pagination: pagination.clone() });
    match answer.unwrap() {
        QueryResponse::RewardsRecord { mut targets, pagination: handed_on } => {
            assert_eq!(handed_on, pagination);
            targets.sort_by(|a, b| a.contract_address.cmp(&b.contract_address));
            assert_eq!(
                targets,
                vec![
                    RewardsTarget {
                        contract_address: "addr1".to_string(),
                        rewards_address: "r1".to_string(),
                    },
                    RewardsTarget {
                        contract_address: "addr3".to_string(),
                        rewards_address: "r3b".to_string(),
                    },
                ]
            );
        }
        other => panic!("unexpected answer: {:?}", other),
    }
}

#[test]
fn rewards_record_of_a_fresh_registry_is_empty() {
    let state = registry_of("alice");
    assert_eq!(
        query(&state, env(), QueryMsg::RewardsRecord { pagination: None }),
        Ok(QueryResponse::RewardsRecord { targets: vec![], pagination: None })
    );
}

#[test]
fn a_reply_with_another_id_is_unknown() {
    let mut state = registry_of("alice");
    execute(&mut state, env(), from("alice"), request(5, "vault")).unwrap();
    let before = state.clone();
    let mut msg = instantiate_reply("contractX", "5");
    msg.id = 7;
    let result = reply(&mut state, env(), msg);
    assert_eq!(result, Err(ContractError::UnknownReplyId(7)));
    assert_eq!(result.unwrap_err().message(), "Unknown reply id: 7");
    assert_eq!(state, before);
}

#[test]
fn a_reply_to_a_failed_sub_request_fails() {
    let mut state = registry_of("alice");
    execute(&mut state, env(), from("alice"), request(5, "vault")).unwrap();
    let before = state.clone();
    let msg =
        Reply { id: INSTANTIATE_REPLY_ID, result: SubMsgResult::Failure("out of gas".to_string()) };
    assert_eq!(
        reply(&mut state, env(), msg),
        Err(ContractError::Host(HostFailure::SubMessageFailed))
    );
    assert_eq!(state, before);
}

#[test]
fn a_reply_without_data_is_malformed() {
    let mut state = registry_of("alice");
    execute(&mut state, env(), from("alice"), request(5, "vault")).unwrap();
    let before = state.clone();
    let msg = Reply {
        id: INSTANTIATE_REPLY_ID,
        result: SubMsgResult::Success(SubMsgResponse {
            events: vec![Event {
                ty: "instantiate".to_string(),
                attributes: vec![attribute("code_id", "5")],
            }],
            data: None,
        }),
    };
    assert_eq!(reply(&mut state, env(), msg), Err(ContractError::Host(HostFailure::MalformedReply)));
    assert_eq!(state, before);
}

#[test]
fn a_reply_with_undecodable_data_is_malformed() {
    for data in [
        vec![0x0a],
        vec![0x0a, 9, b'c'],
        vec![0x12, 1, b'c'],
        vec![0x08, 1],
        vec![0x0a, 2, 0xff, 0xfe],
    ] {
        let mut state = registry_of("alice");
        execute(&mut state, env(), from("alice"), request(5, "vault")).unwrap();
        let before = state.clone();
        let msg = Reply {
            id: INSTANTIATE_REPLY_ID,
            result: SubMsgResult::Success(SubMsgResponse {
                events: vec![Event {
                    ty: "instantiate".to_string(),
                    attributes: vec![attribute("code_id", "5")],
                }],
                data: Some(data),
            }),
        };
        assert_eq!(
            reply(&mut state, env(), msg),
            Err(ContractError::Host(HostFailure::MalformedReply))
        );
        assert_eq!(state, before);
    }
}

#[test]
fn a_reply_records_the_decoded_address_not_the_bytes() {
    let mut state = registry_of("alice");
    execute(&mut state, env(), from("alice"), request(5, "vault")).unwrap();
    let mut data = instantiated_at("contractX");
    data.extend_from_slice(&[0x12, 3, 1, 2, 3]);
    let msg = Reply {
        id: INSTANTIATE_REPLY_ID,
        result: SubMsgResult::Success(SubMsgResponse {
            events: vec![Event {
                ty: "instantiate".to_string(),
                attributes: vec![attribute("code_id", "5")],
            }],
            data: Some(data),
        }),
    };
    reply(&mut state, env(), msg).unwrap();
    assert_eq!(state.contracts.get(5, &"vault".to_string()), Some("contractX".to_string()));
    assert_eq!(state.metadata.entries().len(), 1);
    assert_eq!(state.metadata.entries()[0].address, "contractX");
}

#[test]
fn a_reply_without_code_id_attribute_fails() {
    let mut state = registry_of("alice");
    execute(&mut state, env(), from("alice"), request(5, "vault")).unwrap();
    let before = state.clone();
    let msg = Reply {
        id: INSTANTIATE_REPLY_ID,
        result: SubMsgResult::Success(SubMsgResponse {
            events: vec![
                Event { ty: "message".to_string(), attributes: vec![] },
                Event {
                    ty: "instantiate".to_string(),
                    attributes: vec![attribute("_contract_address", "contractX")],
                },
            ],
            data: Some(instantiated_at("contractX")),
        }),
    };
    assert_eq!(reply(&mut state, env(), msg), Err(ContractError::NotFound(Missing::CodeId)));
    assert_eq!(state, before);
}

#[test]
fn a_reply_with_a_code_id_that_is_no_number_fails() {
    for text in ["", "five", "5 ", "-5", "+5", "18446744073709551616"] {
        let mut state = registry_of("alice");
        execute(&mut state, env(), from("alice"), request(5, "vault")).unwrap();
        let before = state.clone();
        let result = reply(&mut state, env(), instantiate_reply("contractX", text));
        assert_eq!(result, Err(ContractError::Host(HostFailure::MalformedCodeId)));
        assert_eq!(state, before);
    }
}

#[test]
fn a_reply_takes_the_first_code_id_attribute() {
    let mut state = registry_of("alice");
    execute(&mut state, env(), from("alice"), request(5, "vault")).unwrap();
    let msg = Reply {
        id: INSTANTIATE_REPLY_ID,
        result: SubMsgResult::Success(SubMsgResponse {
            events: vec![
                Event { ty: "message".to_string(), attributes: vec![attribute("module", "wasm")] },
                Event {
                    ty: "instantiate".to_string(),
                    attributes: vec![attribute("code_id", "8"), attribute("code_id", "9")],
                },
                Event { ty: "wasm".to_string(), attributes: vec![attribute("code_id", "10")] },
            ],
            data: Some(instantiated_at("contractX")),
        }),
    };
    reply(&mut state, env(), msg).unwrap();
    assert_eq!(state.contracts.get(8, &"vault".to_string()), Some("contractX".to_string()));
    assert_eq!(state.contracts.records().len(), 1);
}

#[test]
fn a_reply_with_nothing_in_flight_fails() {
    let mut state = registry_of("alice");
    let before = state.clone();
    let result = reply(&mut state, env(), instantiate_reply("contractX", "5"));
    assert_eq!(result, Err(ContractError::NotFound(Missing::Label)));
    assert_eq!(state, before);
}

#[test]
fn a_second_reply_finds_nothing_in_flight() {
    let mut state = registry_of("alice");
    add_contract(&mut state, "alice", 5, "vault", "contractX");
    let result = reply(&mut state, env(), instantiate_reply("contractZ", "6"));
    assert_eq!(result, Err(ContractError::NotFound(Missing::Label)));
}

#[test]
fn an_address_instantiated_again_starts_with_unset_metadata() {
    let mut state = registry_of("alice");
    add_contract(&mut state, "alice", 5, "vault", "contractX");
    let msg = ExecuteMsg::SetContractMetadata {
        contract_address: "contractX".to_string(),
        rewards_address: "rewardsY".to_string(),
    };
    execute(&mut state, env(), from("alice"), msg).unwrap();
    add_contract(&mut state, "alice", 6, "pool", "contractX");
    assert_eq!(
        state.metadata.get(&"contractX".to_string()),
        Some(ContractMetadata { rewards_address: None, metadata_set: false })
    );
    assert_eq!(state.metadata.entries().len(), 1);
    assert_eq!(state.contracts.records().len(), 2);
}
