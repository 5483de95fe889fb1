//! Tests of the per-domain schemas: filter predicates, threshold rules, and
//! end-to-end decode-then-deliver scenarios.

use event_gateway::consumer::EntryField;
use event_gateway::consumer::FromRedis;
use event_gateway::consumer::RawEntry;
use event_gateway::consumer::StreamConsumer;
use event_gateway::json::StrPair;
use event_gateway::nft_events::FullNftMintEvent;
use event_gateway::nft_events::FullNftTransferEvent;
use event_gateway::nft_events::NftEventContext;
use event_gateway::nft_events::NftMintEvent;
use event_gateway::nft_events::NftMintFilter;
use event_gateway::nft_events::NftTransferEvent;
use event_gateway::nft_events::NftTransferFilter;
use event_gateway::potlock_events::FullPotlockPotDonationEvent;
use event_gateway::potlock_events::FullPotlockDonationEvent;
use event_gateway::potlock_events::PotlockDonationEvent;
use event_gateway::potlock_events::PotlockDonationEventFilter;
use event_gateway::potlock_events::PotlockEventContext;
use event_gateway::potlock_events::PotlockPotDonationEvent;
use event_gateway::potlock_events::PotlockPotDonationEventFilter;
use event_gateway::session::EventFilter;
use event_gateway::session::EventWebSocket;
use event_gateway::trade_events::FullTradePoolChangeEvent;
use event_gateway::trade_events::FullTradeSwapEvent;
use event_gateway::trade_events::TradeBalanceChangeSwap;
use event_gateway::trade_events::TradeContext;
use event_gateway::trade_events::TradeSwapEventFilter;

fn nft_context() -> NftEventContext {
    NftEventContext {
        transaction_id: "tx1".to_string(),
        receipt_id: "r1".to_string(),
        block_height: 100,
        block_timestamp_nanosec: "1700000000000000000".to_string(),
        contract_id: "nft.near".to_string(),
    }
}

fn mint_event(owner: &str) -> FullNftMintEvent {
    FullNftMintEvent {
        event: NftMintEvent {
            owner_id: owner.to_string(),
            token_ids: vec!["t1".to_string()],
            memo: None,
        },
        context: nft_context(),
    }
}

fn transfer_event(old_owner: &str, new_owner: &str) -> FullNftTransferEvent {
    FullNftTransferEvent {
        event: NftTransferEvent {
            old_owner_id: old_owner.to_string(),
            new_owner_id: new_owner.to_string(),
            token_ids: vec!["t1".to_string()],
            memo: None,
            token_prices_near: vec![],
        },
        context: nft_context(),
    }
}

fn donation_event(donor: &str, amount: &str) -> FullPotlockDonationEvent {
    FullPotlockDonationEvent {
        event: PotlockDonationEvent {
            donation_id: 1,
            donor_id: donor.to_string(),
            total_amount: amount.to_string(),
            account_id: "potlock.near".to_string(),
            message: None,
            donated_at: 1_700_000_000_000,
            project_id: "project.near".to_string(),
            protocol_fee: "0".to_string(),
            referrer_id: None,
            referrer_fee: None,
        },
        context: PotlockEventContext {
            transaction_id: "tx1".to_string(),
            receipt_id: "r1".to_string(),
            block_height: 100,
            block_timestamp_nanosec: "1".to_string(),
        },
    }
}

fn pot_donation_event(amount: &str) -> FullPotlockPotDonationEvent {
    FullPotlockPotDonationEvent {
        event: PotlockPotDonationEvent {
            donation_id: 2,
            pot_id: "pot.near".to_string(),
            donor_id: "donor.near".to_string(),
            total_amount: amount.to_string(),
            net_amount: amount.to_string(),
            message: None,
            donated_at: 1_700_000_000_000,
            referrer_id: None,
            referrer_fee: None,
            protocol_fee: "0".to_string(),
            chef_id: None,
            chef_fee: None,
        },
        context: PotlockEventContext {
            transaction_id: "tx2".to_string(),
            receipt_id: "r2".to_string(),
            block_height: 101,
            block_timestamp_nanosec: "2".to_string(),
        },
    }
}

fn swap_event(changes: Vec<(&str, &str)>) -> FullTradeSwapEvent {
    FullTradeSwapEvent {
        event: TradeBalanceChangeSwap {
            balance_changes: changes
                .into_iter()
                .map(|(k, v)| StrPair { key: k.to_string(), value: v.to_string() })
                .collect(),
            pool_swaps: vec![],
        },
        context: TradeContext {
            trader: "trader.near".to_string(),
            block_height: 100,
            block_timestamp_nanosec: "1".to_string(),
            transaction_id: "tx1".to_string(),
            receipt_id: "r1".to_string(),
        },
    }
}

#[test]
fn empty_filters_pass_everything_through() {
    let mint = NftMintFilter { owner_id: None, contract_id: None };
    assert!(mint.matches(&mint_event("anyone")));

    let transfer = NftTransferFilter {
        involved_account_ids: None,
        old_owner_id: None,
        new_owner_id: None,
        contract_id: None,
    };
    assert!(transfer.matches(&transfer_event("a", "b")));

    let donation = PotlockDonationEventFilter {
        project_id: None,
        donor_id: None,
        referrer_id: None,
        min_amounts: None,
    };
    assert!(donation.matches(&donation_event("anyone", "not-a-number")));

    let swap = TradeSwapEventFilter { account_id: None, involved_token_account_ids: None };
    assert!(swap.matches(&swap_event(vec![])));
}

#[test]
fn single_field_filter_decides_by_that_field_alone() {
    let f = NftMintFilter { owner_id: Some("alice".to_string()), contract_id: None };
    assert!(f.matches(&mint_event("alice")));
    assert!(!f.matches(&mint_event("bob")));

    let f = NftMintFilter { owner_id: None, contract_id: Some("other.near".to_string()) };
    assert!(!f.matches(&mint_event("alice")));

    let f = NftTransferFilter {
        involved_account_ids: None,
        old_owner_id: Some("a".to_string()),
        new_owner_id: None,
        contract_id: None,
    };
    assert!(f.matches(&transfer_event("a", "b")));
    assert!(!f.matches(&transfer_event("x", "b")));
}

#[test]
fn involved_accounts_constrain_with_owner_fields() {
    let f = NftTransferFilter {
        involved_account_ids: Some(vec!["a".to_string(), "z".to_string()]),
        old_owner_id: None,
        new_owner_id: None,
        contract_id: None,
    };
    assert!(f.matches(&transfer_event("a", "b")));
    assert!(f.matches(&transfer_event("x", "z")));
    assert!(!f.matches(&transfer_event("x", "y")));

    let f = NftTransferFilter {
        involved_account_ids: Some(vec!["a".to_string(), "z".to_string()]),
        old_owner_id: Some("a".to_string()),
        new_owner_id: None,
        contract_id: None,
    };
    assert!(f.matches(&transfer_event("a", "b")));
    assert!(!f.matches(&transfer_event("x", "z")));
}

#[test]
fn threshold_rejects_unparseable_amounts() {
    let f = PotlockPotDonationEventFilter {
        pot_id: None,
        donor_id: None,
        referrer_id: None,
        min_amount_near: Some("100".to_string()),
    };
    assert!(!f.matches(&pot_donation_event("not-a-number")));
    assert!(!f.matches(&pot_donation_event("")));

    let f = PotlockPotDonationEventFilter {
        pot_id: None,
        donor_id: None,
        referrer_id: None,
        min_amount_near: Some("ten".to_string()),
    };
    assert!(!f.matches(&pot_donation_event("1000")));
}

#[test]
fn threshold_compares_amounts_numerically() {
    let f = PotlockPotDonationEventFilter {
        pot_id: None,
        donor_id: None,
        referrer_id: None,
        min_amount_near: Some("100".to_string()),
    };
    assert!(f.matches(&pot_donation_event("100")));
    assert!(f.matches(&pot_donation_event("101")));
    assert!(!f.matches(&pot_donation_event("99")));
    assert!(f.matches(&pot_donation_event("+250")));
}

#[test]
fn min_amounts_map_keys_donors() {
    let f = PotlockDonationEventFilter {
        project_id: None,
        donor_id: None,
        referrer_id: None,
        min_amounts: Some(vec![StrPair {
            key: "donor.near".to_string(),
            value: "500".to_string(),
        }]),
    };
    assert!(f.matches(&donation_event("donor.near", "500")));
    assert!(!f.matches(&donation_event("donor.near", "499")));
    assert!(!f.matches(&donation_event("someone-else.near", "10000")));
    assert!(!f.matches(&donation_event("donor.near", "much")));
}

#[test]
fn referrer_filter_needs_matching_referrer() {
    let f = PotlockDonationEventFilter {
        project_id: None,
        donor_id: None,
        referrer_id: Some("ref.near".to_string()),
        min_amounts: None,
    };
    let without_referrer = donation_event("donor.near", "1");
    assert!(!f.matches(&without_referrer));

    let mut with_referrer = donation_event("donor.near", "1");
    with_referrer.event.referrer_id = Some("ref.near".to_string());
    assert!(f.matches(&with_referrer));

    let mut wrong_referrer = donation_event("donor.near", "1");
    wrong_referrer.event.referrer_id = Some("other.near".to_string());
    assert!(!f.matches(&wrong_referrer));
}

#[test]
fn mint_scenario_delivers_by_owner() {
    let mut consumer = StreamConsumer::start(None);
    let entry = RawEntry {
        id: "1-0".to_string(),
        fields: vec![
            EntryField {
                name: "context".to_string(),
                value: "{\"transaction_id\":\"tx1\",\"receipt_id\":\"r1\",\"block_height\":100,\"block_timestamp_nanosec\":\"1\",\"contract_id\":\"nft.near\"}".to_string(),
            },
            EntryField {
                name: "mint".to_string(),
                value: "{\"owner_id\":\"alice\",\"token_ids\":[\"t1\"],\"memo\":\"hi\"}".to_string(),
            },
        ],
    };
    let out = consumer.process_batch::<FullNftMintEvent>(&vec![entry]);
    assert!(out.failed.is_none());
    let event = &out.events[0];
    assert_eq!(consumer.cursor_to_persist(), "1-0");

    let mut alice = EventWebSocket::<FullNftMintEvent, NftMintFilter>::start(0);
    alice.filter = Some(NftMintFilter { owner_id: Some("alice".to_string()), contract_id: None });
    let mut bob = EventWebSocket::<FullNftMintEvent, NftMintFilter>::start(0);
    bob.filter = Some(NftMintFilter { owner_id: Some("bob".to_string()), contract_id: None });

    assert!(alice.should_deliver(event));
    assert!(!bob.should_deliver(event));
}

#[test]
fn zero_balance_change_is_not_involvement() {
    let f = TradeSwapEventFilter {
        account_id: None,
        involved_token_account_ids: Some(vec!["usdc.token".to_string()]),
    };
    let zero = swap_event(vec![("usdc.token", "0")]);
    assert!(!f.matches(&zero));

    let nonzero = swap_event(vec![("usdc.token", "-250")]);
    assert!(f.matches(&nonzero));

    let missing = swap_event(vec![("other.token", "10")]);
    assert!(!f.matches(&missing));

    let unfiltered = TradeSwapEventFilter { account_id: None, involved_token_account_ids: None };
    assert!(unfiltered.matches(&zero));
}

#[test]
fn one_involved_token_is_enough() {
    let f = TradeSwapEventFilter {
        account_id: None,
        involved_token_account_ids: Some(vec![
            "usdc.token".to_string(),
            "absent.token".to_string(),
        ]),
    };
    assert!(f.matches(&swap_event(vec![("usdc.token", "5")])));
    assert!(!f.matches(&swap_event(vec![("usdc.token", "0")])));
    assert!(!f.matches(&swap_event(vec![("elsewhere.token", "5")])));
}

#[test]
fn swap_entry_decodes_balance_changes_and_swaps() {
    let fields = vec![
        EntryField {
            name: "context".to_string(),
            value: "{\"trader\":\"trader.near\",\"block_height\":7,\"block_timestamp_nanosec\":\"1\",\"transaction_id\":\"tx\",\"receipt_id\":\"r\"}".to_string(),
        },
        EntryField {
            name: "balance_change".to_string(),
            value: "{\"balance_changes\":{\"usdc.token\":\"0\",\"near\":\"-5\"},\"pool_swaps\":[{\"pool\":\"REF-1\",\"token_in\":\"near\",\"token_out\":\"usdc.token\",\"amount_in\":\"5\",\"amount_out\":\"5\"}]}".to_string(),
        },
    ];
    let e = FullTradeSwapEvent::from_entry(&fields).expect("swap entry should decode");
    assert_eq!(e.context.trader, "trader.near");
    assert_eq!(e.event.pool_swaps.len(), 1);
    assert_eq!(e.event.pool_swaps[0].pool, "REF-1");
    let usdc = e
        .event
        .balance_changes
        .iter()
        .find(|p| p.key == "usdc.token")
        .expect("usdc entry");
    assert_eq!(usdc.value, "0");
}

#[test]
fn pool_change_entry_keeps_pool_payload_opaque() {
    let fields = vec![EntryField {
        name: "pool_change".to_string(),
        value: "{\"pool_id\":\"REF-1\",\"receipt_id\":\"r\",\"block_timestamp_nanosec\":\"1\",\"block_height\":9,\"pool\":{\"kind\":\"SIMPLE_POOL\",\"amounts\":[\"1\",\"2\"]}}".to_string(),
    }];
    let e = FullTradePoolChangeEvent::from_entry(&fields).expect("pool change should decode");
    assert_eq!(e.event.pool_id, "REF-1");
    assert_eq!(e.event.block_height, 9);

    let with_bool = vec![EntryField {
        name: "pool_change".to_string(),
        value: "{\"pool_id\":\"REF-2\",\"receipt_id\":\"r\",\"block_timestamp_nanosec\":\"1\",\"block_height\":10,\"pool\":{\"shutdown\":true,\"fee\":0.25}}".to_string(),
    }];
    let e = FullTradePoolChangeEvent::from_entry(&with_bool).expect("pool change should decode");
    match &e.event.pool {
        event_gateway::json::JsonValue::Obj(fields) => {
            let shutdown = fields.iter().find(|f| f.name == "shutdown").expect("member kept");
            match &shutdown.value {
                event_gateway::json::JsonScalar::Other(text) => assert_eq!(text, "true"),
                _ => panic!("boolean member should keep its raw text"),
            }
        }
        _ => panic!("pool should decode as a flat object"),
    }
}

#[test]
fn filters_decode_from_client_json() {
    let doc = event_gateway::json::parse_json_obj("{\"owner_id\":\"alice\",\"extra\":1}")
        .expect("object should parse");
    let f = NftMintFilter::from_doc(&doc).expect("filter should decode");
    assert_eq!(f.owner_id.as_deref(), Some("alice"));
    assert!(f.contract_id.is_none());

    let doc = event_gateway::json::parse_json_obj("{\"owner_id\":5}").expect("object parses");
    assert!(NftMintFilter::from_doc(&doc).is_none());

    let doc = event_gateway::json::parse_json_obj(
        "{\"involved_token_account_ids\":[\"usdc.token\"]}",
    )
    .expect("object parses");
    let f = TradeSwapEventFilter::from_doc(&doc).expect("filter should decode");
    assert_eq!(
        f.involved_token_account_ids,
        Some(vec!["usdc.token".to_string()])
    );

    let doc = event_gateway::json::parse_json_obj(
        "{\"min_amounts\":{\"donor.near\":\"500\"}}",
    )
    .expect("object parses");
    let f = PotlockDonationEventFilter::from_doc(&doc).expect("filter should decode");
    let pairs = f.min_amounts.expect("map present");
    assert_eq!(pairs.len(), 1);
    assert_eq!(pairs[0].key, "donor.near");
    assert_eq!(pairs[0].value, "500");
}

#[test]
fn absent_optional_fields_decode_as_none() {
    let fields = vec![
        EntryField {
            name: "context".to_string(),
            value: "{\"transaction_id\":\"tx1\",\"receipt_id\":\"r1\",\"block_height\":100,\"block_timestamp_nanosec\":\"1\",\"contract_id\":\"nft.near\"}".to_string(),
        },
        EntryField {
            name: "mint".to_string(),
            value: "{\"owner_id\":\"alice\",\"token_ids\":[]}".to_string(),
        },
    ];
    let e = FullNftMintEvent::from_entry(&fields).expect("entry should decode");
    assert_eq!(e.event.memo, None);
    assert!(e.event.token_ids.is_empty());

    let wrong_type = vec![
        EntryField {
            name: "context".to_string(),
            value: "{\"transaction_id\":\"tx1\",\"receipt_id\":\"r1\",\"block_height\":100,\"block_timestamp_nanosec\":\"1\",\"contract_id\":\"nft.near\"}".to_string(),
        },
        EntryField {
            name: "mint".to_string(),
            value: "{\"owner_id\":\"alice\",\"token_ids\":[1,2]}".to_string(),
        },
    ];
    assert!(FullNftMintEvent::from_entry(&wrong_type).is_none());
}
