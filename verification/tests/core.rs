//! Tests of the engine: amount parsing, cursor handling, batch processing,
//! the fan-out hub and the session state machine.

use event_gateway::consumer::cursor_key;
use event_gateway::consumer::entries_for_stream;
use event_gateway::consumer::EntryField;
use event_gateway::consumer::FromRedis;
use event_gateway::consumer::RawEntry;
use event_gateway::consumer::StreamBatch;
use event_gateway::consumer::StreamConsumer;
use event_gateway::hub::Hub;
use event_gateway::hub::SubscriberSet;
use event_gateway::nft_events::FullNftBurnEvent;
use event_gateway::nft_events::FullNftMintEvent;
use event_gateway::nft_events::FullNftTransferEvent;
use event_gateway::nft_events::NftMintFilter;
use event_gateway::session::ClientMessage;
use event_gateway::session::EventWebSocket;
use event_gateway::session::SessionState;
use event_gateway::text::parse_u128;
use event_gateway::text::str_eq;

fn field(name: &str, value: &str) -> EntryField {
    EntryField { name: name.to_string(), value: value.to_string() }
}

fn mint_entry(id: &str, owner: &str) -> RawEntry {
    RawEntry {
        id: id.to_string(),
        fields: vec![
            field(
                "context",
                "{\"transaction_id\":\"tx1\",\"receipt_id\":\"r1\",\"block_height\":100,\"block_timestamp_nanosec\":\"1700000000000000000\",\"contract_id\":\"nft.near\"}",
            ),
            field(
                "mint",
                &format!(
                    "{{\"owner_id\":\"{}\",\"token_ids\":[\"token-1\"],\"memo\":null}}",
                    owner
                ),
            ),
        ],
    }
}

#[test]
fn parse_u128_accepts_plain_decimals() {
    assert_eq!(parse_u128("0"), Some(0));
    assert_eq!(parse_u128("123"), Some(123));
    assert_eq!(parse_u128("+12"), Some(12));
    assert_eq!(
        parse_u128("340282366920938463463374607431768211455"),
        Some(u128::MAX)
    );
}

#[test]
fn parse_u128_rejects_bad_input() {
    assert_eq!(parse_u128(""), None);
    assert_eq!(parse_u128("+"), None);
    assert_eq!(parse_u128("12a"), None);
    assert_eq!(parse_u128("-5"), None);
    assert_eq!(parse_u128(" 7"), None);
    assert_eq!(parse_u128("340282366920938463463374607431768211456"), None);
}

#[test]
fn str_eq_compares_by_content() {
    assert!(str_eq("abc", "abc"));
    assert!(!str_eq("abc", "abd"));
    assert!(!str_eq("abc", "ab"));
    assert!(str_eq("", ""));
}

#[test]
fn cursor_key_is_namespaced() {
    assert_eq!(
        cursor_key("nft_mint"),
        "events_api_websocket_last_id_nft_mint"
    );
}

#[test]
fn consumer_starts_from_persisted_cursor() {
    let c = StreamConsumer::start(Some("17-3".to_string()));
    assert_eq!(c.next_request_after(), "17-3");
    assert!(!c.stopped);
}

#[test]
fn consumer_starts_from_next_new_entry_without_cursor() {
    let c = StreamConsumer::start(None);
    assert_eq!(c.next_request_after(), "$");
}

#[test]
fn batch_advances_cursor_to_last_entry() {
    let mut c = StreamConsumer::start(None);
    let entries = vec![
        mint_entry("1-0", "alice"),
        mint_entry("2-0", "bob"),
        mint_entry("3-0", "carol"),
    ];
    let out = c.process_batch::<FullNftMintEvent>(&entries);
    assert!(out.failed.is_none());
    assert_eq!(out.events.len(), 3);
    assert_eq!(out.events[0].event.owner_id, "alice");
    assert_eq!(out.events[2].event.owner_id, "carol");
    assert_eq!(c.cursor_to_persist(), "3-0");
    assert!(!c.stopped);
}

#[test]
fn empty_batch_keeps_cursor() {
    let mut c = StreamConsumer::start(Some("9-9".to_string()));
    let out = c.process_batch::<FullNftMintEvent>(&vec![]);
    assert!(out.failed.is_none());
    assert_eq!(out.events.len(), 0);
    assert_eq!(c.cursor_to_persist(), "9-9");
}

#[test]
fn decode_failure_stops_channel_at_offending_entry() {
    let mut c = StreamConsumer::start(None);
    let bad = RawEntry {
        id: "2-0".to_string(),
        fields: vec![field("context", "{not json"), field("mint", "{}")],
    };
    let entries = vec![mint_entry("1-0", "alice"), bad, mint_entry("3-0", "carol")];
    let out = c.process_batch::<FullNftMintEvent>(&entries);
    assert_eq!(out.failed.as_deref(), Some("2-0"));
    assert_eq!(out.events.len(), 1);
    assert_eq!(c.cursor_to_persist(), "1-0");
    assert!(c.stopped);
}

#[test]
fn failed_channel_leaves_others_running() {
    let mut burn = StreamConsumer::start(None);
    let mut transfer = StreamConsumer::start(None);

    let burn_entries = vec![RawEntry {
        id: "5-0".to_string(),
        fields: vec![field("context", "{}"), field("burn", "not json at all")],
    }];
    let out = burn.process_batch::<FullNftBurnEvent>(&burn_entries);
    assert!(out.failed.is_some());
    assert!(burn.stopped);

    let transfer_entries = vec![RawEntry {
        id: "6-0".to_string(),
        fields: vec![
            field(
                "context",
                "{\"transaction_id\":\"tx2\",\"receipt_id\":\"r2\",\"block_height\":101,\"block_timestamp_nanosec\":\"1700000000000000001\",\"contract_id\":\"nft.near\"}",
            ),
            field(
                "transfer",
                "{\"old_owner_id\":\"alice\",\"new_owner_id\":\"bob\",\"token_ids\":[\"t1\"],\"memo\":null,\"token_prices_near\":[null,\"12\"]}",
            ),
        ],
    }];
    let out = transfer.process_batch::<FullNftTransferEvent>(&transfer_entries);
    assert!(out.failed.is_none());
    assert_eq!(out.events.len(), 1);
    assert_eq!(out.events[0].event.new_owner_id, "bob");
    assert_eq!(out.events[0].event.token_prices_near, vec![None, Some("12".to_string())]);
    assert_eq!(transfer.cursor_to_persist(), "6-0");
    assert!(!transfer.stopped);
}

#[test]
fn subscriber_set_is_idempotent() {
    let mut s = SubscriberSet::new();
    assert!(s.subscribe(7));
    assert!(!s.subscribe(7));
    assert!(s.contains(7));
    assert_eq!(s.members().len(), 1);
    assert!(s.unsubscribe(7));
    assert!(!s.unsubscribe(7));
    assert!(!s.contains(7));
    assert_eq!(s.members().len(), 0);
}

#[test]
fn hub_routes_by_channel() {
    let names = vec!["nft_mint".to_string(), "nft_burn".to_string()];
    let mut hub = Hub::new(names);
    assert_eq!(hub.channel_count(), 2);
    assert_eq!(hub.channel_index("nft_burn"), Some(1));
    assert_eq!(hub.channel_index("missing"), None);

    hub.subscribe(0, 1);
    hub.subscribe(0, 2);
    hub.subscribe(1, 3);
    let mut targets = hub.dispatch_targets(0);
    targets.sort();
    assert_eq!(targets, vec![1, 2]);
    assert_eq!(hub.dispatch_targets(1), vec![3]);

    hub.subscribe(0, 1);
    let mut targets = hub.dispatch_targets(0);
    targets.sort();
    assert_eq!(targets, vec![1, 2]);

    hub.unsubscribe(0, 9);
    let mut targets = hub.dispatch_targets(0);
    targets.sort();
    assert_eq!(targets, vec![1, 2]);

    hub.unsubscribe(0, 1);
    assert_eq!(hub.dispatch_targets(0), vec![2]);
    assert!(!hub.is_subscribed(0, 1));
    assert!(hub.is_subscribed(0, 2));
}

#[test]
fn session_times_out_after_fifteen_seconds() {
    let mut s = EventWebSocket::<FullNftMintEvent, NftMintFilter>::start(1_000);
    assert_eq!(s.state, SessionState::Active);

    let probe = s.heartbeat_tick(6_000);
    assert!(probe);
    assert_eq!(s.state, SessionState::Active);

    let probe = s.heartbeat_tick(16_000);
    assert!(probe);
    assert_eq!(s.state, SessionState::Active);

    let probe = s.heartbeat_tick(16_001);
    assert!(probe);
    assert_eq!(s.state, SessionState::Closing);

    let probe = s.heartbeat_tick(30_000);
    assert!(!probe);
    assert_eq!(s.state, SessionState::Closing);
}

#[test]
fn liveness_signals_keep_session_alive() {
    let mut s = EventWebSocket::<FullNftMintEvent, NftMintFilter>::start(0);
    let pong = s.on_client_message(&ClientMessage::Ping, 14_000);
    assert!(pong);
    let pong = s.on_client_message(&ClientMessage::Pong, 20_000);
    assert!(!pong);
    s.heartbeat_tick(35_000);
    assert_eq!(s.state, SessionState::Active);
    s.heartbeat_tick(35_001);
    assert_eq!(s.state, SessionState::Closing);
}

#[test]
fn protocol_violation_closes_session() {
    let mut s = EventWebSocket::<FullNftMintEvent, NftMintFilter>::start(0);
    s.on_client_message(&ClientMessage::Other, 1);
    assert_eq!(s.state, SessionState::Closing);
    s.close();
    assert_eq!(s.state, SessionState::Terminated);
}

#[test]
fn filter_update_replaces_filter_wholesale() {
    let mut s = EventWebSocket::<FullNftMintEvent, NftMintFilter>::start(0);
    assert!(s.filter.is_none());

    let text = ClientMessage::Text("{\"owner_id\":\"alice\"}".to_string());
    s.on_client_message(&text, 1);
    let f = s.filter.as_ref().expect("filter should be set");
    assert_eq!(f.owner_id.as_deref(), Some("alice"));
    assert!(f.contract_id.is_none());

    let text = ClientMessage::Text("{\"contract_id\":\"nft.near\"}".to_string());
    s.on_client_message(&text, 2);
    let f = s.filter.as_ref().expect("filter should be set");
    assert!(f.owner_id.is_none());
    assert_eq!(f.contract_id.as_deref(), Some("nft.near"));
}

#[test]
fn bad_filter_text_keeps_previous_filter() {
    let mut s = EventWebSocket::<FullNftMintEvent, NftMintFilter>::start(0);
    let text = ClientMessage::Text("{\"owner_id\":\"alice\"}".to_string());
    s.on_client_message(&text, 1);

    let bad = ClientMessage::Text("{broken".to_string());
    s.on_client_message(&bad, 2);
    assert_eq!(s.state, SessionState::Active);
    let f = s.filter.as_ref().expect("previous filter should survive");
    assert_eq!(f.owner_id.as_deref(), Some("alice"));

    let wrong_type = ClientMessage::Text("{\"owner_id\":5}".to_string());
    s.on_client_message(&wrong_type, 3);
    let f = s.filter.as_ref().expect("previous filter should survive");
    assert_eq!(f.owner_id.as_deref(), Some("alice"));
}

#[test]
fn from_entry_requires_both_blobs() {
    let missing_payload = RawEntry {
        id: "1-0".to_string(),
        fields: vec![field(
            "context",
            "{\"transaction_id\":\"tx1\",\"receipt_id\":\"r1\",\"block_height\":100,\"block_timestamp_nanosec\":\"1\",\"contract_id\":\"nft.near\"}",
        )],
    };
    assert!(FullNftMintEvent::from_entry(&missing_payload.fields).is_none());

    let good = mint_entry("1-0", "alice");
    let e = FullNftMintEvent::from_entry(&good.fields).expect("entry should decode");
    assert_eq!(e.context.block_height, 100);
    assert_eq!(e.context.contract_id, "nft.near");
    assert_eq!(e.event.token_ids, vec!["token-1".to_string()]);
    assert_eq!(e.event.memo, None);
}

#[test]
fn read_replies_keep_only_the_requested_stream() {
    let mut reply = vec![
        StreamBatch {
            stream: "unrelated".to_string(),
            entries: vec![mint_entry("9-0", "x")],
        },
        StreamBatch {
            stream: "nft_mint".to_string(),
            entries: vec![mint_entry("1-0", "alice"), mint_entry("2-0", "bob")],
        },
        StreamBatch {
            stream: "nft_mint".to_string(),
            entries: vec![mint_entry("3-0", "carol")],
        },
    ];
    let entries = entries_for_stream(&mut reply, "nft_mint");
    assert_eq!(entries.len(), 3);
    assert_eq!(entries[0].id, "1-0");
    assert_eq!(entries[1].id, "2-0");
    assert_eq!(entries[2].id, "3-0");

    let mut empty: Vec<StreamBatch> = vec![];
    assert_eq!(entries_for_stream(&mut empty, "nft_mint").len(), 0);
}
