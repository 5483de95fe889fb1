//! NFT event domain: mint, transfer and burn events, their shared context,
//! and the per-connection filters over them.

use vstd::prelude::*;
use crate::AccountId;
use crate::BlockHeight;
use crate::NftTokenId;
use crate::ReceiptId;
use crate::TransactionId;
use crate::consumer::EntryField;
use crate::consumer::EntryFieldV;
use crate::consumer::FromRedis;
use crate::consumer::field_get;
use crate::consumer::spec_field_get;
use crate::json::JsonField;
use crate::json::JsonFieldV;
use crate::json::doc_get_opt_str;
use crate::json::doc_get_opt_str_arr;
use crate::json::doc_get_str;
use crate::json::doc_get_str_arr;
use crate::json::doc_get_str_arr_opt;
use crate::json::doc_get_u64;
use crate::json::doc_view;
use crate::json::json_doc_of;
use crate::json::opt_str_view;
use crate::json::opt_strs_view;
use crate::json::parse_json_obj;
use crate::json::spec_doc_get_opt_str;
use crate::json::spec_doc_get_opt_str_arr;
use crate::json::spec_doc_get_str;
use crate::json::spec_doc_get_str_arr;
use crate::json::spec_doc_get_str_arr_opt;
use crate::json::spec_doc_get_u64;
use crate::json::strs_contain;
use crate::json::strs_view;
use crate::session::EventFilter;
use crate::text::str_eq;

verus! {

/// Identifying and ordering metadata shared by every NFT event.
pub struct NftEventContext {
    pub transaction_id: TransactionId,
    pub receipt_id: ReceiptId,
    pub block_height: BlockHeight,
    pub block_timestamp_nanosec: String,
    pub contract_id: AccountId,
}

/// Mathematical form of `NftEventContext`.
pub struct NftEventContextV {
    pub transaction_id: Seq<char>,
    pub receipt_id: Seq<char>,
    pub block_height: u64,
    pub block_timestamp_nanosec: Seq<char>,
    pub contract_id: Seq<char>,
}

impl View for NftEventContext {
    type V = NftEventContextV;

    open spec fn view(&self) -> NftEventContextV {
        NftEventContextV {
            transaction_id: self.transaction_id@,
            receipt_id: self.receipt_id@,
            block_height: self.block_height,
            block_timestamp_nanosec: self.block_timestamp_nanosec@,
            contract_id: self.contract_id@,
        }
    }
}

/// What decoding an NFT context document yields.
pub open spec fn spec_decode_nft_context(d: Seq<JsonFieldV>) -> Option<NftEventContextV> {
    match (
        spec_doc_get_str(d, "transaction_id"@),
        spec_doc_get_str(d, "receipt_id"@),
        spec_doc_get_u64(d, "block_height"@),
        spec_doc_get_str(d, "block_timestamp_nanosec"@),
        spec_doc_get_str(d, "contract_id"@),
    ) {
        (Some(t), Some(r), Some(h), Some(ts), Some(c)) => Some(
            NftEventContextV {
                transaction_id: t,
                receipt_id: r,
                block_height: h,
                block_timestamp_nanosec: ts,
                contract_id: c,
            },
        ),
        _ => None,
    }
}

impl NftEventContext {
    /// Decode the context document of an NFT entry.
    pub fn decode(d: &Vec<JsonField>) -> (r: Option<Self>)
        ensures
            r is Some <==> spec_decode_nft_context(doc_view(d@)) is Some,
            (r matches Some(c) ==> spec_decode_nft_context(doc_view(d@)) == Some(c@)),
    {
        match (
            doc_get_str(d, "transaction_id"),
            doc_get_str(d, "receipt_id"),
            doc_get_u64(d, "block_height"),
            doc_get_str(d, "block_timestamp_nanosec"),
            doc_get_str(d, "contract_id"),
        ) {
            (Some(t), Some(r), Some(h), Some(ts), Some(c)) => Some(
                NftEventContext {
                    transaction_id: t,
                    receipt_id: r,
                    block_height: h,
                    block_timestamp_nanosec: ts,
                    contract_id: c,
                },
            ),
            _ => None,
        }
    }
}

/// An NFT mint: new tokens appear under an owner.
pub struct NftMintEvent {
    pub owner_id: AccountId,
    pub token_ids: Vec<NftTokenId>,
    pub memo: Option<String>,
}

/// Mathematical form of `NftMintEvent`.
pub struct NftMintEventV {
    pub owner_id: Seq<char>,
    pub token_ids: Seq<Seq<char>>,
    pub memo: Option<Seq<char>>,
}

impl View for NftMintEvent {
    type V = NftMintEventV;

    open spec fn view(&self) -> NftMintEventV {
        NftMintEventV {
            owner_id: self.owner_id@,
            token_ids: strs_view(self.token_ids@),
            memo: opt_str_view(self.memo),
        }
    }
}

/// What decoding an NFT mint payload document yields.
pub open spec fn spec_decode_nft_mint(d: Seq<JsonFieldV>) -> Option<NftMintEventV> {
    match (
        spec_doc_get_str(d, "owner_id"@),
        spec_doc_get_str_arr(d, "token_ids"@),
        spec_doc_get_opt_str(d, "memo"@),
    ) {
        (Some(o), Some(ts), Some(m)) => Some(
            NftMintEventV { owner_id: o, token_ids: ts, memo: m },
        ),
        _ => None,
    }
}

impl NftMintEvent {
    /// Decode the mint payload document of an NFT entry.
    pub fn decode(d: &Vec<JsonField>) -> (r: Option<Self>)
        ensures
            r is Some <==> spec_decode_nft_mint(doc_view(d@)) is Some,
            (r matches Some(e) ==> spec_decode_nft_mint(doc_view(d@)) == Some(e@)),
    {
        match (
            doc_get_str(d, "owner_id"),
            doc_get_str_arr(d, "token_ids"),
            doc_get_opt_str(d, "memo"),
        ) {
            (Some(o), Some(ts), Some(m)) => Some(
                NftMintEvent { owner_id: o, token_ids: ts, memo: m },
            ),
            _ => None,
        }
    }
}

/// A decoded NFT mint entry: payload plus context.
pub struct FullNftMintEvent {
    pub event: NftMintEvent,
    pub context: NftEventContext,
}

/// Mathematical form of `FullNftMintEvent`.
pub struct FullNftMintEventV {
    pub event: NftMintEventV,
    pub context: NftEventContextV,
}

impl View for FullNftMintEvent {
    type V = FullNftMintEventV;

    open spec fn view(&self) -> FullNftMintEventV {
        FullNftMintEventV { event: self.event@, context: self.context@ }
    }
}

impl FromRedis for FullNftMintEvent {
    open spec fn spec_from_entry(fields: Seq<EntryFieldV>) -> Option<FullNftMintEventV> {
        match (spec_field_get(fields, "context"@), spec_field_get(fields, "mint"@)) {
            (Some(cs), Some(ms)) => match (json_doc_of(cs), json_doc_of(ms)) {
                (Some(cd), Some(md)) => match (
                    spec_decode_nft_context(cd),
                    spec_decode_nft_mint(md),
                ) {
                    (Some(c), Some(m)) => Some(FullNftMintEventV { event: m, context: c }),
                    _ => None,
                },
                _ => None,
            },
            _ => None,
        }
    }

    fn from_entry(fields: &Vec<EntryField>) -> (r: Option<Self>) {
        let cs = match field_get(fields, "context") {
            Some(s) => s,
            None => {
                return None;
            },
        };
        let ms = match field_get(fields, "mint") {
            Some(s) => s,
            None => {
                return None;
            },
        };
        let cd = match parse_json_obj(cs.as_str()) {
            Some(d) => d,
            None => {
                return None;
            },
        };
        let md = match parse_json_obj(ms.as_str()) {
            Some(d) => d,
            None => {
                return None;
            },
        };
        let context = match NftEventContext::decode(&cd) {
            Some(c) => c,
            None => {
                return None;
            },
        };
        let event = match NftMintEvent::decode(&md) {
            Some(m) => m,
            None => {
                return None;
            },
        };
        Some(FullNftMintEvent { event, context })
    }
}

/// Per-connection filter over NFT mint events; absent fields constrain
/// nothing.
pub struct NftMintFilter {
    pub owner_id: Option<AccountId>,
    pub contract_id: Option<AccountId>,
}

/// Mathematical form of `NftMintFilter`.
pub struct NftMintFilterV {
    pub owner_id: Option<Seq<char>>,
    pub contract_id: Option<Seq<char>>,
}

impl View for NftMintFilter {
    type V = NftMintFilterV;

    open spec fn view(&self) -> NftMintFilterV {
        NftMintFilterV {
            owner_id: opt_str_view(self.owner_id),
            contract_id: opt_str_view(self.contract_id),
        }
    }
}

impl EventFilter<FullNftMintEvent> for NftMintFilter {
    open spec fn spec_matches(&self, event: &FullNftMintEvent) -> bool {
        (match self.owner_id {
            Some(o) => o@ == event.event.owner_id@,
            None => true,
        }) && (match self.contract_id {
            Some(c) => c@ == event.context.contract_id@,
            None => true,
        })
    }

    open spec fn spec_from_doc(d: Seq<JsonFieldV>) -> Option<NftMintFilterV> {
        match (spec_doc_get_opt_str(d, "owner_id"@), spec_doc_get_opt_str(d, "contract_id"@)) {
            (Some(o), Some(c)) => Some(NftMintFilterV { owner_id: o, contract_id: c }),
            _ => None,
        }
    }

    fn matches(&self, event: &FullNftMintEvent) -> (r: bool) {
        if let Some(owner_id) = &self.owner_id {
            if !str_eq(owner_id.as_str(), event.event.owner_id.as_str()) {
                return false;
            }
        }
        if let Some(contract_id) = &self.contract_id {
            if !str_eq(contract_id.as_str(), event.context.contract_id.as_str()) {
                return false;
            }
        }
        true
    }

    fn from_doc(d: &Vec<JsonField>) -> (r: Option<Self>) {
        match (doc_get_opt_str(d, "owner_id"), doc_get_opt_str(d, "contract_id")) {
            (Some(o), Some(c)) => Some(NftMintFilter { owner_id: o, contract_id: c }),
            _ => None,
        }
    }
}

/// A mint filter with no field set passes every event through.
pub proof fn lemma_nft_mint_filter_pass_through(f: NftMintFilter, e: FullNftMintEvent)
    requires
        f.owner_id is None,
        f.contract_id is None,
    ensures
        f.spec_matches(&e),
{
}

/// With exactly one field set, a mint filter rejects an event exactly when
/// that field differs from the event's attribute.
pub proof fn lemma_nft_mint_filter_single_field(f: NftMintFilter, e: FullNftMintEvent)
    ensures
        (f.owner_id is Some && f.contract_id is None) ==> (f.spec_matches(&e)
            <==> opt_str_view(f.owner_id) == Some(e.event.owner_id@)),
        (f.owner_id is None && f.contract_id is Some) ==> (f.spec_matches(&e)
            <==> opt_str_view(f.contract_id) == Some(e.context.contract_id@)),
{
}

/// An NFT transfer: tokens move between owners.
pub struct NftTransferEvent {
    pub old_owner_id: AccountId,
    pub new_owner_id: AccountId,
    pub token_ids: Vec<NftTokenId>,
    pub memo: Option<String>,
    pub token_prices_near: Vec<Option<String>>,
}

/// Mathematical form of `NftTransferEvent`.
pub struct NftTransferEventV {
    pub old_owner_id: Seq<char>,
    pub new_owner_id: Seq<char>,
    pub token_ids: Seq<Seq<char>>,
    pub memo: Option<Seq<char>>,
    pub token_prices_near: Seq<Option<Seq<char>>>,
}

impl View for NftTransferEvent {
    type V = NftTransferEventV;

    open spec fn view(&self) -> NftTransferEventV {
        NftTransferEventV {
            old_owner_id: self.old_owner_id@,
            new_owner_id: self.new_owner_id@,
            token_ids: strs_view(self.token_ids@),
            memo: opt_str_view(self.memo),
            token_prices_near: opt_strs_view(self.token_prices_near@),
        }
    }
}

/// What decoding an NFT transfer payload document yields.
pub open spec fn spec_decode_nft_transfer(d: Seq<JsonFieldV>) -> Option<NftTransferEventV> {
    match (
        spec_doc_get_str(d, "old_owner_id"@),
        spec_doc_get_str(d, "new_owner_id"@),
        spec_doc_get_str_arr(d, "token_ids"@),
        spec_doc_get_opt_str(d, "memo"@),
        spec_doc_get_opt_str_arr(d, "token_prices_near"@),
    ) {
        (Some(o), Some(n), Some(ts), Some(m), Some(ps)) => Some(
            NftTransferEventV {
                old_owner_id: o,
                new_owner_id: n,
                token_ids: ts,
                memo: m,
                token_prices_near: ps,
            },
        ),
        _ => None,
    }
}

impl NftTransferEvent {
    /// Decode the transfer payload document of an NFT entry.
    pub fn decode(d: &Vec<JsonField>) -> (r: Option<Self>)
        ensures
            r is Some <==> spec_decode_nft_transfer(doc_view(d@)) is Some,
            (r matches Some(e) ==> spec_decode_nft_transfer(doc_view(d@)) == Some(e@)),
    {
        match (
            doc_get_str(d, "old_owner_id"),
            doc_get_str(d, "new_owner_id"),
            doc_get_str_arr(d, "token_ids"),
            doc_get_opt_str(d, "memo"),
            doc_get_opt_str_arr(d, "token_prices_near"),
        ) {
            (Some(o), Some(n), Some(ts), Some(m), Some(ps)) => Some(
                NftTransferEvent {
                    old_owner_id: o,
                    new_owner_id: n,
                    token_ids: ts,
                    memo: m,
                    token_prices_near: ps,
                },
            ),
            _ => None,
        }
    }
}

/// A decoded NFT transfer entry: payload plus context.
pub struct FullNftTransferEvent {
    pub event: NftTransferEvent,
    pub context: NftEventContext,
}

/// Mathematical form of `FullNftTransferEvent`.
pub struct FullNftTransferEventV {
    pub event: NftTransferEventV,
    pub context: NftEventContextV,
}

impl View for FullNftTransferEvent {
    type V = FullNftTransferEventV;

    open spec fn view(&self) -> FullNftTransferEventV {
        FullNftTransferEventV { event: self.event@, context: self.context@ }
    }
}

impl FromRedis for FullNftTransferEvent {
    open spec fn spec_from_entry(fields: Seq<EntryFieldV>) -> Option<FullNftTransferEventV> {
        match (spec_field_get(fields, "context"@), spec_field_get(fields, "transfer"@)) {
            (Some(cs), Some(ms)) => match (json_doc_of(cs), json_doc_of(ms)) {
                (Some(cd), Some(md)) => match (
                    spec_decode_nft_context(cd),
                    spec_decode_nft_transfer(md),
                ) {
                    (Some(c), Some(m)) => Some(FullNftTransferEventV { event: m, context: c }),
                    _ => None,
                },
                _ => None,
            },
            _ => None,
        }
    }

    fn from_entry(fields: &Vec<EntryField>) -> (r: Option<Self>) {
        let cs = match field_get(fields, "context") {
            Some(s) => s,
            None => {
                return None;
            },
        };
        let ms = match field_get(fields, "transfer") {
            Some(s) => s,
            None => {
                return None;
            },
        };
        let cd = match parse_json_obj(cs.as_str()) {
            Some(d) => d,
            None => {
                return None;
            },
        };
        let md = match parse_json_obj(ms.as_str()) {
            Some(d) => d,
            None => {
                return None;
            },
        };
        let context = match NftEventContext::decode(&cd) {
            Some(c) => c,
            None => {
                return None;
            },
        };
        let event = match NftTransferEvent::decode(&md) {
            Some(m) => m,
            None => {
                return None;
            },
        };
        Some(FullNftTransferEvent { event, context })
    }
}

/// Per-connection filter over NFT transfer events; every configured field
/// constrains independently. The involved-accounts list asks that the event
/// touch at least one listed account.
pub struct NftTransferFilter {
    pub involved_account_ids: Option<Vec<AccountId>>,
    pub old_owner_id: Option<AccountId>,
    pub new_owner_id: Option<AccountId>,
    pub contract_id: Option<AccountId>,
}

/// Mathematical form of `NftTransferFilter`.
pub struct NftTransferFilterV {
    pub involved_account_ids: Option<Seq<Seq<char>>>,
    pub old_owner_id: Option<Seq<char>>,
    pub new_owner_id: Option<Seq<char>>,
    pub contract_id: Option<Seq<char>>,
}

impl View for NftTransferFilter {
    type V = NftTransferFilterV;

    open spec fn view(&self) -> NftTransferFilterV {
        NftTransferFilterV {
            involved_account_ids: (match self.involved_account_ids {
                Some(v) => Some(strs_view(v@)),
                None => None,
            }),
            old_owner_id: opt_str_view(self.old_owner_id),
            new_owner_id: opt_str_view(self.new_owner_id),
            contract_id: opt_str_view(self.contract_id),
        }
    }
}

impl EventFilter<FullNftTransferEvent> for NftTransferFilter {
    open spec fn spec_matches(&self, event: &FullNftTransferEvent) -> bool {
        (match self.contract_id {
            Some(c) => c@ == event.context.contract_id@,
            None => true,
        }) && (match self.involved_account_ids {
            Some(inv) => strs_view(inv@).contains(event.event.old_owner_id@) || strs_view(
                inv@,
            ).contains(event.event.new_owner_id@),
            None => true,
        }) && (match self.old_owner_id {
            Some(o) => o@ == event.event.old_owner_id@,
            None => true,
        }) && (match self.new_owner_id {
            Some(n) => n@ == event.event.new_owner_id@,
            None => true,
        })
    }

    open spec fn spec_from_doc(d: Seq<JsonFieldV>) -> Option<NftTransferFilterV> {
        match (
            spec_doc_get_str_arr_opt(d, "involved_account_ids"@),
            spec_doc_get_opt_str(d, "old_owner_id"@),
            spec_doc_get_opt_str(d, "new_owner_id"@),
            spec_doc_get_opt_str(d, "contract_id"@),
        ) {
            (Some(inv), Some(o), Some(n), Some(c)) => Some(
                NftTransferFilterV {
                    involved_account_ids: inv,
                    old_owner_id: o,
                    new_owner_id: n,
                    contract_id: c,
                },
            ),
            _ => None,
        }
    }

    fn matches(&self, event: &FullNftTransferEvent) -> (r: bool) {
        if let Some(contract_id) = &self.contract_id {
            if !str_eq(contract_id.as_str(), event.context.contract_id.as_str()) {
                return false;
            }
        }
        if let Some(involved) = &self.involved_account_ids {
            if !strs_contain(involved, event.event.old_owner_id.as_str()) && !strs_contain(
                involved,
                event.event.new_owner_id.as_str(),
            ) {
                return false;
            }
        }
        if let Some(old_owner_id) = &self.old_owner_id {
            if !str_eq(old_owner_id.as_str(), event.event.old_owner_id.as_str()) {
                return false;
            }
        }
        if let Some(new_owner_id) = &self.new_owner_id {
            if !str_eq(new_owner_id.as_str(), event.event.new_owner_id.as_str()) {
                return false;
            }
        }
        true
    }

    fn from_doc(d: &Vec<JsonField>) -> (r: Option<Self>) {
        match (
            doc_get_str_arr_opt(d, "involved_account_ids"),
            doc_get_opt_str(d, "old_owner_id"),
            doc_get_opt_str(d, "new_owner_id"),
            doc_get_opt_str(d, "contract_id"),
        ) {
            (Some(inv), Some(o), Some(n), Some(c)) => Some(
                NftTransferFilter {
                    involved_account_ids: inv,
                    old_owner_id: o,
                    new_owner_id: n,
                    contract_id: c,
                },
            ),
            _ => None,
        }
    }
}

/// A transfer filter with no field set passes every event through.
pub proof fn lemma_nft_transfer_filter_pass_through(f: NftTransferFilter, e: FullNftTransferEvent)
    requires
        f.involved_account_ids is None,
        f.old_owner_id is None,
        f.new_owner_id is None,
        f.contract_id is None,
    ensures
        f.spec_matches(&e),
{
}

/// With only the involved-accounts list set, a transfer filter passes an
/// event exactly when the event touches a listed account.
pub proof fn lemma_nft_transfer_filter_involved_only(f: NftTransferFilter, e: FullNftTransferEvent)
    requires
        f.old_owner_id is None,
        f.new_owner_id is None,
        f.contract_id is None,
    ensures
        (f.involved_account_ids matches Some(inv) ==> (f.spec_matches(&e) <==> strs_view(inv@)
            .contains(e.event.old_owner_id@) || strs_view(inv@).contains(
            e.event.new_owner_id@,
        ))),
{
}

/// With exactly one plain field set, a transfer filter rejects an event
/// exactly when that field differs from the event's attribute.
pub proof fn lemma_nft_transfer_filter_single_field(f: NftTransferFilter, e: FullNftTransferEvent)
    requires
        f.involved_account_ids is None,
    ensures
        (f.old_owner_id is Some && f.new_owner_id is None && f.contract_id is None) ==> (
        f.spec_matches(&e) <==> opt_str_view(f.old_owner_id) == Some(e.event.old_owner_id@)),
        (f.old_owner_id is None && f.new_owner_id is Some && f.contract_id is None) ==> (
        f.spec_matches(&e) <==> opt_str_view(f.new_owner_id) == Some(e.event.new_owner_id@)),
        (f.old_owner_id is None && f.new_owner_id is None && f.contract_id is Some) ==> (
        f.spec_matches(&e) <==> opt_str_view(f.contract_id) == Some(e.context.contract_id@)),
{
}

/// An NFT burn: tokens disappear from an owner.
pub struct NftBurnEvent {
    pub owner_id: AccountId,
    pub token_ids: Vec<NftTokenId>,
    pub memo: Option<String>,
}

/// Mathematical form of `NftBurnEvent`.
pub struct NftBurnEventV {
    pub owner_id: Seq<char>,
    pub token_ids: Seq<Seq<char>>,
    pub memo: Option<Seq<char>>,
}

impl View for NftBurnEvent {
    type V = NftBurnEventV;

    open spec fn view(&self) -> NftBurnEventV {
        NftBurnEventV {
            owner_id: self.owner_id@,
            token_ids: strs_view(self.token_ids@),
            memo: opt_str_view(self.memo),
        }
    }
}

/// What decoding an NFT burn payload document yields.
pub open spec fn spec_decode_nft_burn(d: Seq<JsonFieldV>) -> Option<NftBurnEventV> {
    match (
        spec_doc_get_str(d, "owner_id"@),
        spec_doc_get_str_arr(d, "token_ids"@),
        spec_doc_get_opt_str(d, "memo"@),
    ) {
        (Some(o), Some(ts), Some(m)) => Some(
            NftBurnEventV { owner_id: o, token_ids: ts, memo: m },
        ),
        _ => None,
    }
}

impl NftBurnEvent {
    /// Decode the burn payload document of an NFT entry.
    pub fn decode(d: &Vec<JsonField>) -> (r: Option<Self>)
        ensures
            r is Some <==> spec_decode_nft_burn(doc_view(d@)) is Some,
            (r matches Some(e) ==> spec_decode_nft_burn(doc_view(d@)) == Some(e@)),
    {
        match (
            doc_get_str(d, "owner_id"),
            doc_get_str_arr(d, "token_ids"),
            doc_get_opt_str(d, "memo"),
        ) {
            (Some(o), Some(ts), Some(m)) => Some(
                NftBurnEvent { owner_id: o, token_ids: ts, memo: m },
            ),
            _ => None,
        }
    }
}

/// A decoded NFT burn entry: payload plus context.
pub struct FullNftBurnEvent {
    pub event: NftBurnEvent,
    pub context: NftEventContext,
}

/// Mathematical form of `FullNftBurnEvent`.
pub struct FullNftBurnEventV {
    pub event: NftBurnEventV,
    pub context: NftEventContextV,
}

impl View for FullNftBurnEvent {
    type V = FullNftBurnEventV;

    open spec fn view(&self) -> FullNftBurnEventV {
        FullNftBurnEventV { event: self.event@, context: self.context@ }
    }
}

impl FromRedis for FullNftBurnEvent {
    open spec fn spec_from_entry(fields: Seq<EntryFieldV>) -> Option<FullNftBurnEventV> {
        match (spec_field_get(fields, "context"@), spec_field_get(fields, "burn"@)) {
            (Some(cs), Some(ms)) => match (json_doc_of(cs), json_doc_of(ms)) {
                (Some(cd), Some(md)) => match (
                    spec_decode_nft_context(cd),
                    spec_decode_nft_burn(md),
                ) {
                    (Some(c), Some(m)) => Some(FullNftBurnEventV { event: m, context: c }),
                    _ => None,
                },
                _ => None,
            },
            _ => None,
        }
    }

    fn from_entry(fields: &Vec<EntryField>) -> (r: Option<Self>) {
        let cs = match field_get(fields, "context") {
            Some(s) => s,
            None => {
                return None;
            },
        };
        let ms = match field_get(fields, "burn") {
            Some(s) => s,
            None => {
                return None;
            },
        };
        let cd = match parse_json_obj(cs.as_str()) {
            Some(d) => d,
            None => {
                return None;
            },
        };
        let md = match parse_json_obj(ms.as_str()) {
            Some(d) => d,
            None => {
                return None;
            },
        };
        let context = match NftEventContext::decode(&cd) {
            Some(c) => c,
            None => {
                return None;
            },
        };
        let event = match NftBurnEvent::decode(&md) {
            Some(m) => m,
            None => {
                return None;
            },
        };
        Some(FullNftBurnEvent { event, context })
    }
}

/// Per-connection filter over NFT burn events; absent fields constrain
/// nothing.
pub struct NftBurnFilter {
    pub owner_id: Option<AccountId>,
    pub contract_id: Option<AccountId>,
}

/// Mathematical form of `NftBurnFilter`.
pub struct NftBurnFilterV {
    pub owner_id: Option<Seq<char>>,
    pub contract_id: Option<Seq<char>>,
}

impl View for NftBurnFilter {
    type V = NftBurnFilterV;

    open spec fn view(&self) -> NftBurnFilterV {
        NftBurnFilterV {
            owner_id: opt_str_view(self.owner_id),
            contract_id: opt_str_view(self.contract_id),
        }
    }
}

impl EventFilter<FullNftBurnEvent> for NftBurnFilter {
    open spec fn spec_matches(&self, event: &FullNftBurnEvent) -> bool {
        (match self.owner_id {
            Some(o) => o@ == event.event.owner_id@,
            None => true,
        }) && (match self.contract_id {
            Some(c) => c@ == event.context.contract_id@,
            None => true,
        })
    }

    open spec fn spec_from_doc(d: Seq<JsonFieldV>) -> Option<NftBurnFilterV> {
        match (spec_doc_get_opt_str(d, "owner_id"@), spec_doc_get_opt_str(d, "contract_id"@)) {
            (Some(o), Some(c)) => Some(NftBurnFilterV { owner_id: o, contract_id: c }),
            _ => None,
        }
    }

    fn matches(&self, event: &FullNftBurnEvent) -> (r: bool) {
        if let Some(owner_id) = &self.owner_id {
            if !str_eq(owner_id.as_str(), event.event.owner_id.as_str()) {
                return false;
            }
        }
        if let Some(contract_id) = &self.contract_id {
            if !str_eq(contract_id.as_str(), event.context.contract_id.as_str()) {
                return false;
            }
        }
        true
    }

    fn from_doc(d: &Vec<JsonField>) -> (r: Option<Self>) {
        match (doc_get_opt_str(d, "owner_id"), doc_get_opt_str(d, "contract_id")) {
            (Some(o), Some(c)) => Some(NftBurnFilter { owner_id: o, contract_id: c }),
            _ => None,
        }
    }
}

/// A burn filter with no field set passes every event through.
pub proof fn lemma_nft_burn_filter_pass_through(f: NftBurnFilter, e: FullNftBurnEvent)
    requires
        f.owner_id is None,
        f.contract_id is None,
    ensures
        f.spec_matches(&e),
{
}

/// With exactly one field set, a burn filter rejects an event exactly when
/// that field differs from the event's attribute.
pub proof fn lemma_nft_burn_filter_single_field(f: NftBurnFilter, e: FullNftBurnEvent)
    ensures
        (f.owner_id is Some && f.contract_id is None) ==> (f.spec_matches(&e)
            <==> opt_str_view(f.owner_id) == Some(e.event.owner_id@)),
        (f.owner_id is None && f.contract_id is Some) ==> (f.spec_matches(&e)
            <==> opt_str_view(f.contract_id) == Some(e.context.contract_id@)),
{
}

} // verus!
