//! Trade event domain: per-pool swaps, balance-change swaps and pool state
//! changes, and the per-connection filters over them.

use vstd::prelude::*;
use crate::AccountId;
use crate::Balance;
use crate::BlockHeight;
use crate::PoolId;
use crate::ReceiptId;
use crate::TransactionId;
use crate::consumer::EntryField;
use crate::consumer::EntryFieldV;
use crate::consumer::FromRedis;
use crate::consumer::field_get;
use crate::consumer::spec_field_get;
use crate::json::JsonField;
use crate::json::JsonFieldV;
use crate::json::JsonValue;
use crate::json::JsonValueV;
use crate::json::ScalarField;
use crate::json::ScalarFieldV;
use crate::json::StrPair;
use crate::json::StrPairV;
use crate::json::doc_get;
use crate::json::doc_get_opt_str;
use crate::json::doc_get_str;
use crate::json::doc_get_str_arr_opt;
use crate::json::doc_get_str_map;
use crate::json::doc_get_u64;
use crate::json::doc_take;
use crate::json::doc_view;
use crate::json::json_doc_of;
use crate::json::obj_get_str;
use crate::json::obj_view;
use crate::json::opt_str_view;
use crate::json::pairs_get;
use crate::json::pairs_view;
use crate::json::parse_json_obj;
use crate::json::spec_doc_get;
use crate::json::spec_doc_get_opt_str;
use crate::json::spec_doc_get_str;
use crate::json::spec_doc_get_str_arr_opt;
use crate::json::spec_doc_get_str_map;
use crate::json::spec_doc_get_u64;
use crate::json::spec_obj_get_str;
use crate::json::spec_pairs_get;
use crate::json::strs_view;
use crate::session::EventFilter;
use crate::text::str_eq;

verus! {

/// Identifying and ordering metadata shared by trade events.
pub struct TradeContext {
    pub trader: AccountId,
    pub block_height: BlockHeight,
    pub block_timestamp_nanosec: Balance,
    pub transaction_id: TransactionId,
    pub receipt_id: ReceiptId,
}

/// Mathematical form of `TradeContext`.
pub struct TradeContextV {
    pub trader: Seq<char>,
    pub block_height: u64,
    pub block_timestamp_nanosec: Seq<char>,
    pub transaction_id: Seq<char>,
    pub receipt_id: Seq<char>,
}

impl View for TradeContext {
    type V = TradeContextV;

    open spec fn view(&self) -> TradeContextV {
        TradeContextV {
            trader: self.trader@,
            block_height: self.block_height,
            block_timestamp_nanosec: self.block_timestamp_nanosec@,
            transaction_id: self.transaction_id@,
            receipt_id: self.receipt_id@,
        }
    }
}

/// What decoding a trade context document yields.
pub open spec fn spec_decode_trade_context(d: Seq<JsonFieldV>) -> Option<TradeContextV> {
    match (
        spec_doc_get_str(d, "trader"@),
        spec_doc_get_u64(d, "block_height"@),
        spec_doc_get_str(d, "block_timestamp_nanosec"@),
        spec_doc_get_str(d, "transaction_id"@),
        spec_doc_get_str(d, "receipt_id"@),
    ) {
        (Some(tr), Some(h), Some(ts), Some(t), Some(r)) => Some(
            TradeContextV {
                trader: tr,
                block_height: h,
                block_timestamp_nanosec: ts,
                transaction_id: t,
                receipt_id: r,
            },
        ),
        _ => None,
    }
}

impl TradeContext {
    /// Decode the context document of a trade entry.
    pub fn decode(d: &Vec<JsonField>) -> (r: Option<Self>)
        ensures
            r is Some <==> spec_decode_trade_context(doc_view(d@)) is Some,
            (r matches Some(c) ==> spec_decode_trade_context(doc_view(d@)) == Some(c@)),
    {
        match (
            doc_get_str(d, "trader"),
            doc_get_u64(d, "block_height"),
            doc_get_str(d, "block_timestamp_nanosec"),
            doc_get_str(d, "transaction_id"),
            doc_get_str(d, "receipt_id"),
        ) {
            (Some(tr), Some(h), Some(ts), Some(t), Some(r)) => Some(
                TradeContext {
                    trader: tr,
                    block_height: h,
                    block_timestamp_nanosec: ts,
                    transaction_id: t,
                    receipt_id: r,
                },
            ),
            _ => None,
        }
    }
}

/// One swap through one liquidity pool.
pub struct RawPoolSwap {
    pub pool: PoolId,
    pub token_in: AccountId,
    pub token_out: AccountId,
    pub amount_in: Balance,
    pub amount_out: Balance,
}

/// Mathematical form of `RawPoolSwap`.
pub struct RawPoolSwapV {
    pub pool: Seq<char>,
    pub token_in: Seq<char>,
    pub token_out: Seq<char>,
    pub amount_in: Seq<char>,
    pub amount_out: Seq<char>,
}

impl View for RawPoolSwap {
    type V = RawPoolSwapV;

    open spec fn view(&self) -> RawPoolSwapV {
        RawPoolSwapV {
            pool: self.pool@,
            token_in: self.token_in@,
            token_out: self.token_out@,
            amount_in: self.amount_in@,
            amount_out: self.amount_out@,
        }
    }
}

/// View of a swap list.
pub open spec fn swaps_view(v: Seq<RawPoolSwap>) -> Seq<RawPoolSwapV> {
    v.map_values(|s: RawPoolSwap| s@)
}

/// What decoding a swap payload document yields.
pub open spec fn spec_decode_pool_swap(d: Seq<JsonFieldV>) -> Option<RawPoolSwapV> {
    match (
        spec_doc_get_str(d, "pool"@),
        spec_doc_get_str(d, "token_in"@),
        spec_doc_get_str(d, "token_out"@),
        spec_doc_get_str(d, "amount_in"@),
        spec_doc_get_str(d, "amount_out"@),
    ) {
        (Some(p), Some(ti), Some(to), Some(ai), Some(ao)) => Some(
            RawPoolSwapV {
                pool: p,
                token_in: ti,
                token_out: to,
                amount_in: ai,
                amount_out: ao,
            },
        ),
        _ => None,
    }
}

/// What decoding one flat swap object yields.
pub open spec fn spec_decode_swap_obj(fields: Seq<ScalarFieldV>) -> Option<RawPoolSwapV> {
    match (
        spec_obj_get_str(fields, "pool"@),
        spec_obj_get_str(fields, "token_in"@),
        spec_obj_get_str(fields, "token_out"@),
        spec_obj_get_str(fields, "amount_in"@),
        spec_obj_get_str(fields, "amount_out"@),
    ) {
        (Some(p), Some(ti), Some(to), Some(ai), Some(ao)) => Some(
            RawPoolSwapV {
                pool: p,
                token_in: ti,
                token_out: to,
                amount_in: ai,
                amount_out: ao,
            },
        ),
        _ => None,
    }
}

/// The swap a flat object decodes to, or an all-empty one when it does not.
pub open spec fn swap_obj_or_empty(fields: Seq<ScalarFieldV>) -> RawPoolSwapV {
    match spec_decode_swap_obj(fields) {
        Some(s) => s,
        None => RawPoolSwapV {
            pool: Seq::empty(),
            token_in: Seq::empty(),
            token_out: Seq::empty(),
            amount_in: Seq::empty(),
            amount_out: Seq::empty(),
        },
    }
}

/// What decoding a list of flat swap objects yields.
pub open spec fn spec_decode_swaps(objs: Seq<Seq<ScalarFieldV>>) -> Option<Seq<RawPoolSwapV>> {
    if forall|i: int| 0 <= i < objs.len() ==> spec_decode_swap_obj(#[trigger] objs[i]) is Some {
        Some(Seq::new(objs.len(), |i: int| swap_obj_or_empty(objs[i])))
    } else {
        None
    }
}

/// The swaps member of a balance-change document: an empty array, or an
/// array of swap objects.
pub open spec fn spec_doc_get_swaps(d: Seq<JsonFieldV>, name: Seq<char>) -> Option<
    Seq<RawPoolSwapV>,
> {
    match spec_doc_get(d, name) {
        Some(JsonValueV::Arr(items)) => if items.len() == 0 {
            Some(Seq::empty())
        } else {
            None
        },
        Some(JsonValueV::ArrObj(objs)) => spec_decode_swaps(objs),
        _ => None,
    }
}

impl RawPoolSwap {
    /// Decode the payload document of a per-pool swap entry.
    pub fn decode(d: &Vec<JsonField>) -> (r: Option<Self>)
        ensures
            r is Some <==> spec_decode_pool_swap(doc_view(d@)) is Some,
            (r matches Some(e) ==> spec_decode_pool_swap(doc_view(d@)) == Some(e@)),
    {
        match (
            doc_get_str(d, "pool"),
            doc_get_str(d, "token_in"),
            doc_get_str(d, "token_out"),
            doc_get_str(d, "amount_in"),
            doc_get_str(d, "amount_out"),
        ) {
            (Some(p), Some(ti), Some(to), Some(ai), Some(ao)) => Some(
                RawPoolSwap {
                    pool: p,
                    token_in: ti,
                    token_out: to,
                    amount_in: ai,
                    amount_out: ao,
                },
            ),
            _ => None,
        }
    }

    /// Decode one flat swap object out of a swap list.
    pub fn decode_obj(fields: &Vec<ScalarField>) -> (r: Option<Self>)
        ensures
            r is Some <==> spec_decode_swap_obj(obj_view(fields@)) is Some,
            (r matches Some(e) ==> spec_decode_swap_obj(obj_view(fields@)) == Some(e@)),
    {
        match (
            obj_get_str(fields, "pool"),
            obj_get_str(fields, "token_in"),
            obj_get_str(fields, "token_out"),
            obj_get_str(fields, "amount_in"),
            obj_get_str(fields, "amount_out"),
        ) {
            (Some(p), Some(ti), Some(to), Some(ai), Some(ao)) => Some(
                RawPoolSwap {
                    pool: p,
                    token_in: ti,
                    token_out: to,
                    amount_in: ai,
                    amount_out: ao,
                },
            ),
            _ => None,
        }
    }
}

fn decode_swaps(objs: &Vec<Vec<ScalarField>>) -> (r: Option<Vec<RawPoolSwap>>)
    ensures
        match r {
            Some(v) => spec_decode_swaps(
                objs@.map_values(|o: Vec<ScalarField>| obj_view(o@)),
            ) == Some(swaps_view(v@)),
            None => spec_decode_swaps(
                objs@.map_values(|o: Vec<ScalarField>| obj_view(o@)),
            ) is None,
        },
{
    let ghost ov = objs@.map_values(|o: Vec<ScalarField>| obj_view(o@));
    let mut out: Vec<RawPoolSwap> = Vec::new();
    let mut i: usize = 0;
    while i < objs.len()
        invariant
            0 <= i <= objs@.len(),
            ov == objs@.map_values(|o: Vec<ScalarField>| obj_view(o@)),
            out@.len() == i,
            forall|k: int| 0 <= k < i ==> spec_decode_swap_obj(#[trigger] ov[k]) is Some,
            forall|k: int| 0 <= k < i ==> (#[trigger] out@[k])@ == swap_obj_or_empty(ov[k]),
        decreases objs@.len() - i,
    {
        proof {
            assert(ov[i as int] == obj_view(objs@[i as int]@));
        }
        match RawPoolSwap::decode_obj(&objs[i]) {
            Some(s) => {
                out.push(s);
            },
            None => {
                proof {
                    assert(spec_decode_swap_obj(ov[i as int]) is None);
                }
                return None;
            },
        }
        i += 1;
    }
    proof {
        let expected = Seq::new(ov.len(), |k: int| swap_obj_or_empty(ov[k]));
        assert(swaps_view(out@) =~= expected);
    }
    Some(out)
}

/// Read the swaps member of a balance-change document.
fn doc_get_swaps(d: &Vec<JsonField>, name: &str) -> (r: Option<Vec<RawPoolSwap>>)
    ensures
        match r {
            Some(v) => spec_doc_get_swaps(doc_view(d@), name@) == Some(swaps_view(v@)),
            None => spec_doc_get_swaps(doc_view(d@), name@) is None,
        },
{
    match doc_get(d, name) {
        Some(JsonValue::Arr(items)) => {
            if items.len() == 0 {
                let empty: Vec<RawPoolSwap> = Vec::new();
                proof {
                    assert(swaps_view(empty@) =~= Seq::<RawPoolSwapV>::empty());
                }
                Some(empty)
            } else {
                None
            }
        },
        Some(JsonValue::ArrObj(objs)) => decode_swaps(objs),
        _ => None,
    }
}

/// A decoded per-pool swap entry: payload plus context.
pub struct FullTradePoolEvent {
    pub event: RawPoolSwap,
    pub context: TradeContext,
}

/// Mathematical form of `FullTradePoolEvent`.
pub struct FullTradePoolEventV {
    pub event: RawPoolSwapV,
    pub context: TradeContextV,
}

impl View for FullTradePoolEvent {
    type V = FullTradePoolEventV;

    open spec fn view(&self) -> FullTradePoolEventV {
        FullTradePoolEventV { event: self.event@, context: self.context@ }
    }
}

impl FromRedis for FullTradePoolEvent {
    open spec fn spec_from_entry(fields: Seq<EntryFieldV>) -> Option<FullTradePoolEventV> {
        match (spec_field_get(fields, "context"@), spec_field_get(fields, "swap"@)) {
            (Some(cs), Some(ms)) => match (json_doc_of(cs), json_doc_of(ms)) {
                (Some(cd), Some(md)) => match (
                    spec_decode_trade_context(cd),
                    spec_decode_pool_swap(md),
                ) {
                    (Some(c), Some(m)) => Some(FullTradePoolEventV { event: m, context: c }),
                    _ => None,
                },
                _ => None,
            },
            _ => None,
        }
    }

    fn from_entry(fields: &Vec<EntryField>) -> (r: Option<Self>) {
        let cs = match field_get(fields, "context") {
            Some(s) => s,
            None => {
                return None;
            },
        };
        let ms = match field_get(fields, "swap") {
            Some(s) => s,
            None => {
                return None;
            },
        };
        let cd = match parse_json_obj(cs.as_str()) {
            Some(d) => d,
            None => {
                return None;
            },
        };
        let md = match parse_json_obj(ms.as_str()) {
            Some(d) => d,
            None => {
                return None;
            },
        };
        let context = match TradeContext::decode(&cd) {
            Some(c) => c,
            None => {
                return None;
            },
        };
        let event = match RawPoolSwap::decode(&md) {
            Some(m) => m,
            None => {
                return None;
            },
        };
        Some(FullTradePoolEvent { event, context })
    }
}

/// Per-connection filter over per-pool swaps; absent fields constrain
/// nothing.
pub struct TradePoolEventFilter {
    pub pool_id: Option<PoolId>,
    pub account_id: Option<AccountId>,
}

/// Mathematical form of `TradePoolEventFilter`.
pub struct TradePoolEventFilterV {
    pub pool_id: Option<Seq<char>>,
    pub account_id: Option<Seq<char>>,
}

impl View for TradePoolEventFilter {
    type V = TradePoolEventFilterV;

    open spec fn view(&self) -> TradePoolEventFilterV {
        TradePoolEventFilterV {
            pool_id: opt_str_view(self.pool_id),
            account_id: opt_str_view(self.account_id),
        }
    }
}

impl EventFilter<FullTradePoolEvent> for TradePoolEventFilter {
    open spec fn spec_matches(&self, event: &FullTradePoolEvent) -> bool {
        (match self.pool_id {
            Some(p) => p@ == event.event.pool@,
            None => true,
        }) && (match self.account_id {
            Some(a) => a@ == event.context.trader@,
            None => true,
        })
    }

    open spec fn spec_from_doc(d: Seq<JsonFieldV>) -> Option<TradePoolEventFilterV> {
        match (spec_doc_get_opt_str(d, "pool_id"@), spec_doc_get_opt_str(d, "account_id"@)) {
            (Some(p), Some(a)) => Some(TradePoolEventFilterV { pool_id: p, account_id: a }),
            _ => None,
        }
    }

    fn matches(&self, event: &FullTradePoolEvent) -> (r: bool) {
        if let Some(pool_id) = &self.pool_id {
            if !str_eq(pool_id.as_str(), event.event.pool.as_str()) {
                return false;
            }
        }
        if let Some(account_id) = &self.account_id {
            if !str_eq(account_id.as_str(), event.context.trader.as_str()) {
                return false;
            }
        }
        true
    }

    fn from_doc(d: &Vec<JsonField>) -> (r: Option<Self>) {
        match (doc_get_opt_str(d, "pool_id"), doc_get_opt_str(d, "account_id")) {
            (Some(p), Some(a)) => Some(TradePoolEventFilter { pool_id: p, account_id: a }),
            _ => None,
        }
    }
}

/// A per-pool swap filter with no field set passes every event through.
pub proof fn lemma_trade_pool_filter_pass_through(f: TradePoolEventFilter, e: FullTradePoolEvent)
    requires
        f.pool_id is None,
        f.account_id is None,
    ensures
        f.spec_matches(&e),
{
}

/// With exactly one field set, a per-pool swap filter rejects an event
/// exactly when that field differs from the event's attribute.
pub proof fn lemma_trade_pool_filter_single_field(f: TradePoolEventFilter, e: FullTradePoolEvent)
    ensures
        (f.pool_id is Some && f.account_id is None) ==> (f.spec_matches(&e) <==> opt_str_view(
            f.pool_id,
        ) == Some(e.event.pool@)),
        (f.pool_id is None && f.account_id is Some) ==> (f.spec_matches(&e) <==> opt_str_view(
            f.account_id,
        ) == Some(e.context.trader@)),
{
}

/// One whole-transaction swap: net balance changes per token, and the pool
/// swaps that produced them.
pub struct TradeBalanceChangeSwap {
    pub balance_changes: Vec<StrPair>,
    pub pool_swaps: Vec<RawPoolSwap>,
}

/// Mathematical form of `TradeBalanceChangeSwap`.
pub struct TradeBalanceChangeSwapV {
    pub balance_changes: Seq<StrPairV>,
    pub pool_swaps: Seq<RawPoolSwapV>,
}

impl View for TradeBalanceChangeSwap {
    type V = TradeBalanceChangeSwapV;

    open spec fn view(&self) -> TradeBalanceChangeSwapV {
        TradeBalanceChangeSwapV {
            balance_changes: pairs_view(self.balance_changes@),
            pool_swaps: swaps_view(self.pool_swaps@),
        }
    }
}

/// What decoding a balance-change payload document yields.
pub open spec fn spec_decode_balance_change(d: Seq<JsonFieldV>) -> Option<
    TradeBalanceChangeSwapV,
> {
    match (spec_doc_get_str_map(d, "balance_changes"@), spec_doc_get_swaps(d, "pool_swaps"@)) {
        (Some(b), Some(s)) => Some(TradeBalanceChangeSwapV { balance_changes: b, pool_swaps: s }),
        _ => None,
    }
}

impl TradeBalanceChangeSwap {
    /// Decode the payload document of a balance-change swap entry.
    pub fn decode(d: &Vec<JsonField>) -> (r: Option<Self>)
        ensures
            r is Some <==> spec_decode_balance_change(doc_view(d@)) is Some,
            (r matches Some(e) ==> spec_decode_balance_change(doc_view(d@)) == Some(e@)),
    {
        match (doc_get_str_map(d, "balance_changes"), doc_get_swaps(d, "pool_swaps")) {
            (Some(b), Some(s)) => Some(
                TradeBalanceChangeSwap { balance_changes: b, pool_swaps: s },
            ),
            _ => None,
        }
    }
}

/// A decoded balance-change swap entry: payload plus context.
pub struct FullTradeSwapEvent {
    pub event: TradeBalanceChangeSwap,
    pub context: TradeContext,
}

/// Mathematical form of `FullTradeSwapEvent`.
pub struct FullTradeSwapEventV {
    pub event: TradeBalanceChangeSwapV,
    pub context: TradeContextV,
}

impl View for FullTradeSwapEvent {
    type V = FullTradeSwapEventV;

    open spec fn view(&self) -> FullTradeSwapEventV {
        FullTradeSwapEventV { event: self.event@, context: self.context@ }
    }
}

impl FromRedis for FullTradeSwapEvent {
    open spec fn spec_from_entry(fields: Seq<EntryFieldV>) -> Option<FullTradeSwapEventV> {
        match (spec_field_get(fields, "context"@), spec_field_get(fields, "balance_change"@)) {
            (Some(cs), Some(ms)) => match (json_doc_of(cs), json_doc_of(ms)) {
                (Some(cd), Some(md)) => match (
                    spec_decode_trade_context(cd),
                    spec_decode_balance_change(md),
                ) {
                    (Some(c), Some(m)) => Some(FullTradeSwapEventV { event: m, context: c }),
                    _ => None,
                },
                _ => None,
            },
            _ => None,
        }
    }

    fn from_entry(fields: &Vec<EntryField>) -> (r: Option<Self>) {
        let cs = match field_get(fields, "context") {
            Some(s) => s,
            None => {
                return None;
            },
        };
        let ms = match field_get(fields, "balance_change") {
            Some(s) => s,
            None => {
                return None;
            },
        };
        let cd = match parse_json_obj(cs.as_str()) {
            Some(d) => d,
            None => {
                return None;
            },
        };
        let md = match parse_json_obj(ms.as_str()) {
            Some(d) => d,
            None => {
                return None;
            },
        };
        let context = match TradeContext::decode(&cd) {
            Some(c) => c,
            None => {
                return None;
            },
        };
        let event = match TradeBalanceChangeSwap::decode(&md) {
            Some(m) => m,
            None => {
                return None;
            },
        };
        Some(FullTradeSwapEvent { event, context })
    }
}

/// A token counts as involved when the event's balance changes hold it with
/// a change other than zero.
pub open spec fn spec_token_involved(changes: Seq<StrPairV>, token: Seq<char>) -> bool {
    match spec_pairs_get(changes, token) {
        Some(v) => v != "0"@,
        None => false,
    }
}

/// Whether at least one listed token appears among the balance changes with
/// a non-zero change.
fn any_token_involved(toks: &Vec<String>, changes: &Vec<StrPair>) -> (r: bool)
    ensures
        r == (exists|k: int|
            0 <= k < toks@.len() && spec_token_involved(
                pairs_view(changes@),
                (#[trigger] toks@[k])@,
            )),
{
    let mut i: usize = 0;
    while i < toks.len()
        invariant
            0 <= i <= toks@.len(),
            forall|k: int|
                0 <= k < i ==> !spec_token_involved(pairs_view(changes@), (#[trigger] toks@[k])@),
        decreases toks@.len() - i,
    {
        let involved = match pairs_get(changes, toks[i].as_str()) {
            Some(v) => !str_eq(v.as_str(), "0"),
            None => false,
        };
        if involved {
            proof {
                assert(spec_token_involved(pairs_view(changes@), toks@[i as int]@));
            }
            return true;
        }
        proof {
            assert(!spec_token_involved(pairs_view(changes@), toks@[i as int]@));
        }
        i += 1;
    }
    proof {
        assert(!(exists|k: int|
            0 <= k < toks@.len() && spec_token_involved(
                pairs_view(changes@),
                (#[trigger] toks@[k])@,
            ))) by {
            if exists|k: int|
                0 <= k < toks@.len() && spec_token_involved(
                    pairs_view(changes@),
                    (#[trigger] toks@[k])@,
                ) {
                let k = choose|k: int|
                    0 <= k < toks@.len() && spec_token_involved(
                        pairs_view(changes@),
                        (#[trigger] toks@[k])@,
                    );
                assert(false);
            }
        }
    }
    false
}

/// Per-connection filter over balance-change swaps. With the token list set,
/// the event must reference at least one listed token among its balance
/// changes with a non-zero change.
pub struct TradeSwapEventFilter {
    pub account_id: Option<AccountId>,
    pub involved_token_account_ids: Option<Vec<AccountId>>,
}

/// Mathematical form of `TradeSwapEventFilter`.
pub struct TradeSwapEventFilterV {
    pub account_id: Option<Seq<char>>,
    pub involved_token_account_ids: Option<Seq<Seq<char>>>,
}

impl View for TradeSwapEventFilter {
    type V = TradeSwapEventFilterV;

    open spec fn view(&self) -> TradeSwapEventFilterV {
        TradeSwapEventFilterV {
            account_id: opt_str_view(self.account_id),
            involved_token_account_ids: (match self.involved_token_account_ids {
                Some(v) => Some(strs_view(v@)),
                None => None,
            }),
        }
    }
}

impl EventFilter<FullTradeSwapEvent> for TradeSwapEventFilter {
    open spec fn spec_matches(&self, event: &FullTradeSwapEvent) -> bool {
        (match self.account_id {
            Some(a) => a@ == event.context.trader@,
            None => true,
        }) && (match self.involved_token_account_ids {
            Some(toks) => exists|i: int|
                0 <= i < toks@.len() && spec_token_involved(
                    pairs_view(event.event.balance_changes@),
                    (#[trigger] toks@[i])@,
                ),
            None => true,
        })
    }

    open spec fn spec_from_doc(d: Seq<JsonFieldV>) -> Option<TradeSwapEventFilterV> {
        match (
            spec_doc_get_opt_str(d, "account_id"@),
            spec_doc_get_str_arr_opt(d, "involved_token_account_ids"@),
        ) {
            (Some(a), Some(toks)) => Some(
                TradeSwapEventFilterV { account_id: a, involved_token_account_ids: toks },
            ),
            _ => None,
        }
    }

    fn matches(&self, event: &FullTradeSwapEvent) -> (r: bool) {
        if let Some(account_id) = &self.account_id {
            if !str_eq(account_id.as_str(), event.context.trader.as_str()) {
                return false;
            }
        }
        if let Some(toks) = &self.involved_token_account_ids {
            if !any_token_involved(toks, &event.event.balance_changes) {
                return false;
            }
        }
        true
    }

    fn from_doc(d: &Vec<JsonField>) -> (r: Option<Self>) {
        match (
            doc_get_opt_str(d, "account_id"),
            doc_get_str_arr_opt(d, "involved_token_account_ids"),
        ) {
            (Some(a), Some(toks)) => Some(
                TradeSwapEventFilter { account_id: a, involved_token_account_ids: toks },
            ),
            _ => None,
        }
    }
}

/// A balance-change swap filter with no field set passes every event
/// through.
pub proof fn lemma_trade_swap_filter_pass_through(f: TradeSwapEventFilter, e: FullTradeSwapEvent)
    requires
        f.account_id is None,
        f.involved_token_account_ids is None,
    ensures
        f.spec_matches(&e),
{
}

/// With only the trader field set, a balance-change swap filter rejects an
/// event exactly when the trader differs.
pub proof fn lemma_trade_swap_filter_single_field(f: TradeSwapEventFilter, e: FullTradeSwapEvent)
    ensures
        (f.account_id is Some && f.involved_token_account_ids is None) ==> (f.spec_matches(&e)
            <==> opt_str_view(f.account_id) == Some(e.context.trader@)),
{
}

/// A balance change that is present but zero is no involvement: with one
/// listed token whose change is zero, the event is excluded even though the
/// key is there.
pub proof fn lemma_trade_swap_zero_balance_excludes(
    f: TradeSwapEventFilter,
    e: FullTradeSwapEvent,
)
    requires
        f.involved_token_account_ids matches Some(toks) && toks@.len() == 1 && spec_pairs_get(
            pairs_view(e.event.balance_changes@),
            toks@[0]@,
        ) == Some("0"@),
    ensures
        !f.spec_matches(&e),
{
    match f.involved_token_account_ids {
        Some(toks) => {
            assert(!spec_token_involved(pairs_view(e.event.balance_changes@), toks@[0]@));
            assert(!(exists|i: int|
                0 <= i < toks@.len() && spec_token_involved(
                    pairs_view(e.event.balance_changes@),
                    (#[trigger] toks@[i])@,
                ))) by {
                if exists|i: int|
                    0 <= i < toks@.len() && spec_token_involved(
                        pairs_view(e.event.balance_changes@),
                        (#[trigger] toks@[i])@,
                    ) {
                    let i = choose|i: int|
                        0 <= i < toks@.len() && spec_token_involved(
                            pairs_view(e.event.balance_changes@),
                            (#[trigger] toks@[i])@,
                        );
                    assert(i == 0);
                    assert(false);
                }
            }
        },
        None => {},
    }
}

/// The observed state change of one liquidity pool; the pool description
/// itself is carried through undecoded.
pub struct TradePoolChangeEvent {
    pub pool_id: PoolId,
    pub receipt_id: ReceiptId,
    pub block_timestamp_nanosec: String,
    pub block_height: BlockHeight,
    pub pool: JsonValue,
}

/// Mathematical form of `TradePoolChangeEvent`.
pub struct TradePoolChangeEventV {
    pub pool_id: Seq<char>,
    pub receipt_id: Seq<char>,
    pub block_timestamp_nanosec: Seq<char>,
    pub block_height: u64,
    pub pool: JsonValueV,
}

impl View for TradePoolChangeEvent {
    type V = TradePoolChangeEventV;

    open spec fn view(&self) -> TradePoolChangeEventV {
        TradePoolChangeEventV {
            pool_id: self.pool_id@,
            receipt_id: self.receipt_id@,
            block_timestamp_nanosec: self.block_timestamp_nanosec@,
            block_height: self.block_height,
            pool: self.pool@,
        }
    }
}

/// What decoding a pool-change payload document yields.
pub open spec fn spec_decode_pool_change(d: Seq<JsonFieldV>) -> Option<TradePoolChangeEventV> {
    match (
        spec_doc_get_str(d, "pool_id"@),
        spec_doc_get_str(d, "receipt_id"@),
        spec_doc_get_str(d, "block_timestamp_nanosec"@),
        spec_doc_get_u64(d, "block_height"@),
        spec_doc_get(d, "pool"@),
    ) {
        (Some(p), Some(r), Some(ts), Some(h), Some(pool)) => Some(
            TradePoolChangeEventV {
                pool_id: p,
                receipt_id: r,
                block_timestamp_nanosec: ts,
                block_height: h,
                pool: pool,
            },
        ),
        _ => None,
    }
}

impl TradePoolChangeEvent {
    /// Decode the payload document of a pool-change entry, consuming it.
    pub fn decode(d: &mut Vec<JsonField>) -> (r: Option<Self>)
        ensures
            r is Some <==> spec_decode_pool_change(doc_view(old(d)@)) is Some,
            (r matches Some(e) ==> spec_decode_pool_change(doc_view(old(d)@)) == Some(e@)),
    {
        let scalars = match (
            doc_get_str(d, "pool_id"),
            doc_get_str(d, "receipt_id"),
            doc_get_str(d, "block_timestamp_nanosec"),
            doc_get_u64(d, "block_height"),
        ) {
            (Some(p), Some(r), Some(ts), Some(h)) => Some((p, r, ts, h)),
            _ => None,
        };
        match scalars {
            Some((p, r, ts, h)) => match doc_take(d, "pool") {
                Some(pool) => Some(
                    TradePoolChangeEvent {
                        pool_id: p,
                        receipt_id: r,
                        block_timestamp_nanosec: ts,
                        block_height: h,
                        pool: pool,
                    },
                ),
                None => None,
            },
            None => None,
        }
    }
}

/// A decoded pool-change entry; pool changes carry no separate context.
pub struct FullTradePoolChangeEvent {
    pub event: TradePoolChangeEvent,
}

/// Mathematical form of `FullTradePoolChangeEvent`.
pub struct FullTradePoolChangeEventV {
    pub event: TradePoolChangeEventV,
}

impl View for FullTradePoolChangeEvent {
    type V = FullTradePoolChangeEventV;

    open spec fn view(&self) -> FullTradePoolChangeEventV {
        FullTradePoolChangeEventV { event: self.event@ }
    }
}

impl FromRedis for FullTradePoolChangeEvent {
    open spec fn spec_from_entry(fields: Seq<EntryFieldV>) -> Option<FullTradePoolChangeEventV> {
        match spec_field_get(fields, "pool_change"@) {
            Some(ms) => match json_doc_of(ms) {
                Some(md) => match spec_decode_pool_change(md) {
                    Some(m) => Some(FullTradePoolChangeEventV { event: m }),
                    None => None,
                },
                None => None,
            },
            None => None,
        }
    }

    fn from_entry(fields: &Vec<EntryField>) -> (r: Option<Self>) {
        let ms = match field_get(fields, "pool_change") {
            Some(s) => s,
            None => {
                return None;
            },
        };
        let mut md = match parse_json_obj(ms.as_str()) {
            Some(d) => d,
            None => {
                return None;
            },
        };
        let event = match TradePoolChangeEvent::decode(&mut md) {
            Some(m) => m,
            None => {
                return None;
            },
        };
        Some(FullTradePoolChangeEvent { event })
    }
}

/// Per-connection filter over pool changes; an absent pool constrains
/// nothing.
pub struct TradePoolChangeEventFilter {
    pub pool_id: Option<PoolId>,
}

/// Mathematical form of `TradePoolChangeEventFilter`.
pub struct TradePoolChangeEventFilterV {
    pub pool_id: Option<Seq<char>>,
}

impl View for TradePoolChangeEventFilter {
    type V = TradePoolChangeEventFilterV;

    open spec fn view(&self) -> TradePoolChangeEventFilterV {
        TradePoolChangeEventFilterV { pool_id: opt_str_view(self.pool_id) }
    }
}

impl EventFilter<FullTradePoolChangeEvent> for TradePoolChangeEventFilter {
    open spec fn spec_matches(&self, event: &FullTradePoolChangeEvent) -> bool {
        match self.pool_id {
            Some(p) => p@ == event.event.pool_id@,
            None => true,
        }
    }

    open spec fn spec_from_doc(d: Seq<JsonFieldV>) -> Option<TradePoolChangeEventFilterV> {
        match spec_doc_get_opt_str(d, "pool_id"@) {
            Some(p) => Some(TradePoolChangeEventFilterV { pool_id: p }),
            None => None,
        }
    }

    fn matches(&self, event: &FullTradePoolChangeEvent) -> (r: bool) {
        if let Some(pool_id) = &self.pool_id {
            if !str_eq(pool_id.as_str(), event.event.pool_id.as_str()) {
                return false;
            }
        }
        true
    }

    fn from_doc(d: &Vec<JsonField>) -> (r: Option<Self>) {
        match doc_get_opt_str(d, "pool_id") {
            Some(p) => Some(TradePoolChangeEventFilter { pool_id: p }),
            None => None,
        }
    }
}

/// A pool-change filter with no field set passes every event through, and
/// with its pool set it rejects an event exactly when the pool differs.
pub proof fn lemma_pool_change_filter_fields(
    f: TradePoolChangeEventFilter,
    e: FullTradePoolChangeEvent,
)
    ensures
        f.pool_id is None ==> f.spec_matches(&e),
        f.pool_id is Some ==> (f.spec_matches(&e) <==> opt_str_view(f.pool_id) == Some(
            e.event.pool_id@,
        )),
{
}

} // verus!
