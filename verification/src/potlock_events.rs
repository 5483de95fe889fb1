//! Donation event domain: direct, pot-project and pot donations, their
//! shared context, and the per-connection filters over them, including the
//! minimum-amount threshold checks.

use vstd::prelude::*;
use crate::AccountId;
use crate::Balance;
use crate::BlockHeight;
use crate::DonationId;
use crate::ProjectId;
use crate::ReceiptId;
use crate::TimestampMs;
use crate::TransactionId;
use crate::consumer::EntryField;
use crate::consumer::EntryFieldV;
use crate::consumer::FromRedis;
use crate::consumer::field_get;
use crate::consumer::spec_field_get;
use crate::json::JsonField;
use crate::json::JsonFieldV;
use crate::json::StrPair;
use crate::json::StrPairV;
use crate::json::doc_get_opt_str;
use crate::json::doc_get_str;
use crate::json::doc_get_str_map_opt;
use crate::json::doc_get_u64;
use crate::json::doc_view;
use crate::json::json_doc_of;
use crate::json::opt_str_view;
use crate::json::pairs_get;
use crate::json::pairs_view;
use crate::json::parse_json_obj;
use crate::json::spec_doc_get_opt_str;
use crate::json::spec_doc_get_str;
use crate::json::spec_doc_get_str_map_opt;
use crate::json::spec_doc_get_u64;
use crate::json::spec_pairs_get;
use crate::session::EventFilter;
use crate::text::parse_u128;
use crate::text::spec_parse_u128;
use crate::text::str_eq;

verus! {

/// Identifying and ordering metadata shared by every donation event.
pub struct PotlockEventContext {
    pub transaction_id: TransactionId,
    pub receipt_id: ReceiptId,
    pub block_height: BlockHeight,
    pub block_timestamp_nanosec: String,
}

/// Mathematical form of `PotlockEventContext`.
pub struct PotlockEventContextV {
    pub transaction_id: Seq<char>,
    pub receipt_id: Seq<char>,
    pub block_height: u64,
    pub block_timestamp_nanosec: Seq<char>,
}

impl View for PotlockEventContext {
    type V = PotlockEventContextV;

    open spec fn view(&self) -> PotlockEventContextV {
        PotlockEventContextV {
            transaction_id: self.transaction_id@,
            receipt_id: self.receipt_id@,
            block_height: self.block_height,
            block_timestamp_nanosec: self.block_timestamp_nanosec@,
        }
    }
}

/// What decoding a donation context document yields.
pub open spec fn spec_decode_potlock_context(d: Seq<JsonFieldV>) -> Option<PotlockEventContextV> {
    match (
        spec_doc_get_str(d, "transaction_id"@),
        spec_doc_get_str(d, "receipt_id"@),
        spec_doc_get_u64(d, "block_height"@),
        spec_doc_get_str(d, "block_timestamp_nanosec"@),
    ) {
        (Some(t), Some(r), Some(h), Some(ts)) => Some(
            PotlockEventContextV {
                transaction_id: t,
                receipt_id: r,
                block_height: h,
                block_timestamp_nanosec: ts,
            },
        ),
        _ => None,
    }
}

impl PotlockEventContext {
    /// Decode the context document of a donation entry.
    pub fn decode(d: &Vec<JsonField>) -> (r: Option<Self>)
        ensures
            r is Some <==> spec_decode_potlock_context(doc_view(d@)) is Some,
            (r matches Some(c) ==> spec_decode_potlock_context(doc_view(d@)) == Some(c@)),
    {
        match (
            doc_get_str(d, "transaction_id"),
            doc_get_str(d, "receipt_id"),
            doc_get_u64(d, "block_height"),
            doc_get_str(d, "block_timestamp_nanosec"),
        ) {
            (Some(t), Some(r), Some(h), Some(ts)) => Some(
                PotlockEventContext {
                    transaction_id: t,
                    receipt_id: r,
                    block_height: h,
                    block_timestamp_nanosec: ts,
                },
            ),
            _ => None,
        }
    }
}

/// A direct donation to a project.
pub struct PotlockDonationEvent {
    pub donation_id: DonationId,
    pub donor_id: AccountId,
    pub total_amount: Balance,
    pub account_id: AccountId,
    pub message: Option<String>,
    pub donated_at: TimestampMs,
    pub project_id: ProjectId,
    pub protocol_fee: Balance,
    pub referrer_id: Option<AccountId>,
    pub referrer_fee: Option<Balance>,
}

/// Mathematical form of `PotlockDonationEvent`.
pub struct PotlockDonationEventV {
    pub donation_id: u64,
    pub donor_id: Seq<char>,
    pub total_amount: Seq<char>,
    pub account_id: Seq<char>,
    pub message: Option<Seq<char>>,
    pub donated_at: u64,
    pub project_id: Seq<char>,
    pub protocol_fee: Seq<char>,
    pub referrer_id: Option<Seq<char>>,
    pub referrer_fee: Option<Seq<char>>,
}

impl View for PotlockDonationEvent {
    type V = PotlockDonationEventV;

    open spec fn view(&self) -> PotlockDonationEventV {
        PotlockDonationEventV {
            donation_id: self.donation_id,
            donor_id: self.donor_id@,
            total_amount: self.total_amount@,
            account_id: self.account_id@,
            message: opt_str_view(self.message),
            donated_at: self.donated_at,
            project_id: self.project_id@,
            protocol_fee: self.protocol_fee@,
            referrer_id: opt_str_view(self.referrer_id),
            referrer_fee: opt_str_view(self.referrer_fee),
        }
    }
}

/// What decoding a direct-donation payload document yields.
pub open spec fn spec_decode_donation(d: Seq<JsonFieldV>) -> Option<PotlockDonationEventV> {
    match (
        spec_doc_get_u64(d, "donation_id"@),
        spec_doc_get_str(d, "donor_id"@),
        spec_doc_get_str(d, "total_amount"@),
        spec_doc_get_str(d, "account_id"@),
        spec_doc_get_opt_str(d, "message"@),
        spec_doc_get_u64(d, "donated_at"@),
        spec_doc_get_str(d, "project_id"@),
        spec_doc_get_str(d, "protocol_fee"@),
        spec_doc_get_opt_str(d, "referrer_id"@),
        spec_doc_get_opt_str(d, "referrer_fee"@),
    ) {
        (
            Some(id),
            Some(donor),
            Some(total),
            Some(account),
            Some(msg),
            Some(at),
            Some(project),
            Some(fee),
            Some(referrer),
            Some(rfee),
        ) => Some(
            PotlockDonationEventV {
                donation_id: id,
                donor_id: donor,
                total_amount: total,
                account_id: account,
                message: msg,
                donated_at: at,
                project_id: project,
                protocol_fee: fee,
                referrer_id: referrer,
                referrer_fee: rfee,
            },
        ),
        _ => None,
    }
}

impl PotlockDonationEvent {
    /// Decode the payload document of a direct donation.
    pub fn decode(d: &Vec<JsonField>) -> (r: Option<Self>)
        ensures
            r is Some <==> spec_decode_donation(doc_view(d@)) is Some,
            (r matches Some(e) ==> spec_decode_donation(doc_view(d@)) == Some(e@)),
    {
        match (
            doc_get_u64(d, "donation_id"),
            doc_get_str(d, "donor_id"),
            doc_get_str(d, "total_amount"),
            doc_get_str(d, "account_id"),
            doc_get_opt_str(d, "message"),
            doc_get_u64(d, "donated_at"),
            doc_get_str(d, "project_id"),
            doc_get_str(d, "protocol_fee"),
            doc_get_opt_str(d, "referrer_id"),
            doc_get_opt_str(d, "referrer_fee"),
        ) {
            (
                Some(id),
                Some(donor),
                Some(total),
                Some(account),
                Some(msg),
                Some(at),
                Some(project),
                Some(fee),
                Some(referrer),
                Some(rfee),
            ) => Some(
                PotlockDonationEvent {
                    donation_id: id,
                    donor_id: donor,
                    total_amount: total,
                    account_id: account,
                    message: msg,
                    donated_at: at,
                    project_id: project,
                    protocol_fee: fee,
                    referrer_id: referrer,
                    referrer_fee: rfee,
                },
            ),
            _ => None,
        }
    }
}

/// A decoded direct-donation entry: payload plus context.
pub struct FullPotlockDonationEvent {
    pub event: PotlockDonationEvent,
    pub context: PotlockEventContext,
}

/// Mathematical form of `FullPotlockDonationEvent`.
pub struct FullPotlockDonationEventV {
    pub event: PotlockDonationEventV,
    pub context: PotlockEventContextV,
}

impl View for FullPotlockDonationEvent {
    type V = FullPotlockDonationEventV;

    open spec fn view(&self) -> FullPotlockDonationEventV {
        FullPotlockDonationEventV { event: self.event@, context: self.context@ }
    }
}

impl FromRedis for FullPotlockDonationEvent {
    open spec fn spec_from_entry(fields: Seq<EntryFieldV>) -> Option<FullPotlockDonationEventV> {
        match (spec_field_get(fields, "context"@), spec_field_get(fields, "donation"@)) {
            (Some(cs), Some(ms)) => match (json_doc_of(cs), json_doc_of(ms)) {
                (Some(cd), Some(md)) => match (
                    spec_decode_potlock_context(cd),
                    spec_decode_donation(md),
                ) {
                    (Some(c), Some(m)) => Some(
                        FullPotlockDonationEventV { event: m, context: c },
                    ),
                    _ => None,
                },
                _ => None,
            },
            _ => None,
        }
    }

    fn from_entry(fields: &Vec<EntryField>) -> (r: Option<Self>) {
        let cs = match field_get(fields, "context") {
            Some(s) => s,
            None => {
                return None;
            },
        };
        let ms = match field_get(fields, "donation") {
            Some(s) => s,
            None => {
                return None;
            },
        };
        let cd = match parse_json_obj(cs.as_str()) {
            Some(d) => d,
            None => {
                return None;
            },
        };
        let md = match parse_json_obj(ms.as_str()) {
            Some(d) => d,
            None => {
                return None;
            },
        };
        let context = match PotlockEventContext::decode(&cd) {
            Some(c) => c,
            None => {
                return None;
            },
        };
        let event = match PotlockDonationEvent::decode(&md) {
            Some(m) => m,
            None => {
                return None;
            },
        };
        Some(FullPotlockDonationEvent { event, context })
    }
}

/// Whether an event amount passes a minimum: both sides must parse as
/// non-negative integers, and the amount must reach the minimum.
pub open spec fn spec_amount_at_least(amount: Seq<char>, min: Seq<char>) -> bool {
    match (spec_parse_u128(amount), spec_parse_u128(min)) {
        (Some(a), Some(m)) => a >= m,
        _ => false,
    }
}

/// Decide whether an event amount passes a minimum.
pub fn amount_at_least(amount: &str, min: &str) -> (r: bool)
    ensures
        r == spec_amount_at_least(amount@, min@),
{
    match (parse_u128(amount), parse_u128(min)) {
        (Some(a), Some(m)) => a >= m,
        _ => false,
    }
}

/// Per-connection filter over direct donations; absent fields constrain
/// nothing. The minimum-amount map keys donors: a donor absent from the map
/// is excluded, a present one must reach their minimum.
pub struct PotlockDonationEventFilter {
    pub project_id: Option<ProjectId>,
    pub donor_id: Option<AccountId>,
    pub referrer_id: Option<AccountId>,
    pub min_amounts: Option<Vec<StrPair>>,
}

/// Mathematical form of `PotlockDonationEventFilter`.
pub struct PotlockDonationEventFilterV {
    pub project_id: Option<Seq<char>>,
    pub donor_id: Option<Seq<char>>,
    pub referrer_id: Option<Seq<char>>,
    pub min_amounts: Option<Seq<StrPairV>>,
}

impl View for PotlockDonationEventFilter {
    type V = PotlockDonationEventFilterV;

    open spec fn view(&self) -> PotlockDonationEventFilterV {
        PotlockDonationEventFilterV {
            project_id: opt_str_view(self.project_id),
            donor_id: opt_str_view(self.donor_id),
            referrer_id: opt_str_view(self.referrer_id),
            min_amounts: (match self.min_amounts {
                Some(m) => Some(pairs_view(m@)),
                None => None,
            }),
        }
    }
}

impl EventFilter<FullPotlockDonationEvent> for PotlockDonationEventFilter {
    open spec fn spec_matches(&self, event: &FullPotlockDonationEvent) -> bool {
        (match self.project_id {
            Some(p) => p@ == event.event.project_id@,
            None => true,
        }) && (match self.donor_id {
            Some(d) => d@ == event.event.donor_id@,
            None => true,
        }) && (match self.referrer_id {
            Some(r) => (match event.event.referrer_id {
                Some(er) => er@ == r@,
                None => false,
            }),
            None => true,
        }) && (match self.min_amounts {
            Some(m) => (match spec_pairs_get(pairs_view(m@), event.event.donor_id@) {
                Some(min) => spec_amount_at_least(event.event.total_amount@, min),
                None => false,
            }),
            None => true,
        })
    }

    open spec fn spec_from_doc(d: Seq<JsonFieldV>) -> Option<PotlockDonationEventFilterV> {
        match (
            spec_doc_get_opt_str(d, "project_id"@),
            spec_doc_get_opt_str(d, "donor_id"@),
            spec_doc_get_opt_str(d, "referrer_id"@),
            spec_doc_get_str_map_opt(d, "min_amounts"@),
        ) {
            (Some(p), Some(dn), Some(r), Some(m)) => Some(
                PotlockDonationEventFilterV {
                    project_id: p,
                    donor_id: dn,
                    referrer_id: r,
                    min_amounts: m,
                },
            ),
            _ => None,
        }
    }

    fn matches(&self, event: &FullPotlockDonationEvent) -> (r: bool) {
        if let Some(project_id) = &self.project_id {
            if !str_eq(project_id.as_str(), event.event.project_id.as_str()) {
                return false;
            }
        }
        if let Some(donor_id) = &self.donor_id {
            if !str_eq(donor_id.as_str(), event.event.donor_id.as_str()) {
                return false;
            }
        }
        if let Some(referrer_id) = &self.referrer_id {
            match &event.event.referrer_id {
                Some(er) => {
                    if !str_eq(er.as_str(), referrer_id.as_str()) {
                        return false;
                    }
                },
                None => {
                    return false;
                },
            }
        }
        if let Some(min_amounts) = &self.min_amounts {
            match pairs_get(min_amounts, event.event.donor_id.as_str()) {
                Some(min) => {
                    if !amount_at_least(event.event.total_amount.as_str(), min.as_str()) {
                        return false;
                    }
                },
                None => {
                    return false;
                },
            }
        }
        true
    }

    fn from_doc(d: &Vec<JsonField>) -> (r: Option<Self>) {
        match (
            doc_get_opt_str(d, "project_id"),
            doc_get_opt_str(d, "donor_id"),
            doc_get_opt_str(d, "referrer_id"),
            doc_get_str_map_opt(d, "min_amounts"),
        ) {
            (Some(p), Some(dn), Some(r), Some(m)) => Some(
                PotlockDonationEventFilter {
                    project_id: p,
                    donor_id: dn,
                    referrer_id: r,
                    min_amounts: m,
                },
            ),
            _ => None,
        }
    }
}

/// A direct-donation filter with no field set passes every event through.
pub proof fn lemma_donation_filter_pass_through(
    f: PotlockDonationEventFilter,
    e: FullPotlockDonationEvent,
)
    requires
        f.project_id is None,
        f.donor_id is None,
        f.referrer_id is None,
        f.min_amounts is None,
    ensures
        f.spec_matches(&e),
{
}

/// With exactly one plain field set, a direct-donation filter rejects an
/// event exactly when that field differs from the event's attribute.
pub proof fn lemma_donation_filter_single_field(
    f: PotlockDonationEventFilter,
    e: FullPotlockDonationEvent,
)
    requires
        f.min_amounts is None,
    ensures
        (f.project_id is Some && f.donor_id is None && f.referrer_id is None) ==> (
        f.spec_matches(&e) <==> opt_str_view(f.project_id) == Some(e.event.project_id@)),
        (f.project_id is None && f.donor_id is Some && f.referrer_id is None) ==> (
        f.spec_matches(&e) <==> opt_str_view(f.donor_id) == Some(e.event.donor_id@)),
        (f.project_id is None && f.donor_id is None && f.referrer_id is Some) ==> (
        f.spec_matches(&e) <==> opt_str_view(f.referrer_id) == opt_str_view(
            e.event.referrer_id,
        ) && e.event.referrer_id is Some),
{
}

/// With only the minimum-amount map set and the donor present in it, the
/// filter rejects when either the event amount or the minimum fails to parse
/// as a non-negative integer, and otherwise passes exactly when the amount
/// reaches the minimum.
pub proof fn lemma_donation_filter_threshold(
    f: PotlockDonationEventFilter,
    e: FullPotlockDonationEvent,
    min: Seq<char>,
)
    requires
        f.project_id is None,
        f.donor_id is None,
        f.referrer_id is None,
        f.min_amounts matches Some(m) && spec_pairs_get(pairs_view(m@), e.event.donor_id@)
            == Some(min),
    ensures
        (spec_parse_u128(e.event.total_amount@) is None || spec_parse_u128(min) is None)
            ==> !f.spec_matches(&e),
        (spec_parse_u128(e.event.total_amount@) is Some && spec_parse_u128(min) is Some) ==> (
        f.spec_matches(&e) <==> spec_amount_at_least(e.event.total_amount@, min)),
{
}


/// A donation made to a project through a matching pot.
pub struct PotlockPotProjectDonationEvent {
    pub donation_id: DonationId,
    pub pot_id: AccountId,
    pub donor_id: AccountId,
    pub total_amount: Balance,
    pub net_amount: Balance,
    pub message: Option<String>,
    pub donated_at: TimestampMs,
    pub project_id: ProjectId,
    pub referrer_id: Option<AccountId>,
    pub referrer_fee: Option<Balance>,
    pub protocol_fee: Balance,
    pub chef_id: Option<AccountId>,
    pub chef_fee: Option<Balance>,
}

/// Mathematical form of `PotlockPotProjectDonationEvent`.
pub struct PotlockPotProjectDonationEventV {
    pub donation_id: u64,
    pub pot_id: Seq<char>,
    pub donor_id: Seq<char>,
    pub total_amount: Seq<char>,
    pub net_amount: Seq<char>,
    pub message: Option<Seq<char>>,
    pub donated_at: u64,
    pub project_id: Seq<char>,
    pub referrer_id: Option<Seq<char>>,
    pub referrer_fee: Option<Seq<char>>,
    pub protocol_fee: Seq<char>,
    pub chef_id: Option<Seq<char>>,
    pub chef_fee: Option<Seq<char>>,
}

impl View for PotlockPotProjectDonationEvent {
    type V = PotlockPotProjectDonationEventV;

    open spec fn view(&self) -> PotlockPotProjectDonationEventV {
        PotlockPotProjectDonationEventV {
            donation_id: self.donation_id,
            pot_id: self.pot_id@,
            donor_id: self.donor_id@,
            total_amount: self.total_amount@,
            net_amount: self.net_amount@,
            message: opt_str_view(self.message),
            donated_at: self.donated_at,
            project_id: self.project_id@,
            referrer_id: opt_str_view(self.referrer_id),
            referrer_fee: opt_str_view(self.referrer_fee),
            protocol_fee: self.protocol_fee@,
            chef_id: opt_str_view(self.chef_id),
            chef_fee: opt_str_view(self.chef_fee),
        }
    }
}

/// What decoding a pot-project-donation payload document yields.
pub open spec fn spec_decode_pot_project_donation(d: Seq<JsonFieldV>) -> Option<
    PotlockPotProjectDonationEventV,
> {
    match (
        spec_doc_get_u64(d, "donation_id"@),
        spec_doc_get_str(d, "pot_id"@),
        spec_doc_get_str(d, "donor_id"@),
        spec_doc_get_str(d, "total_amount"@),
        spec_doc_get_str(d, "net_amount"@),
        spec_doc_get_opt_str(d, "message"@),
        spec_doc_get_u64(d, "donated_at"@),
        spec_doc_get_str(d, "project_id"@),
        spec_doc_get_opt_str(d, "referrer_id"@),
        spec_doc_get_opt_str(d, "referrer_fee"@),
        spec_doc_get_str(d, "protocol_fee"@),
        spec_doc_get_opt_str(d, "chef_id"@),
        spec_doc_get_opt_str(d, "chef_fee"@),
    ) {
        (
            Some(id),
            Some(pot),
            Some(donor),
            Some(total),
            Some(net),
            Some(msg),
            Some(at),
            Some(project),
            Some(referrer),
            Some(rfee),
            Some(fee),
            Some(chef),
            Some(cfee),
        ) => Some(
            PotlockPotProjectDonationEventV {
                donation_id: id,
                pot_id: pot,
                donor_id: donor,
                total_amount: total,
                net_amount: net,
                message: msg,
                donated_at: at,
                project_id: project,
                referrer_id: referrer,
                referrer_fee: rfee,
                protocol_fee: fee,
                chef_id: chef,
                chef_fee: cfee,
            },
        ),
        _ => None,
    }
}

impl PotlockPotProjectDonationEvent {
    /// Decode the payload document of a pot-project donation.
    pub fn decode(d: &Vec<JsonField>) -> (r: Option<Self>)
        ensures
            r is Some <==> spec_decode_pot_project_donation(doc_view(d@)) is Some,
            (r matches Some(e) ==> spec_decode_pot_project_donation(doc_view(d@)) == Some(e@)),
    {
        match (
            doc_get_u64(d, "donation_id"),
            doc_get_str(d, "pot_id"),
            doc_get_str(d, "donor_id"),
            doc_get_str(d, "total_amount"),
            doc_get_str(d, "net_amount"),
            doc_get_opt_str(d, "message"),
            doc_get_u64(d, "donated_at"),
            doc_get_str(d, "project_id"),
            doc_get_opt_str(d, "referrer_id"),
            doc_get_opt_str(d, "referrer_fee"),
            doc_get_str(d, "protocol_fee"),
            doc_get_opt_str(d, "chef_id"),
            doc_get_opt_str(d, "chef_fee"),
        ) {
            (
                Some(id),
                Some(pot),
                Some(donor),
                Some(total),
                Some(net),
                Some(msg),
                Some(at),
                Some(project),
                Some(referrer),
                Some(rfee),
                Some(fee),
                Some(chef),
                Some(cfee),
            ) => Some(
                PotlockPotProjectDonationEvent {
                    donation_id: id,
                    pot_id: pot,
                    donor_id: donor,
                    total_amount: total,
                    net_amount: net,
                    message: msg,
                    donated_at: at,
                    project_id: project,
                    referrer_id: referrer,
                    referrer_fee: rfee,
                    protocol_fee: fee,
                    chef_id: chef,
                    chef_fee: cfee,
                },
            ),
            _ => None,
        }
    }
}

/// A decoded pot-project-donation entry: payload plus context.
pub struct FullPotlockPotProjectDonationEvent {
    pub event: PotlockPotProjectDonationEvent,
    pub context: PotlockEventContext,
}

/// Mathematical form of `FullPotlockPotProjectDonationEvent`.
pub struct FullPotlockPotProjectDonationEventV {
    pub event: PotlockPotProjectDonationEventV,
    pub context: PotlockEventContextV,
}

impl View for FullPotlockPotProjectDonationEvent {
    type V = FullPotlockPotProjectDonationEventV;

    open spec fn view(&self) -> FullPotlockPotProjectDonationEventV {
        FullPotlockPotProjectDonationEventV { event: self.event@, context: self.context@ }
    }
}

impl FromRedis for FullPotlockPotProjectDonationEvent {
    open spec fn spec_from_entry(fields: Seq<EntryFieldV>) -> Option<
        FullPotlockPotProjectDonationEventV,
    > {
        match (
            spec_field_get(fields, "context"@),
            spec_field_get(fields, "pot_project_donation"@),
        ) {
            (Some(cs), Some(ms)) => match (json_doc_of(cs), json_doc_of(ms)) {
                (Some(cd), Some(md)) => match (
                    spec_decode_potlock_context(cd),
                    spec_decode_pot_project_donation(md),
                ) {
                    (Some(c), Some(m)) => Some(
                        FullPotlockPotProjectDonationEventV { event: m, context: c },
                    ),
                    _ => None,
                },
                _ => None,
            },
            _ => None,
        }
    }

    fn from_entry(fields: &Vec<EntryField>) -> (r: Option<Self>) {
        let cs = match field_get(fields, "context") {
            Some(s) => s,
            None => {
                return None;
            },
        };
        let ms = match field_get(fields, "pot_project_donation") {
            Some(s) => s,
            None => {
                return None;
            },
        };
        let cd = match parse_json_obj(cs.as_str()) {
            Some(d) => d,
            None => {
                return None;
            },
        };
        let md = match parse_json_obj(ms.as_str()) {
            Some(d) => d,
            None => {
                return None;
            },
        };
        let context = match PotlockEventContext::decode(&cd) {
            Some(c) => c,
            None => {
                return None;
            },
        };
        let event = match PotlockPotProjectDonationEvent::decode(&md) {
            Some(m) => m,
            None => {
                return None;
            },
        };
        Some(FullPotlockPotProjectDonationEvent { event, context })
    }
}

/// Per-connection filter over pot-project donations; absent fields constrain
/// nothing.
pub struct PotlockPotProjectDonationEventFilter {
    pub pot_id: Option<AccountId>,
    pub project_id: Option<ProjectId>,
    pub donor_id: Option<AccountId>,
    pub referrer_id: Option<AccountId>,
    pub min_amount_near: Option<Balance>,
}

/// Mathematical form of `PotlockPotProjectDonationEventFilter`.
pub struct PotlockPotProjectDonationEventFilterV {
    pub pot_id: Option<Seq<char>>,
    pub project_id: Option<Seq<char>>,
    pub donor_id: Option<Seq<char>>,
    pub referrer_id: Option<Seq<char>>,
    pub min_amount_near: Option<Seq<char>>,
}

impl View for PotlockPotProjectDonationEventFilter {
    type V = PotlockPotProjectDonationEventFilterV;

    open spec fn view(&self) -> PotlockPotProjectDonationEventFilterV {
        PotlockPotProjectDonationEventFilterV {
            pot_id: opt_str_view(self.pot_id),
            project_id: opt_str_view(self.project_id),
            donor_id: opt_str_view(self.donor_id),
            referrer_id: opt_str_view(self.referrer_id),
            min_amount_near: opt_str_view(self.min_amount_near),
        }
    }
}

impl EventFilter<FullPotlockPotProjectDonationEvent> for PotlockPotProjectDonationEventFilter {
    open spec fn spec_matches(&self, event: &FullPotlockPotProjectDonationEvent) -> bool {
        (match self.pot_id {
            Some(p) => p@ == event.event.pot_id@,
            None => true,
        }) && (match self.project_id {
            Some(p) => p@ == event.event.project_id@,
            None => true,
        }) && (match self.donor_id {
            Some(d) => d@ == event.event.donor_id@,
            None => true,
        }) && (match self.referrer_id {
            Some(r) => (match event.event.referrer_id {
                Some(er) => er@ == r@,
                None => false,
            }),
            None => true,
        }) && (match self.min_amount_near {
            Some(m) => spec_amount_at_least(event.event.total_amount@, m@),
            None => true,
        })
    }

    open spec fn spec_from_doc(d: Seq<JsonFieldV>) -> Option<
        PotlockPotProjectDonationEventFilterV,
    > {
        match (
            spec_doc_get_opt_str(d, "pot_id"@),
            spec_doc_get_opt_str(d, "project_id"@),
            spec_doc_get_opt_str(d, "donor_id"@),
            spec_doc_get_opt_str(d, "referrer_id"@),
            spec_doc_get_opt_str(d, "min_amount_near"@),
        ) {
            (Some(p), Some(pr), Some(dn), Some(r), Some(m)) => Some(
                PotlockPotProjectDonationEventFilterV {
                    pot_id: p,
                    project_id: pr,
                    donor_id: dn,
                    referrer_id: r,
                    min_amount_near: m,
                },
            ),
            _ => None,
        }
    }

    fn matches(&self, event: &FullPotlockPotProjectDonationEvent) -> (r: bool) {
        if let Some(pot_id) = &self.pot_id {
            if !str_eq(pot_id.as_str(), event.event.pot_id.as_str()) {
                return false;
            }
        }
        if let Some(project_id) = &self.project_id {
            if !str_eq(project_id.as_str(), event.event.project_id.as_str()) {
                return false;
            }
        }
        if let Some(donor_id) = &self.donor_id {
            if !str_eq(donor_id.as_str(), event.event.donor_id.as_str()) {
                return false;
            }
        }
        if let Some(referrer_id) = &self.referrer_id {
            match &event.event.referrer_id {
                Some(er) => {
                    if !str_eq(er.as_str(), referrer_id.as_str()) {
                        return false;
                    }
                },
                None => {
                    return false;
                },
            }
        }
        if let Some(min_amount_near) = &self.min_amount_near {
            if !amount_at_least(event.event.total_amount.as_str(), min_amount_near.as_str()) {
                return false;
            }
        }
        true
    }

    fn from_doc(d: &Vec<JsonField>) -> (r: Option<Self>) {
        match (
            doc_get_opt_str(d, "pot_id"),
            doc_get_opt_str(d, "project_id"),
            doc_get_opt_str(d, "donor_id"),
            doc_get_opt_str(d, "referrer_id"),
            doc_get_opt_str(d, "min_amount_near"),
        ) {
            (Some(p), Some(pr), Some(dn), Some(r), Some(m)) => Some(
                PotlockPotProjectDonationEventFilter {
                    pot_id: p,
                    project_id: pr,
                    donor_id: dn,
                    referrer_id: r,
                    min_amount_near: m,
                },
            ),
            _ => None,
        }
    }
}

/// A pot-project-donation filter with no field set passes every event
/// through.
pub proof fn lemma_pot_project_donation_filter_pass_through(
    f: PotlockPotProjectDonationEventFilter,
    e: FullPotlockPotProjectDonationEvent,
)
    requires
        f.pot_id is None,
        f.project_id is None,
        f.donor_id is None,
        f.referrer_id is None,
        f.min_amount_near is None,
    ensures
        f.spec_matches(&e),
{
}

/// With only the threshold set, a pot-project-donation filter rejects when
/// either side fails to parse as a non-negative integer, and otherwise
/// passes exactly when the amount reaches the threshold.
pub proof fn lemma_pot_project_donation_filter_threshold(
    f: PotlockPotProjectDonationEventFilter,
    e: FullPotlockPotProjectDonationEvent,
    min: Seq<char>,
)
    requires
        f.pot_id is None,
        f.project_id is None,
        f.donor_id is None,
        f.referrer_id is None,
        opt_str_view(f.min_amount_near) == Some(min),
    ensures
        (spec_parse_u128(e.event.total_amount@) is None || spec_parse_u128(min) is None)
            ==> !f.spec_matches(&e),
        (spec_parse_u128(e.event.total_amount@) is Some && spec_parse_u128(min) is Some) ==> (
        f.spec_matches(&e) <==> spec_amount_at_least(e.event.total_amount@, min)),
{
}

/// A donation into a pot itself.
pub struct PotlockPotDonationEvent {
    pub donation_id: DonationId,
    pub pot_id: AccountId,
    pub donor_id: AccountId,
    pub total_amount: Balance,
    pub net_amount: Balance,
    pub message: Option<String>,
    pub donated_at: TimestampMs,
    pub referrer_id: Option<AccountId>,
    pub referrer_fee: Option<Balance>,
    pub protocol_fee: Balance,
    pub chef_id: Option<AccountId>,
    pub chef_fee: Option<Balance>,
}

/// Mathematical form of `PotlockPotDonationEvent`.
pub struct PotlockPotDonationEventV {
    pub donation_id: u64,
    pub pot_id: Seq<char>,
    pub donor_id: Seq<char>,
    pub total_amount: Seq<char>,
    pub net_amount: Seq<char>,
    pub message: Option<Seq<char>>,
    pub donated_at: u64,
    pub referrer_id: Option<Seq<char>>,
    pub referrer_fee: Option<Seq<char>>,
    pub protocol_fee: Seq<char>,
    pub chef_id: Option<Seq<char>>,
    pub chef_fee: Option<Seq<char>>,
}

impl View for PotlockPotDonationEvent {
    type V = PotlockPotDonationEventV;

    open spec fn view(&self) -> PotlockPotDonationEventV {
        PotlockPotDonationEventV {
            donation_id: self.donation_id,
            pot_id: self.pot_id@,
            donor_id: self.donor_id@,
            total_amount: self.total_amount@,
            net_amount: self.net_amount@,
            message: opt_str_view(self.message),
            donated_at: self.donated_at,
            referrer_id: opt_str_view(self.referrer_id),
            referrer_fee: opt_str_view(self.referrer_fee),
            protocol_fee: self.protocol_fee@,
            chef_id: opt_str_view(self.chef_id),
            chef_fee: opt_str_view(self.chef_fee),
        }
    }
}

/// What decoding a pot-donation payload document yields.
pub open spec fn spec_decode_pot_donation(d: Seq<JsonFieldV>) -> Option<PotlockPotDonationEventV> {
    match (
        spec_doc_get_u64(d, "donation_id"@),
        spec_doc_get_str(d, "pot_id"@),
        spec_doc_get_str(d, "donor_id"@),
        spec_doc_get_str(d, "total_amount"@),
        spec_doc_get_str(d, "net_amount"@),
        spec_doc_get_opt_str(d, "message"@),
        spec_doc_get_u64(d, "donated_at"@),
        spec_doc_get_opt_str(d, "referrer_id"@),
        spec_doc_get_opt_str(d, "referrer_fee"@),
        spec_doc_get_str(d, "protocol_fee"@),
        spec_doc_get_opt_str(d, "chef_id"@),
        spec_doc_get_opt_str(d, "chef_fee"@),
    ) {
        (
            Some(id),
            Some(pot),
            Some(donor),
            Some(total),
            Some(net),
            Some(msg),
            Some(at),
            Some(referrer),
            Some(rfee),
            Some(fee),
            Some(chef),
            Some(cfee),
        ) => Some(
            PotlockPotDonationEventV {
                donation_id: id,
                pot_id: pot,
                donor_id: donor,
                total_amount: total,
                net_amount: net,
                message: msg,
                donated_at: at,
                referrer_id: referrer,
                referrer_fee: rfee,
                protocol_fee: fee,
                chef_id: chef,
                chef_fee: cfee,
            },
        ),
        _ => None,
    }
}

impl PotlockPotDonationEvent {
    /// Decode the payload document of a pot donation.
    pub fn decode(d: &Vec<JsonField>) -> (r: Option<Self>)
        ensures
            r is Some <==> spec_decode_pot_donation(doc_view(d@)) is Some,
            (r matches Some(e) ==> spec_decode_pot_donation(doc_view(d@)) == Some(e@)),
    {
        match (
            doc_get_u64(d, "donation_id"),
            doc_get_str(d, "pot_id"),
            doc_get_str(d, "donor_id"),
            doc_get_str(d, "total_amount"),
            doc_get_str(d, "net_amount"),
            doc_get_opt_str(d, "message"),
            doc_get_u64(d, "donated_at"),
            doc_get_opt_str(d, "referrer_id"),
            doc_get_opt_str(d, "referrer_fee"),
            doc_get_str(d, "protocol_fee"),
            doc_get_opt_str(d, "chef_id"),
            doc_get_opt_str(d, "chef_fee"),
        ) {
            (
                Some(id),
                Some(pot),
                Some(donor),
                Some(total),
                Some(net),
                Some(msg),
                Some(at),
                Some(referrer),
                Some(rfee),
                Some(fee),
                Some(chef),
                Some(cfee),
            ) => Some(
                PotlockPotDonationEvent {
                    donation_id: id,
                    pot_id: pot,
                    donor_id: donor,
                    total_amount: total,
                    net_amount: net,
                    message: msg,
                    donated_at: at,
                    referrer_id: referrer,
                    referrer_fee: rfee,
                    protocol_fee: fee,
                    chef_id: chef,
                    chef_fee: cfee,
                },
            ),
            _ => None,
        }
    }
}

/// A decoded pot-donation entry: payload plus context.
pub struct FullPotlockPotDonationEvent {
    pub event: PotlockPotDonationEvent,
    pub context: PotlockEventContext,
}

/// Mathematical form of `FullPotlockPotDonationEvent`.
pub struct FullPotlockPotDonationEventV {
    pub event: PotlockPotDonationEventV,
    pub context: PotlockEventContextV,
}

impl View for FullPotlockPotDonationEvent {
    type V = FullPotlockPotDonationEventV;

    open spec fn view(&self) -> FullPotlockPotDonationEventV {
        FullPotlockPotDonationEventV { event: self.event@, context: self.context@ }
    }
}

impl FromRedis for FullPotlockPotDonationEvent {
    open spec fn spec_from_entry(fields: Seq<EntryFieldV>) -> Option<
        FullPotlockPotDonationEventV,
    > {
        match (spec_field_get(fields, "context"@), spec_field_get(fields, "pot_donation"@)) {
            (Some(cs), Some(ms)) => match (json_doc_of(cs), json_doc_of(ms)) {
                (Some(cd), Some(md)) => match (
                    spec_decode_potlock_context(cd),
                    spec_decode_pot_donation(md),
                ) {
                    (Some(c), Some(m)) => Some(
                        FullPotlockPotDonationEventV { event: m, context: c },
                    ),
                    _ => None,
                },
                _ => None,
            },
            _ => None,
        }
    }

    fn from_entry(fields: &Vec<EntryField>) -> (r: Option<Self>) {
        let cs = match field_get(fields, "context") {
            Some(s) => s,
            None => {
                return None;
            },
        };
        let ms = match field_get(fields, "pot_donation") {
            Some(s) => s,
            None => {
                return None;
            },
        };
        let cd = match parse_json_obj(cs.as_str()) {
            Some(d) => d,
            None => {
                return None;
            },
        };
        let md = match parse_json_obj(ms.as_str()) {
            Some(d) => d,
            None => {
                return None;
            },
        };
        let context = match PotlockEventContext::decode(&cd) {
            Some(c) => c,
            None => {
                return None;
            },
        };
        let event = match PotlockPotDonationEvent::decode(&md) {
            Some(m) => m,
            None => {
                return None;
            },
        };
        Some(FullPotlockPotDonationEvent { event, context })
    }
}

/// Per-connection filter over pot donations; absent fields constrain
/// nothing.
pub struct PotlockPotDonationEventFilter {
    pub pot_id: Option<AccountId>,
    pub donor_id: Option<AccountId>,
    pub referrer_id: Option<AccountId>,
    pub min_amount_near: Option<Balance>,
}

/// Mathematical form of `PotlockPotDonationEventFilter`.
pub struct PotlockPotDonationEventFilterV {
    pub pot_id: Option<Seq<char>>,
    pub donor_id: Option<Seq<char>>,
    pub referrer_id: Option<Seq<char>>,
    pub min_amount_near: Option<Seq<char>>,
}

impl View for PotlockPotDonationEventFilter {
    type V = PotlockPotDonationEventFilterV;

    open spec fn view(&self) -> PotlockPotDonationEventFilterV {
        PotlockPotDonationEventFilterV {
            pot_id: opt_str_view(self.pot_id),
            donor_id: opt_str_view(self.donor_id),
            referrer_id: opt_str_view(self.referrer_id),
            min_amount_near: opt_str_view(self.min_amount_near),
        }
    }
}

impl EventFilter<FullPotlockPotDonationEvent> for PotlockPotDonationEventFilter {
    open spec fn spec_matches(&self, event: &FullPotlockPotDonationEvent) -> bool {
        (match self.pot_id {
            Some(p) => p@ == event.event.pot_id@,
            None => true,
        }) && (match self.donor_id {
            Some(d) => d@ == event.event.donor_id@,
            None => true,
        }) && (match self.referrer_id {
            Some(r) => (match event.event.referrer_id {
                Some(er) => er@ == r@,
                None => false,
            }),
            None => true,
        }) && (match self.min_amount_near {
            Some(m) => spec_amount_at_least(event.event.total_amount@, m@),
            None => true,
        })
    }

    open spec fn spec_from_doc(d: Seq<JsonFieldV>) -> Option<PotlockPotDonationEventFilterV> {
        match (
            spec_doc_get_opt_str(d, "pot_id"@),
            spec_doc_get_opt_str(d, "donor_id"@),
            spec_doc_get_opt_str(d, "referrer_id"@),
            spec_doc_get_opt_str(d, "min_amount_near"@),
        ) {
            (Some(p), Some(dn), Some(r), Some(m)) => Some(
                PotlockPotDonationEventFilterV {
                    pot_id: p,
                    donor_id: dn,
                    referrer_id: r,
                    min_amount_near: m,
                },
            ),
            _ => None,
        }
    }

    fn matches(&self, event: &FullPotlockPotDonationEvent) -> (r: bool) {
        if let Some(pot_id) = &self.pot_id {
            if !str_eq(pot_id.as_str(), event.event.pot_id.as_str()) {
                return false;
            }
        }
        if let Some(donor_id) = &self.donor_id {
            if !str_eq(donor_id.as_str(), event.event.donor_id.as_str()) {
                return false;
            }
        }
        if let Some(referrer_id) = &self.referrer_id {
            match &event.event.referrer_id {
                Some(er) => {
                    if !str_eq(er.as_str(), referrer_id.as_str()) {
                        return false;
                    }
                },
                None => {
                    return false;
                },
            }
        }
        if let Some(min_amount_near) = &self.min_amount_near {
            if !amount_at_least(event.event.total_amount.as_str(), min_amount_near.as_str()) {
                return false;
            }
        }
        true
    }

    fn from_doc(d: &Vec<JsonField>) -> (r: Option<Self>) {
        match (
            doc_get_opt_str(d, "pot_id"),
            doc_get_opt_str(d, "donor_id"),
            doc_get_opt_str(d, "referrer_id"),
            doc_get_opt_str(d, "min_amount_near"),
        ) {
            (Some(p), Some(dn), Some(r), Some(m)) => Some(
                PotlockPotDonationEventFilter {
                    pot_id: p,
                    donor_id: dn,
                    referrer_id: r,
                    min_amount_near: m,
                },
            ),
            _ => None,
        }
    }
}

/// A pot-donation filter with no field set passes every event through.
pub proof fn lemma_pot_donation_filter_pass_through(
    f: PotlockPotDonationEventFilter,
    e: FullPotlockPotDonationEvent,
)
    requires
        f.pot_id is None,
        f.donor_id is None,
        f.referrer_id is None,
        f.min_amount_near is None,
    ensures
        f.spec_matches(&e),
{
}

/// With only the threshold set, a pot-donation filter rejects when either
/// side fails to parse as a non-negative integer, and otherwise passes
/// exactly when the amount reaches the threshold.
pub proof fn lemma_pot_donation_filter_threshold(
    f: PotlockPotDonationEventFilter,
    e: FullPotlockPotDonationEvent,
    min: Seq<char>,
)
    requires
        f.pot_id is None,
        f.donor_id is None,
        f.referrer_id is None,
        opt_str_view(f.min_amount_near) == Some(min),
    ensures
        (spec_parse_u128(e.event.total_amount@) is None || spec_parse_u128(min) is None)
            ==> !f.spec_matches(&e),
        (spec_parse_u128(e.event.total_amount@) is Some && spec_parse_u128(min) is Some) ==> (
        f.spec_matches(&e) <==> spec_amount_at_least(e.event.total_amount@, min)),
{
}

} // verus!
