//! Per-channel stream consumer: resumable cursor handling and batch
//! processing of raw log entries into typed domain events.
//!
//! The consumer never talks to the log store itself; the surrounding program
//! reads batches and persists cursors, and hands the plain entries here. One
//! decode failure stops the consumer for good, as the gateway's policy asks.

use vstd::prelude::*;

verus! {

/// Most entries one read request asks the log store for.
pub const READ_BATCH_LIMIT: usize = 100;

/// Longest a read request waits for new entries before returning empty.
pub const READ_BLOCK_MS: u64 = 250;

/// One named field of a raw log entry, with its value as text.
pub struct EntryField {
    pub name: String,
    pub value: String,
}

/// Mathematical form of `EntryField`.
pub struct EntryFieldV {
    pub name: Seq<char>,
    pub value: Seq<char>,
}

impl View for EntryField {
    type V = EntryFieldV;

    open spec fn view(&self) -> EntryFieldV {
        EntryFieldV { name: self.name@, value: self.value@ }
    }
}

/// View of an entry's field list.
pub open spec fn entry_fields_view(fields: Seq<EntryField>) -> Seq<EntryFieldV> {
    fields.map_values(|f: EntryField| f@)
}

/// One raw log entry: its ID and its named fields.
pub struct RawEntry {
    pub id: String,
    pub fields: Vec<EntryField>,
}

/// Mathematical form of `RawEntry`.
pub struct RawEntryV {
    pub id: Seq<char>,
    pub fields: Seq<EntryFieldV>,
}

impl View for RawEntry {
    type V = RawEntryV;

    open spec fn view(&self) -> RawEntryV {
        RawEntryV { id: self.id@, fields: entry_fields_view(self.fields@) }
    }
}

/// First field of an entry with the given name.
pub open spec fn spec_field_get(fields: Seq<EntryFieldV>, name: Seq<char>) -> Option<Seq<char>>
    decreases fields.len(),
{
    if fields.len() == 0 {
        None
    } else if fields[0].name == name {
        Some(fields[0].value)
    } else {
        spec_field_get(fields.drop_first(), name)
    }
}

/// Look a field up in an entry's field list.
pub fn field_get<'a>(fields: &'a Vec<EntryField>, name: &str) -> (r: Option<&'a String>)
    ensures
        match r {
            Some(v) => spec_field_get(entry_fields_view(fields@), name@) == Some(v@),
            None => spec_field_get(entry_fields_view(fields@), name@) is None,
        },
{
    let mut i: usize = 0;
    proof {
        assert(entry_fields_view(fields@).skip(0) =~= entry_fields_view(fields@));
    }
    while i < fields.len()
        invariant
            0 <= i <= fields@.len(),
            spec_field_get(entry_fields_view(fields@), name@) == spec_field_get(
                entry_fields_view(fields@).skip(i as int),
                name@,
            ),
        decreases fields@.len() - i,
    {
        let f = &fields[i];
        proof {
            assert(entry_fields_view(fields@).skip(i as int).drop_first() =~= entry_fields_view(
                fields@,
            ).skip(i + 1));
            assert(entry_fields_view(fields@).skip(i as int)[0] == fields@[i as int]@);
        }
        if crate::text::str_eq(f.name.as_str(), name) {
            return Some(&f.value);
        }
        i += 1;
    }
    proof {
        assert(entry_fields_view(fields@).skip(i as int) =~= Seq::<EntryFieldV>::empty());
    }
    None
}

/// View of an entry list.
pub open spec fn entries_view(es: Seq<RawEntry>) -> Seq<RawEntryV> {
    es.map_values(|e: RawEntry| e@)
}

/// One stream's slice of a read reply: the stream's name and its entries in
/// reply order.
pub struct StreamBatch {
    pub stream: String,
    pub entries: Vec<RawEntry>,
}

/// Mathematical form of `StreamBatch`.
pub struct StreamBatchV {
    pub stream: Seq<char>,
    pub entries: Seq<RawEntryV>,
}

impl View for StreamBatch {
    type V = StreamBatchV;

    open spec fn view(&self) -> StreamBatchV {
        StreamBatchV { stream: self.stream@, entries: entries_view(self.entries@) }
    }
}

/// View of a read reply.
pub open spec fn batches_view(bs: Seq<StreamBatch>) -> Seq<StreamBatchV> {
    bs.map_values(|b: StreamBatch| b@)
}

/// The entries a read reply holds for one stream, in reply order; slices
/// under any other stream name are dropped.
pub open spec fn spec_entries_for_stream(reply: Seq<StreamBatchV>, key: Seq<char>) -> Seq<
    RawEntryV,
>
    decreases reply.len(),
{
    if reply.len() == 0 {
        Seq::empty()
    } else {
        (if reply[0].stream == key {
            reply[0].entries
        } else {
            Seq::empty()
        }) + spec_entries_for_stream(reply.drop_first(), key)
    }
}

/// Flatten a read reply into the requested stream's entries, in reply order,
/// dropping any slice that answers for a different stream.
pub fn entries_for_stream(reply: &mut Vec<StreamBatch>, stream_key: &str) -> (r: Vec<RawEntry>)
    ensures
        entries_view(r@) == spec_entries_for_stream(batches_view(old(reply)@), stream_key@),
{
    let ghost orig = batches_view(reply@);
    let mut out: Vec<RawEntry> = Vec::new();
    proof {
        assert(entries_view(out@) =~= Seq::<RawEntryV>::empty());
        assert(Seq::<RawEntryV>::empty() + spec_entries_for_stream(orig, stream_key@)
            =~= spec_entries_for_stream(orig, stream_key@));
    }
    while reply.len() > 0
        invariant
            batches_view(old(reply)@) == orig,
            entries_view(out@) + spec_entries_for_stream(batches_view(reply@), stream_key@)
                == spec_entries_for_stream(orig, stream_key@),
        decreases reply@.len(),
    {
        let ghost before = batches_view(reply@);
        let mut b = reply.remove(0);
        proof {
            assert(before.drop_first() =~= batches_view(reply@));
            assert(before[0] == b@);
        }
        let ghost b_entries = b@.entries;
        if crate::text::str_eq(b.stream.as_str(), stream_key) {
            let ghost out_before = entries_view(out@);
            out.append(&mut b.entries);
            proof {
                assert(entries_view(out@) =~= out_before + b_entries);
                assert((out_before + b_entries) + spec_entries_for_stream(
                    batches_view(reply@),
                    stream_key@,
                ) =~= out_before + (b_entries + spec_entries_for_stream(
                    batches_view(reply@),
                    stream_key@,
                )));
            }
        } else {
            proof {
                assert(Seq::<RawEntryV>::empty() + spec_entries_for_stream(
                    batches_view(reply@),
                    stream_key@,
                ) =~= spec_entries_for_stream(batches_view(reply@), stream_key@));
            }
        }
    }
    proof {
        assert(batches_view(reply@) =~= Seq::<StreamBatchV>::empty());
        assert(entries_view(out@) + Seq::<RawEntryV>::empty() =~= entries_view(out@));
    }
    out
}

/// A domain event that can be decoded from a raw log entry's field map.
pub trait FromRedis: View + Sized {
    /// What decoding an entry's field map into this event yields.
    spec fn spec_from_entry(fields: Seq<EntryFieldV>) -> Option<Self::V>;

    /// Decode an entry's field map into one event.
    fn from_entry(fields: &Vec<EntryField>) -> (r: Option<Self>)
        ensures
            r is Some <==> Self::spec_from_entry(entry_fields_view(fields@)) is Some,
            (r matches Some(e) ==> Self::spec_from_entry(entry_fields_view(fields@)) == Some(
                e@,
            )),
    ;
}

/// What one processed batch produced: the events decoded before any failure,
/// and the ID of the entry that failed to decode, if one did.
pub struct BatchOutcome<E> {
    pub events: Vec<E>,
    pub failed: Option<String>,
}

/// The per-channel consumer state: the last log position handled, and whether
/// a decode failure has stopped this channel for good.
pub struct StreamConsumer {
    pub last_id: String,
    pub stopped: bool,
}

/// Durable key under which one channel's cursor is kept, namespaced so it
/// cannot collide with unrelated keys.
pub fn cursor_key(stream_key: &str) -> (r: String)
    ensures
        r@ == "events_api_websocket_last_id_"@ + stream_key@,
{
    let mut k: String = "events_api_websocket_last_id_".to_owned();
    k.append(stream_key);
    k
}

impl StreamConsumer {
    /// Start a consumer from the persisted cursor, or from "next new entry"
    /// (`$`) when none was persisted.
    pub fn start(persisted: Option<String>) -> (c: Self)
        ensures
            c.last_id@ == (match persisted {
                Some(s) => s@,
                None => "$"@,
            }),
            !c.stopped,
    {
        match persisted {
            Some(s) => StreamConsumer { last_id: s, stopped: false },
            None => StreamConsumer { last_id: "$".to_owned(), stopped: false },
        }
    }

    /// The position the next read request hands to the log store; the store
    /// returns entries strictly after it.
    pub fn next_request_after(&self) -> (r: &String)
        ensures
            r@ == self.last_id@,
    {
        &self.last_id
    }

    /// The cursor value to persist after a batch whose entries all decoded.
    pub fn cursor_to_persist(&self) -> (r: &String)
        ensures
            r@ == self.last_id@,
    {
        &self.last_id
    }

    /// Process one batch of entries in log order: decode each into an event;
    /// on the first decode failure stop this channel for good and report the
    /// offending entry's ID. The cursor moves to the last decoded entry and
    /// never rewinds past it.
    pub fn process_batch<E: FromRedis>(&mut self, entries: &Vec<RawEntry>) -> (out: BatchOutcome<
        E,
    >)
        requires
            !old(self).stopped,
        ensures
            out.events@.len() <= entries@.len(),
            forall|k: int|
                0 <= k < out.events@.len() ==> E::spec_from_entry(entries@[k]@.fields) == Some(
                    (#[trigger] out.events@[k])@,
                ),
            (match out.failed {
                Some(id) => out.events@.len() < entries@.len() && E::spec_from_entry(
                    entries@[out.events@.len() as int]@.fields,
                ) is None && id@ == entries@[out.events@.len() as int]@.id,
                None => out.events@.len() == entries@.len(),
            }),
            final(self).stopped == (out.failed is Some),
            final(self).last_id@ == (if out.events@.len() > 0 {
                entries@[out.events@.len() - 1]@.id
            } else {
                old(self).last_id@
            }),
    {
        let mut events: Vec<E> = Vec::new();
        let mut i: usize = 0;
        while i < entries.len()
            invariant
                0 <= i <= entries@.len(),
                events@.len() == i,
                forall|k: int|
                    0 <= k < i ==> E::spec_from_entry(entries@[k]@.fields) == Some(
                        (#[trigger] events@[k])@,
                    ),
                !self.stopped,
                self.last_id@ == (if i > 0 {
                    entries@[i - 1]@.id
                } else {
                    old(self).last_id@
                }),
            decreases entries@.len() - i,
        {
            let entry = &entries[i];
            match E::from_entry(&entry.fields) {
                Some(e) => {
                    events.push(e);
                    self.last_id = entry.id.clone();
                },
                None => {
                    self.stopped = true;
                    let failed_id = entry.id.clone();
                    return BatchOutcome { events, failed: Some(failed_id) };
                },
            }
            i += 1;
        }
        BatchOutcome { events, failed: None }
    }
}

} // verus!
