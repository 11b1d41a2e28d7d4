//! The history of transcriptions: most recent first, and bounded.

use vstd::prelude::*;
use vstd::string::*;

use crate::text::{copy_text, text_model};

verus! {

/// The number of records that the history keeps.
pub const HISTORY_LIMIT: usize = 100;

/// A single transcription.
#[derive(Debug, PartialEq, Eq)]
pub struct TranscriptionRecord {
    pub id: String,
    pub text: String,
    /// Milliseconds since the Unix epoch.
    pub timestamp: i64,
    pub duration_ms: Option<u64>,
    pub model: Option<String>,
}

/// Model of a [`TranscriptionRecord`].
pub struct RecordModel {
    pub id: Seq<char>,
    pub text: Seq<char>,
    pub timestamp: i64,
    pub duration_ms: Option<u64>,
    pub model: Option<Seq<char>>,
}

impl View for TranscriptionRecord {
    type V = RecordModel;

    open spec fn view(&self) -> RecordModel {
        RecordModel {
            id: self.id@,
            text: self.text@,
            timestamp: self.timestamp,
            duration_ms: self.duration_ms,
            model: text_model(self.model),
        }
    }
}

impl Clone for TranscriptionRecord {
    fn clone(&self) -> (copy: Self)
        ensures
            copy@ == self@,
    {
        TranscriptionRecord {
            id: self.id.clone(),
            text: self.text.clone(),
            timestamp: self.timestamp,
            duration_ms: self.duration_ms,
            model: copy_text(&self.model),
        }
    }
}

/// Models of a list of records, in order.
pub open spec fn record_models(records: Seq<TranscriptionRecord>) -> Seq<RecordModel> {
    records.map_values(|r: TranscriptionRecord| r@)
}

/// The first `limit` of `records`, or all of them where there are fewer.
pub open spec fn capped(records: Seq<RecordModel>, limit: int) -> Seq<RecordModel> {
    if records.len() > limit {
        records.take(limit)
    } else {
        records
    }
}

/// The history after `record` was added: the record first, then what was
/// there, cut to the limit.
pub open spec fn with_record(records: Seq<RecordModel>, record: RecordModel) -> Seq<RecordModel> {
    capped(seq![record] + records, HISTORY_LIMIT as int)
}

/// The first `n` of `records` without those whose id is `id`, in order.
pub open spec fn without_id(records: Seq<RecordModel>, id: Seq<char>, n: nat) -> Seq<RecordModel>
    decreases n,
{
    if n == 0 {
        Seq::empty()
    } else if records[n - 1].id == id {
        without_id(records, id, (n - 1) as nat)
    } else {
        without_id(records, id, (n - 1) as nat).push(records[n - 1])
    }
}

/// The stored history.
#[derive(Debug)]
pub struct HistoryStorage {
    pub records: Vec<TranscriptionRecord>,
}

impl View for HistoryStorage {
    type V = Seq<RecordModel>;

    open spec fn view(&self) -> Seq<RecordModel> {
        record_models(self.records@)
    }
}

impl Default for HistoryStorage {
    fn default() -> (storage: Self)
        ensures
            storage@ == Seq::<RecordModel>::empty(),
    {
        let storage = HistoryStorage { records: Vec::new() };
        assert(storage@ =~= Seq::<RecordModel>::empty());
        storage
    }
}

impl HistoryStorage {
    /// Adds `record` at the front and drops what goes beyond the limit.
    pub fn add(&mut self, record: TranscriptionRecord)
        ensures
            final(self)@ == with_record(old(self)@, record@),
    {
        let ghost before = self@;
        self.records.insert(0, record);
        assert(self@ =~= seq![record@] + before);
        if self.records.len() > HISTORY_LIMIT {
            self.records.truncate(HISTORY_LIMIT);
            assert(self@ =~= (seq![record@] + before).take(HISTORY_LIMIT as int));
        }
    }

    /// Drops every record whose id is `id`; the others keep their order.
    pub fn remove(&mut self, id: &String)
        ensures
            final(self)@ == without_id(old(self)@, id@, old(self)@.len()),
    {
        let ghost before = self@;
        let mut kept: Vec<TranscriptionRecord> = Vec::new();
        let mut i: usize = 0;
        assert(record_models(kept@) =~= without_id(before, id@, 0));
        while i < self.records.len()
            invariant
                i <= self.records.len(),
                before == record_models(self.records@),
                record_models(kept@) == without_id(before, id@, i as nat),
            decreases self.records.len() - i,
        {
            if !(self.records[i].id == *id) {
                let ghost so_far = record_models(kept@);
                kept.push(self.records[i].clone());
                assert(record_models(kept@) =~= so_far.push(before[i as int]));
            }
            i += 1;
        }
        self.records = kept;
    }

    /// Drops every record.
    pub fn clear(&mut self)
        ensures
            final(self)@ == Seq::<RecordModel>::empty(),
    {
        self.records.clear();
        assert(self@ =~= Seq::<RecordModel>::empty());
    }

    /// The number of records.
    pub fn len(&self) -> (n: usize)
        ensures
            n == self@.len(),
    {
        self.records.len()
    }
}

/// Calls `Uuid::new_v4` of the uuid crate and formats the result, which is a
/// random identifier in the hyphenated form: 36 characters. Nothing else
/// holds of every outcome. The call panics where the system gives no random
/// bytes.
#[verifier::external_body]
fn fresh_record_id() -> (id: String)
    ensures
        id@.len() == 36,
{
    uuid::Uuid::new_v4().to_string()
}

/// Calls `Utc::now` of the chrono crate and reads the result as milliseconds
/// since the Unix epoch. The result is the time of the call, of which
/// nothing is claimed. The call panics where the system clock stands before
/// the epoch.
#[verifier::external_body]
fn now_millis() -> (millis: i64) {
    chrono::Utc::now().timestamp_millis()
}

/// A record with the given parts.
pub fn make_record(id: String, timestamp: i64, text: String, duration_ms: Option<u64>, model: Option<String>) -> (record: TranscriptionRecord)
    ensures
        record@ == (RecordModel {
            id: id@,
            text: text@,
            timestamp: timestamp,
            duration_ms: duration_ms,
            model: text_model(model),
        }),
{
    TranscriptionRecord { id, text, timestamp, duration_ms, model }
}

/// Adds a transcription to the history, under a new random id and with the
/// present time, and returns the record that was added.
pub fn add_history(storage: &mut HistoryStorage, text: String, duration_ms: Option<u64>, model: Option<String>) -> (record: TranscriptionRecord)
    ensures
        record@.text == text@,
        record@.duration_ms == duration_ms,
        record@.model == text_model(model),
        record@.id.len() == 36,
        final(storage)@ == with_record(old(storage)@, record@),
{
    let record = make_record(fresh_record_id(), now_millis(), text, duration_ms, model);
    storage.add(record.clone());
    record
}

/// Drops the records with this id from the history.
pub fn delete_history_entry(storage: &mut HistoryStorage, id: String)
    ensures
        final(storage)@ == without_id(old(storage)@, id@, old(storage)@.len()),
{
    storage.remove(&id);
}

/// Empties the history.
pub fn clear_history(storage: &mut HistoryStorage)
    ensures
        final(storage)@ == Seq::<RecordModel>::empty(),
{
    storage.clear();
}

/// A copy of the history, most recent record first.
pub fn get_history(storage: &HistoryStorage) -> (records: Vec<TranscriptionRecord>)
    ensures
        record_models(records@) == storage@,
{
    let mut records: Vec<TranscriptionRecord> = Vec::new();
    let mut i: usize = 0;
    while i < storage.records.len()
        invariant
            i <= storage.records.len(),
            record_models(records@) =~= storage@.take(i as int),
        decreases storage.records.len() - i,
    {
        let ghost so_far = record_models(records@);
        records.push(storage.records[i].clone());
        assert(record_models(records@) =~= so_far.push(storage@[i as int]));
        i += 1;
    }
    assert(storage@.take(i as int) =~= storage@);
    records
}

/// After an addition the history holds no more than the limit, and the
/// record that was added stands first.
pub proof fn history_stays_bounded(records: Seq<RecordModel>, record: RecordModel)
    ensures
        with_record(records, record).len() <= HISTORY_LIMIT,
        with_record(records, record)[0] == record,
{
}

} // verus!
