use vstd::prelude::*;
use vstd::hash_map::StringHashMap;
use crate::record::{MaintenanceRecord, RecordView, records_view};

verus! {

/// What a store holds: for each key that was appended to, its records in
/// the order in which they came.
pub type Histories = Map<Seq<char>, Seq<RecordView>>;

/// One append, as a value: the key and the record.
pub type Entry = (Seq<char>, RecordView);

/// The records under `key`; a key that was never appended to has none.
pub open spec fn history(m: Histories, key: Seq<char>) -> Seq<RecordView> {
    if m.contains_key(key) {
        m[key]
    } else {
        Seq::empty()
    }
}

/// The store after `record` was appended under `key`: that key's history is
/// one longer, every other key is as it was.
pub open spec fn appended(m: Histories, key: Seq<char>, record: RecordView) -> Histories {
    m.insert(key, history(m, key).push(record))
}

/// The store after the appends of `log`, first to last, starting from `m`.
pub open spec fn replay(m: Histories, log: Seq<Entry>) -> Histories
    decreases log.len(),
{
    if log.len() == 0 {
        m
    } else {
        appended(replay(m, log.drop_last()), log.last().0, log.last().1)
    }
}

/// The records that `log` appends under `key`, in the order of `log`.
pub open spec fn appended_under(log: Seq<Entry>, key: Seq<char>) -> Seq<RecordView>
    decreases log.len(),
{
    if log.len() == 0 {
        Seq::empty()
    } else if log.last().0 == key {
        appended_under(log.drop_last(), key).push(log.last().1)
    } else {
        appended_under(log.drop_last(), key)
    }
}

/// The log that appends each of `records` under the one `key`, in order.
pub open spec fn same_key_log(key: Seq<char>, records: Seq<RecordView>) -> Seq<Entry> {
    Seq::new(records.len(), |i: int| (key, records[i]))
}

/// A mapping from key to an ordered, growable history of records. Records
/// are only ever added, at the end; none is removed or changed.
pub struct RecordStore {
    histories: StringHashMap<Vec<MaintenanceRecord>>,
}

impl View for RecordStore {
    type V = Histories;

    closed spec fn view(&self) -> Histories {
        Map::new(
            |k: Seq<char>| self.histories@.contains_key(k),
            |k: Seq<char>| records_view(self.histories@[k]@),
        )
    }
}

/// A copy of `records`, record by record.
fn copy_records(records: &Vec<MaintenanceRecord>) -> (out: Vec<MaintenanceRecord>)
    ensures
        records_view(out@) == records_view(records@),
{
    let mut out: Vec<MaintenanceRecord> = Vec::new();
    let mut i: usize = 0;
    while i < records.len()
        invariant
            i <= records.len(),
            out@.len() == i,
            forall|j: int| 0 <= j < i ==> out@[j]@ == records@[j]@,
        decreases records.len() - i,
    {
        out.push(records[i].clone());
        i += 1;
    }
    assert(records_view(out@) =~= records_view(records@));
    out
}

impl RecordStore {
    /// A store in which no key has a history.
    pub fn new() -> (out: Self)
        ensures
            out@ == Map::<Seq<char>, Seq<RecordView>>::empty(),
    {
        let out = RecordStore { histories: StringHashMap::new() };
        assert(out@ =~= Map::<Seq<char>, Seq<RecordView>>::empty());
        out
    }

    /// Puts `record` at the end of the history of `key`, which starts empty
    /// where the key is new. The history is read, extended and stored back
    /// whole; a lookup that follows sees the record.
    pub fn append(&mut self, key: String, record: MaintenanceRecord)
        ensures
            final(self)@ == appended(old(self)@, key@, record@),
    {
        let mut records: Vec<MaintenanceRecord> = match self.histories.get(key.as_str()) {
            Some(stored) => copy_records(stored),
            None => Vec::new(),
        };
        let ghost before = records_view(records@);
        assert(before =~= history(old(self)@, key@));
        records.push(record);
        assert(records_view(records@) =~= before.push(record@));
        let ghost k = key@;
        self.histories.insert(key, records);
        assert(self@ =~= appended(old(self)@, k, record@));
    }

    /// The history of `key` as it stands, every record appended so far in
    /// the order of the appends, or `None` where the key was never
    /// appended to. The store is not changed.
    pub fn lookup(&self, key: &str) -> (out: Option<Vec<MaintenanceRecord>>)
        ensures
            match out {
                Some(records) => self@.contains_key(key@) && records_view(records@) == self@[key@],
                None => !self@.contains_key(key@),
            },
    {
        match self.histories.get(key) {
            Some(stored) => Some(copy_records(stored)),
            None => None,
        }
    }
}

/// A key that no append of the log names has no history after it: a lookup
/// of it answers `None`.
pub proof fn lemma_unseen_key_absent(log: Seq<Entry>, key: Seq<char>)
    requires
        forall|i: int| 0 <= i < log.len() ==> log[i].0 != key,
    ensures
        !replay(Map::empty(), log).contains_key(key),
    decreases log.len(),
{
    if log.len() > 0 {
        lemma_unseen_key_absent(log.drop_last(), key);
    }
}

/// After any run of appends to a fresh store, a key has a history exactly
/// if some append named it, and the history holds what was appended under
/// that key, in the order of the appends.
pub proof fn lemma_replay_history(log: Seq<Entry>, key: Seq<char>)
    ensures
        history(replay(Map::empty(), log), key) == appended_under(log, key),
        replay(Map::empty(), log).contains_key(key) <==> exists|i: int|
            0 <= i < log.len() && log[i].0 == key,
        replay(Map::empty(), log).contains_key(key) <==> appended_under(log, key).len() > 0,
    decreases log.len(),
{
    if log.len() > 0 {
        let rest = log.drop_last();
        lemma_replay_history(rest, key);
        if log.last().0 == key {
            assert(log[log.len() - 1].0 == key);
        } else if replay(Map::empty(), rest).contains_key(key) {
            let i = choose|i: int| 0 <= i < rest.len() && rest[i].0 == key;
            assert(log[i].0 == key);
        } else {
            assert forall|i: int| 0 <= i < log.len() implies log[i].0 != key by {
                if i < rest.len() {
                    assert(rest[i].0 == log[i].0);
                }
            }
        }
    }
}

/// Appending `r1, r2, …, rn` under one key of a fresh store leaves under
/// that key exactly `[r1, r2, …, rn]`: the same records, the same order,
/// the same length.
pub proof fn lemma_appends_in_order(key: Seq<char>, records: Seq<RecordView>)
    ensures
        history(replay(Map::empty(), same_key_log(key, records)), key) == records,
        records.len() > 0 ==> replay(Map::empty(), same_key_log(key, records)).contains_key(key)
            && replay(Map::empty(), same_key_log(key, records))[key] == records,
    decreases records.len(),
{
    let log = same_key_log(key, records);
    if records.len() > 0 {
        lemma_appends_in_order(key, records.drop_last());
        assert(log.drop_last() =~= same_key_log(key, records.drop_last()));
        assert(records.drop_last().push(records.last()) =~= records);
    } else {
        assert(history(replay(Map::empty(), log), key) =~= records);
    }
}

/// An append under one key leaves every other key as it was: present or
/// absent as before, with the same history.
pub proof fn lemma_append_keeps_other_keys(
    m: Histories,
    key: Seq<char>,
    record: RecordView,
    other: Seq<char>,
)
    requires
        other != key,
    ensures
        appended(m, key, record).contains_key(other) == m.contains_key(other),
        history(appended(m, key, record), other) == history(m, other),
{
}

/// An append only adds: the key's earlier records stay where they were,
/// unchanged, and the new one stands last.
pub proof fn lemma_append_extends(m: Histories, key: Seq<char>, record: RecordView)
    ensures
        appended(m, key, record).contains_key(key),
        appended(m, key, record)[key].len() == history(m, key).len() + 1,
        appended(m, key, record)[key].last() == record,
        forall|i: int|
            0 <= i < history(m, key).len() ==> appended(m, key, record)[key][i] == history(
                m,
                key,
            )[i],
{
}

} // verus!
