use vstd::prelude::*;
use crate::error::StoreError;
use crate::identity::Identity;
use crate::record::{MaintenanceRecord, RecordView, decode, fields_view, records_view};
use crate::store::{Entry, Histories, RecordStore, appended, replay};

verus! {

/// What a surface is: its owner, once it has one, and the histories of its
/// store.
pub struct SurfaceView {
    pub owner: Option<Seq<char>>,
    pub histories: Histories,
}

/// A call that changes a surface, as a value.
pub enum Call {
    Initialize { owner: Seq<char> },
    AddRecord { key: Seq<char>, record: RecordView },
}

/// The surface before anything was called: no owner, no history.
pub open spec fn uninitialized() -> SurfaceView {
    SurfaceView { owner: None, histories: Map::empty() }
}

/// The surface after `initialize(owner)`: bound to `owner` with an empty
/// store where it had no owner, else as it was.
pub open spec fn after_initialize(s: SurfaceView, owner: Seq<char>) -> SurfaceView {
    if s.owner is Some {
        s
    } else {
        SurfaceView { owner: Some(owner), histories: Map::empty() }
    }
}

/// What `initialize` answers on `s`.
pub open spec fn initialize_outcome(s: SurfaceView) -> Result<(), StoreError> {
    if s.owner is Some {
        Err(StoreError::DoubleInitialization)
    } else {
        Ok(())
    }
}

/// The surface after `add_record`: the same owner, the record appended.
pub open spec fn after_add_record(s: SurfaceView, key: Seq<char>, record: RecordView)
    -> SurfaceView {
    SurfaceView { owner: s.owner, histories: appended(s.histories, key, record) }
}

/// The surface after one call. A record offered to a surface without an
/// owner is turned away and changes nothing.
pub open spec fn step(s: SurfaceView, call: Call) -> SurfaceView {
    match call {
        Call::Initialize { owner } => after_initialize(s, owner),
        Call::AddRecord { key, record } => if s.owner is Some {
            after_add_record(s, key, record)
        } else {
            s
        },
    }
}

/// The surface after `calls`, first to last, starting from `s`.
pub open spec fn run(s: SurfaceView, calls: Seq<Call>) -> SurfaceView
    decreases calls.len(),
{
    if calls.len() == 0 {
        s
    } else {
        step(run(s, calls.drop_last()), calls.last())
    }
}

/// The appends among `calls`, in their order.
pub open spec fn appends_of(calls: Seq<Call>) -> Seq<Entry>
    decreases calls.len(),
{
    if calls.len() == 0 {
        Seq::empty()
    } else {
        match calls.last() {
            Call::AddRecord { key, record } => appends_of(calls.drop_last()).push((key, record)),
            Call::Initialize { .. } => appends_of(calls.drop_last()),
        }
    }
}

/// The store as the outside world sees it: initialised once, bound to an
/// owner from then on, open to anyone who adds or reads records.
pub struct ContractSurface {
    owner: Option<Identity>,
    store: RecordStore,
}

impl View for ContractSurface {
    type V = SurfaceView;

    closed spec fn view(&self) -> SurfaceView {
        SurfaceView {
            owner: match self.owner {
                Some(o) => Some(o@),
                None => None,
            },
            histories: self.store@,
        }
    }
}

impl ContractSurface {
    /// Whether `initialize` has succeeded on this surface.
    pub open spec fn initialized(&self) -> bool {
        self@.owner is Some
    }

    /// A surface on which nothing was called yet.
    pub fn new() -> (out: Self)
        ensures
            out@ == uninitialized(),
    {
        ContractSurface { owner: None, store: RecordStore::new() }
    }

    /// Whether the surface has an owner.
    pub fn is_initialized(&self) -> (out: bool)
        ensures
            out == self.initialized(),
    {
        self.owner.is_some()
    }

    /// Binds the surface to `owner`, with a fresh and empty store. It
    /// succeeds once: on a surface that has an owner it fails with
    /// `DoubleInitialization` and leaves owner and store as they were.
    pub fn initialize(&mut self, owner: Identity) -> (out: Result<(), StoreError>)
        ensures
            out == initialize_outcome(old(self)@),
            final(self)@ == after_initialize(old(self)@, owner@),
            out is Err ==> *final(self) == *old(self),
    {
        if self.owner.is_some() {
            return Err(StoreError::DoubleInitialization);
        }
        self.owner = Some(owner);
        self.store = RecordStore::new();
        Ok(())
    }

    /// Makes a record of the four values and appends it under `key`. Neither
    /// date nor hash is checked for its format, nobody is asked who calls,
    /// and a second call with the same arguments appends the record a
    /// second time.
    pub fn add_record(
        &mut self,
        key: String,
        date: String,
        description: String,
        mechanic_id: Identity,
        hash: String,
    )
        requires
            old(self).initialized(),
        ensures
            final(self)@ == after_add_record(
                old(self)@,
                key@,
                RecordView {
                    date: date@,
                    description: description@,
                    mechanic_id: mechanic_id@,
                    hash: hash@,
                },
            ),
    {
        let record = MaintenanceRecord::new(date, description, mechanic_id, hash);
        self.store.append(key, record);
    }

    /// Appends under `key` the record that `fields` stands for. Fields that
    /// do not have the wire shape of a record are rejected with
    /// `MalformedInput`, and then nothing is appended.
    pub fn add_serialized_record(&mut self, key: String, fields: &Vec<(String, String)>) -> (out:
        Result<(), StoreError>)
        requires
            old(self).initialized(),
        ensures
            match decode(fields_view(fields@)) {
                Some(record) => out == Ok::<(), StoreError>(()) && final(self)@ == after_add_record(
                    old(self)@,
                    key@,
                    record,
                ),
                None => out == Err::<(), StoreError>(StoreError::MalformedInput) && *final(self)
                    == *old(self),
            },
    {
        match MaintenanceRecord::from_fields(fields) {
            Ok(record) => {
                self.store.append(key, record);
                Ok(())
            },
            Err(e) => Err(e),
        }
    }

    /// The history of `key`: what the store's lookup answers.
    pub fn get_records(&self, key: &str) -> (out: Option<Vec<MaintenanceRecord>>)
        ensures
            match out {
                Some(records) => self@.histories.contains_key(key@) && records_view(records@)
                    == self@.histories[key@],
                None => !self@.histories.contains_key(key@),
            },
    {
        self.store.lookup(key)
    }

    /// The owner that `initialize` bound the surface to.
    pub fn get_owner(&self) -> (out: Identity)
        requires
            self.initialized(),
        ensures
            Some(out@) == self@.owner,
    {
        match &self.owner {
            Some(owner) => owner.clone(),
            None => vstd::pervasive::unreached(),
        }
    }
}

/// `initialize` succeeds at most once: whatever the first call was given,
/// a second one fails with `DoubleInitialization` and leaves the surface as
/// the first call left it.
pub proof fn lemma_initialize_once(s: SurfaceView, first: Seq<char>, second: Seq<char>)
    ensures
        initialize_outcome(after_initialize(s, first)) == Err::<(), StoreError>(
            StoreError::DoubleInitialization,
        ),
        after_initialize(after_initialize(s, first), second) == after_initialize(s, first),
{
}

/// On a surface that has an owner, `initialize` fails whatever calls came
/// in between, and changes nothing.
pub proof fn lemma_initialize_fails_ever_after(s: SurfaceView, calls: Seq<Call>, again: Seq<char>)
    requires
        s.owner is Some,
    ensures
        initialize_outcome(run(s, calls)) == Err::<(), StoreError>(
            StoreError::DoubleInitialization,
        ),
        after_initialize(run(s, calls), again) == run(s, calls),
{
    lemma_owner_is_kept(s, calls);
}

/// Once a surface has an owner, no run of calls gives it another or takes
/// the owner away.
pub proof fn lemma_owner_is_kept(s: SurfaceView, calls: Seq<Call>)
    requires
        s.owner is Some,
    ensures
        run(s, calls).owner == s.owner,
    decreases calls.len(),
{
    if calls.len() > 0 {
        lemma_owner_is_kept(s, calls.drop_last());
    }
}

/// On a surface that has an owner, a run of calls does to the histories
/// what its appends do to a store, in their order, and nothing else: no
/// call removes or rewrites a record, and a failed `initialize` in between
/// leaves no trace.
pub proof fn lemma_run_is_replay(s: SurfaceView, calls: Seq<Call>)
    requires
        s.owner is Some,
    ensures
        run(s, calls).histories == replay(s.histories, appends_of(calls)),
    decreases calls.len(),
{
    if calls.len() > 0 {
        let earlier = calls.drop_last();
        lemma_run_is_replay(s, earlier);
        lemma_owner_is_kept(s, earlier);
        match calls.last() {
            Call::AddRecord { key, record } => {
                let log = appends_of(earlier).push((key, record));
                assert(log.drop_last() =~= appends_of(earlier));
                assert(log.last() == (key, record));
            },
            Call::Initialize { .. } => {},
        }
    }
}

/// After `initialize(owner)` on a surface without an owner, the owner is
/// `owner`, and stays so through every run of calls that follows.
pub proof fn lemma_owner_after_initialize(s: SurfaceView, owner: Seq<char>, calls: Seq<Call>)
    requires
        s.owner is None,
    ensures
        run(after_initialize(s, owner), calls).owner == Some(owner),
{
    lemma_owner_is_kept(after_initialize(s, owner), calls);
}

} // verus!
