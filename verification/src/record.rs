use vstd::prelude::*;
use crate::error::StoreError;
use crate::identity::{Identity, is_account_id};

verus! {

/// What a record is: four texts. Date, description and hash are opaque;
/// the mechanic is the name of an account.
pub struct RecordView {
    pub date: Seq<char>,
    pub description: Seq<char>,
    pub mechanic_id: Seq<char>,
    pub hash: Seq<char>,
}

/// One maintenance event. Once appended to a history it is never changed.
/// Date and hash are kept as they were given: neither is checked for its
/// format.
#[derive(Debug)]
pub struct MaintenanceRecord {
    pub date: String,
    pub description: String,
    pub mechanic_id: Identity,
    pub hash: String,
}

impl View for MaintenanceRecord {
    type V = RecordView;

    open spec fn view(&self) -> RecordView {
        RecordView {
            date: self.date@,
            description: self.description@,
            mechanic_id: self.mechanic_id@,
            hash: self.hash@,
        }
    }
}

impl Clone for MaintenanceRecord {
    fn clone(&self) -> (out: Self)
        ensures
            out@ == self@,
    {
        MaintenanceRecord {
            date: self.date.clone(),
            description: self.description.clone(),
            mechanic_id: self.mechanic_id.clone(),
            hash: self.hash.clone(),
        }
    }
}

impl PartialEq for MaintenanceRecord {
    fn eq(&self, other: &Self) -> (same: bool) {
        self.date == other.date && self.description == other.description
            && self.mechanic_id == other.mechanic_id && self.hash == other.hash
    }
}

impl vstd::std_specs::cmp::PartialEqSpecImpl for MaintenanceRecord {
    open spec fn obeys_eq_spec() -> bool {
        true
    }

    open spec fn eq_spec(&self, other: &Self) -> bool {
        self.date@ == other.date@ && self.description@ == other.description@
            && self.mechanic_id@ == other.mechanic_id@ && self.hash@ == other.hash@
    }
}

/// The views of a run of records, in the same order.
pub open spec fn records_view(records: Seq<MaintenanceRecord>) -> Seq<RecordView> {
    Seq::new(records.len(), |i: int| records[i]@)
}

/// A serialized record: named text fields, in order.
pub type WireFields = Seq<(Seq<char>, Seq<char>)>;

/// The views of a run of named fields.
pub open spec fn fields_view(fields: Seq<(String, String)>) -> WireFields {
    Seq::new(fields.len(), |i: int| (fields[i].0@, fields[i].1@))
}

/// The wire shape of a record: `date`, `description`, `mechanic_id`, `hash`,
/// under these names and in this order.
pub open spec fn encode(r: RecordView) -> WireFields {
    seq![
        ("date"@, r.date),
        ("description"@, r.description),
        ("mechanic_id"@, r.mechanic_id),
        ("hash"@, r.hash),
    ]
}

/// Whether `fields` has the wire shape of a record: the four names in
/// their order, and under `mechanic_id` the name of an account.
pub open spec fn well_shaped(fields: WireFields) -> bool {
    &&& fields.len() == 4
    &&& fields[0].0 == "date"@
    &&& fields[1].0 == "description"@
    &&& fields[2].0 == "mechanic_id"@
    &&& fields[3].0 == "hash"@
    &&& is_account_id(fields[2].1)
}

/// The record that `fields` stands for, if it has the wire shape.
pub open spec fn decode(fields: WireFields) -> Option<RecordView> {
    if well_shaped(fields) {
        Some(
            RecordView {
                date: fields[0].1,
                description: fields[1].1,
                mechanic_id: fields[2].1,
                hash: fields[3].1,
            },
        )
    } else {
        None
    }
}

/// Decoding an encoded record gives the record back, equal in all four
/// fields.
pub proof fn lemma_decode_encode(r: RecordView)
    requires
        is_account_id(r.mechanic_id),
    ensures
        decode(encode(r)) == Some(r),
{
}

/// The encoding of a record is the only wire form that decodes to it.
pub proof fn lemma_encode_decode(fields: WireFields)
    requires
        decode(fields) is Some,
    ensures
        encode(decode(fields).unwrap()) == fields,
{
    assert(encode(decode(fields).unwrap()) =~= fields);
}

impl MaintenanceRecord {
    /// A record of the given date, description, mechanic and hash, each
    /// taken as it is.
    pub fn new(date: String, description: String, mechanic_id: Identity, hash: String) -> (out:
        Self)
        ensures
            out@ == (RecordView {
                date: date@,
                description: description@,
                mechanic_id: mechanic_id@,
                hash: hash@,
            }),
    {
        MaintenanceRecord { date, description, mechanic_id, hash }
    }

    /// The record in its wire shape.
    pub fn to_fields(&self) -> (out: Vec<(String, String)>)
        ensures
            fields_view(out@) == encode(self@),
            decode(fields_view(out@)) == Some(self@),
    {
        let mechanic: String = self.mechanic_id.as_str().to_owned();
        let mut out: Vec<(String, String)> = Vec::new();
        out.push(("date".to_owned(), self.date.clone()));
        out.push(("description".to_owned(), self.description.clone()));
        out.push(("mechanic_id".to_owned(), mechanic));
        out.push(("hash".to_owned(), self.hash.clone()));
        assert(fields_view(out@) =~= encode(self@));
        out
    }

    /// Reads a record from its wire shape; any other shape is rejected with
    /// `MalformedInput`.
    pub fn from_fields(fields: &Vec<(String, String)>) -> (out: Result<Self, StoreError>)
        ensures
            match out {
                Ok(r) => decode(fields_view(fields@)) == Some(r@),
                Err(e) => e == StoreError::MalformedInput && decode(fields_view(fields@)) is None,
            },
    {
        if fields.len() != 4 {
            return Err(StoreError::MalformedInput);
        }
        if !text_is(&fields[0].0, "date") || !text_is(&fields[1].0, "description")
            || !text_is(&fields[2].0, "mechanic_id") || !text_is(&fields[3].0, "hash") {
            return Err(StoreError::MalformedInput);
        }
        match Identity::parse(fields[2].1.as_str()) {
            Ok(mechanic_id) => Ok(
                MaintenanceRecord {
                    date: fields[0].1.clone(),
                    description: fields[1].1.clone(),
                    mechanic_id,
                    hash: fields[3].1.clone(),
                },
            ),
            Err(e) => Err(e),
        }
    }
}

/// Whether `text` reads exactly as `name`, character by character.
fn text_is(text: &String, name: &str) -> (same: bool)
    ensures
        same == (text@ == name@),
{
    let owned: String = name.to_owned();
    *text == owned
}

} // verus!
