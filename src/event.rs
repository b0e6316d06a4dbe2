use vstd::prelude::*;
use vstd::string::StringExecFns;
use crate::error::CoreError;

verus! {

/// One object named by a change notification. Its key is never empty.
pub struct ObjectRecord {
    source_bucket: String,
    source_key: String,
}

impl ObjectRecord {
    #[verifier::type_invariant]
    spec fn key_present(&self) -> bool {
        self.source_key@.len() > 0
    }

    pub closed spec fn bucket(&self) -> Seq<char> {
        self.source_bucket@
    }

    pub closed spec fn key(&self) -> Seq<char> {
        self.source_key@
    }

    /// Builds a record; an empty key makes the notification malformed.
    pub fn new(bucket: String, key: String) -> (r: Result<ObjectRecord, CoreError>)
        ensures
            key@.len() == 0 <==> r is Err,
            r matches Err(e) ==> e is Deserialization,
            r matches Ok(rec) ==> rec.bucket() == bucket@ && rec.key() == key@,
    {
        if key.as_str().is_empty() {
            Err(CoreError::Deserialization(String::from_str("object key is empty")))
        } else {
            Ok(ObjectRecord { source_bucket: bucket, source_key: key })
        }
    }

    pub fn source_bucket(&self) -> (r: &str)
        ensures
            r@ == self.bucket(),
    {
        self.source_bucket.as_str()
    }

    pub fn source_key(&self) -> (r: &str)
        ensures
            r@ == self.key(),
            r@.len() > 0,
    {
        proof {
            use_type_invariant(self);
        }
        self.source_key.as_str()
    }
}

/// A change notification: its records, processed first to last.
pub struct ChangeEvent {
    records: Vec<ObjectRecord>,
}

impl View for ChangeEvent {
    type V = Seq<ObjectRecord>;

    closed spec fn view(&self) -> Seq<ObjectRecord> {
        self.records@
    }
}

impl ChangeEvent {
    pub fn new(records: Vec<ObjectRecord>) -> (r: ChangeEvent)
        ensures
            r@ == records@,
    {
        ChangeEvent { records }
    }

    pub fn len(&self) -> (r: usize)
        ensures
            r == self@.len(),
    {
        self.records.len()
    }

    pub fn records(&self) -> (r: &Vec<ObjectRecord>)
        ensures
            r@ == self@,
    {
        &self.records
    }

    pub fn into_records(self) -> (r: Vec<ObjectRecord>)
        ensures
            r@ == self@,
    {
        self.records
    }
}

} // verus!
