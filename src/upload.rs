use vstd::prelude::*;
use vstd::string::StringExecFns;
use crate::error::CoreError;
use crate::event::ObjectRecord;
use crate::key::{derive_key, derived_key};

verus! {

/// Where a compressed object is stored.
pub struct DestinationTarget {
    bucket: String,
    key: String,
}

impl DestinationTarget {
    pub closed spec fn bucket(&self) -> Seq<char> {
        self.bucket@
    }

    pub closed spec fn key(&self) -> Seq<char> {
        self.key@
    }

    pub fn bucket_name(&self) -> (r: &str)
        ensures
            r@ == self.bucket(),
    {
        self.bucket.as_str()
    }

    pub fn object_key(&self) -> (r: &str)
        ensures
            r@ == self.key(),
    {
        self.key.as_str()
    }
}

/// A configured destination bucket is usable when it is present and not empty.
pub open spec fn bucket_configured(dest: Option<Seq<char>>) -> bool {
    dest matches Some(b) && b.len() > 0
}

pub open spec fn option_view(o: Option<String>) -> Option<Seq<char>> {
    match o {
        Some(s) => Some(s@),
        None => None,
    }
}

/// Resolves where the record's compressed object goes: the configured bucket,
/// under the key derived from the record's key. Fails with a configuration
/// error, before anything is sent, when no usable bucket is configured.
pub fn resolve_target(dest_bucket: &Option<String>, record: &ObjectRecord) -> (r: Result<
    DestinationTarget,
    CoreError,
>)
    ensures
        r is Ok <==> bucket_configured(option_view(*dest_bucket)),
        r matches Err(e) ==> e is Config,
        r matches Ok(t) ==> option_view(*dest_bucket) == Some(t.bucket()) && t.key()
            == derived_key(record.key()),
{
    let bucket = match dest_bucket {
        Some(b) => b,
        None => {
            return Err(CoreError::Config(String::from_str("destination bucket is not configured")));
        },
    };
    if bucket.as_str().is_empty() {
        return Err(CoreError::Config(String::from_str("destination bucket name is empty")));
    }
    let key = match derive_key(record.source_key()) {
        Some(k) => k,
        None => {
            return Err(CoreError::Config(String::from_str("object key is empty")));
        },
    };
    Ok(DestinationTarget { bucket: bucket.clone(), key })
}

/// A compressed payload ready to be stored in one put.
pub struct UploadOrder {
    pub target: DestinationTarget,
    pub payload: Vec<u8>,
}

} // verus!
