use vstd::prelude::*;
use crate::error::CoreError;
use crate::event::{ChangeEvent, ObjectRecord};
use crate::key::derived_key;
use crate::upload::{bucket_configured, option_view, resolve_target, UploadOrder};

verus! {

/// What the caller does after a record's compression has been reported.
pub enum Next {
    /// Store the payload; whatever the put returns, go on with the next record.
    Upload(UploadOrder),
    /// The upload could not even be attempted; the error is to be logged and
    /// the next record processed.
    Skip(CoreError),
    /// Compression failed: the event stops here and no later record is touched.
    Stop,
}

/// Walks an event's records first to last. A compression failure ends the
/// event with that error; a failure on the upload path is contained.
pub struct Dispatcher {
    records: Vec<ObjectRecord>,
    pos: usize,
    failure: Option<CoreError>,
}

impl Dispatcher {
    /// The records of the event.
    pub closed spec fn records(&self) -> Seq<ObjectRecord> {
        self.records@
    }

    /// How many records have been dealt with.
    pub closed spec fn position(&self) -> nat {
        self.pos as nat
    }

    /// The compression failure that ended the event, if any.
    pub closed spec fn failure(&self) -> Option<CoreError> {
        self.failure
    }

    pub closed spec fn wf(&self) -> bool {
        &&& self.pos <= self.records@.len()
        &&& self.failure is Some ==> self.pos < self.records@.len()
    }

    /// Whether a record is still waiting to be compressed.
    pub open spec fn running(&self) -> bool {
        self.failure() is None && self.position() < self.records().len()
    }

    pub fn new(event: ChangeEvent) -> (r: Dispatcher)
        ensures
            r.wf(),
            r.records() == event@,
            r.position() == 0,
            r.failure() is None,
    {
        Dispatcher { records: event.into_records(), pos: 0, failure: None }
    }

    /// The record to fetch and compress next, if the event is still running.
    pub fn pending(&self) -> (r: Option<&ObjectRecord>)
        requires
            self.wf(),
        ensures
            r is Some <==> self.running(),
            r matches Some(rec) ==> *rec == self.records()[self.position() as int],
    {
        if self.failure.is_none() && self.pos < self.records.len() {
            Some(&self.records[self.pos])
        } else {
            None
        }
    }

    /// Takes the outcome of compressing the pending record. A failure stops
    /// the event; a payload becomes an upload order for the configured
    /// bucket, or, without a usable bucket, a contained configuration error.
    pub fn on_compressed(&mut self, compressed: Result<Vec<u8>, CoreError>, dest_bucket: &Option<String>) -> (r: Next)
        requires
            old(self).wf(),
            old(self).running(),
        ensures
            final(self).wf(),
            final(self).records() == old(self).records(),
            compressed is Err ==> {
                &&& r is Stop
                &&& final(self).position() == old(self).position()
                &&& final(self).failure() == compressed.err()
                &&& !final(self).running()
            },
            compressed matches Ok(payload) ==> {
                &&& final(self).position() == old(self).position() + 1
                &&& final(self).failure() is None
                &&& (bucket_configured(option_view(*dest_bucket)) <==> r is Upload)
                &&& (r matches Next::Skip(e) ==> e is Config)
                &&& (r matches Next::Upload(order) ==> {
                    &&& order.payload@ == payload@
                    &&& option_view(*dest_bucket) == Some(order.target.bucket())
                    &&& order.target.key() == derived_key(
                        old(self).records()[old(self).position() as int].key(),
                    )
                })
                &&& !(r is Stop)
            },
    {
        match compressed {
            Err(e) => {
                self.failure = Some(e);
                Next::Stop
            },
            Ok(payload) => {
                // The position stays below the length, itself a `usize`.
                let n: usize = self.records.len();
                assert(self.pos < n);
                let target = resolve_target(dest_bucket, &self.records[self.pos]);
                self.pos = self.pos + 1;
                match target {
                    Ok(t) => Next::Upload(UploadOrder { target: t, payload }),
                    Err(e) => Next::Skip(e),
                }
            },
        }
    }

    /// The outcome of the event: the compression failure that stopped it, or
    /// success. Upload failures never reach this result.
    pub fn finish(self) -> (r: Result<(), CoreError>)
        requires
            self.wf(),
        ensures
            r is Ok <==> self.failure() is None,
            r matches Err(e) ==> self.failure() == Some(e),
    {
        match self.failure {
            Some(e) => Err(e),
            None => Ok(()),
        }
    }
}

} // verus!
