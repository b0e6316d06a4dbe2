//! Storage-event object compressor: fetched objects are gzip-compressed in
//! bounded chunks and stored again under a derived key.

pub mod dispatch;
pub mod error;
pub mod event;
pub mod gzip;
pub mod key;
pub mod upload;
