//! A small file-hosting toolkit: storage naming on the server, the mapping of
//! request failures to replies, the client's batch planning and URL resolution,
//! and the client's local record of uploads.
use vstd::prelude::*;

pub mod client;
pub mod ingest;
pub mod log;
pub mod naming;
pub mod record;
pub mod rejection;
pub mod timestamp;
pub mod wire;

verus! {

} // verus!
