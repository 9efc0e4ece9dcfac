//! Upload endpoint: the server-side entry point that accepts raw bytes with
//! their extension and dimensions and delegates to a remote-object backend.
//! Listening on the wire, reading the capped request body and constructing
//! the backend is input and output and stays with the surrounding program;
//! the endpoint's decision — store the body under its digest-derived name
//! and answer with the derived link — stands here.
use crate::digest;
use crate::storage::{Disk, ObjectStore, S3Store, Storage, StorageResult};
use vstd::prelude::*;

verus! {

/// Store an uploaded body through a remote-object backend and return the
/// derived link, or the backend's error.
pub fn upload<D: Disk, O: ObjectStore>(
    store: &S3Store<D, O>,
    extension: String,
    w: u32,
    h: u32,
    data: &[u8],
) -> (r: StorageResult<String>)
    ensures
        r matches Ok(l) ==> l@ == store.link_of(digest::object_name(data@, extension@)),
{
    store.save(data, extension, w, h)
}

} // verus!
