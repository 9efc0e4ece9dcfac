//! Core of a screenshot sharing tool: a content-addressed, multi-backend
//! storage pipeline together with the interactive region-selection state
//! machine that decides which part of a capture is stored.
//!
//! The crate holds the logic alone: naming, link derivation, configuration
//! rules, the selector and the pipeline ordering. All input and output (the
//! frame source, the image codec on disk, the object store, the relay, the
//! clipboard and notifications) is reached through collaborator traits that
//! the surrounding program implements.
use vstd::prelude::*;

pub mod config;
pub mod digest;
pub mod img;
pub mod region;
pub mod server;
pub mod storage;

verus! {

use crate::img::{crop, crop_pixels, Capture};
use crate::region::Region;
use crate::storage::{
    Disk,
    Local,
    ObjectStore,
    RelayPost,
    S3Store,
    SampicServer,
    Storage,
    StorageResult,
};
use vstd::pervasive::unreached;
use vstd::slice::slice_to_vec;

/// Collaborator: consumes a link for side effects — the clipboard write and
/// the desktop notifications. Never on the critical path: whatever it does,
/// the pipeline's result is unchanged.
pub trait LinkSink {
    /// The link is known; it is valid before the durable save completes.
    fn on_link(&self, link: &String);

    /// The save attempt finished with the given outcome. A failure is
    /// reported here; the link stays valid either way.
    fn on_stored(&self, link: &String, saved: &StorageResult<String>);
}

/// The pixels a pipeline run stores: the capture cropped to the selected
/// region, or the full capture when the region is degenerate (nothing
/// selected).
pub open spec fn selected_pixels(c: &Capture, g: &Region) -> Seq<u8> {
    if g.is_degenerate_spec() {
        c.pixels@
    } else {
        crop_pixels(c, g)
    }
}

/// One pipeline run over a chosen backend: take the selected part of the
/// capture (the whole capture if the region is degenerate), derive its name
/// and link, surface the link to the sink before any durable write, then
/// attempt the save. The link is returned whether or not the save
/// succeeded: a failed upload is reported by the sink's second call but
/// does not invalidate the already-surfaced link.
pub fn sampic_screenshot<S: Storage, N: LinkSink>(
    storage: &S,
    sink: &N,
    capture: &Capture,
    region: &Region,
) -> (r: String)
    requires
        capture.wf(),
    ensures
        r@ == storage.link_of(digest::object_name(selected_pixels(capture, region), "png"@)),
{
    let shot: Capture = if region.is_degenerate() {
        Capture::new(slice_to_vec(capture.pixels.as_slice()), capture.width, capture.height)
    } else {
        crop(capture, region)
    };
    let extension = String::from_str("png");
    let name = digest::object_name_of(shot.pixels.as_slice(), extension.as_str());
    let link = match storage.link(&name) {
        Ok(l) => l,
        Err(_) => unreached(),
    };
    sink.on_link(&link);
    let saved = storage.save(shot.pixels.as_slice(), extension, shot.width, shot.height);
    sink.on_stored(&link, &saved);
    link
}

/// A pipeline run persisting through the local backend: the link is the
/// local filesystem path of the stored image.
pub fn local_screenshot<D: Disk, N: LinkSink>(
    storage: &Local<D>,
    sink: &N,
    capture: &Capture,
    region: &Region,
) -> (r: String)
    requires
        capture.wf(),
    ensures
        r@ == storage.link_of(digest::object_name(selected_pixels(capture, region), "png"@)),
{
    sampic_screenshot(storage, sink, capture, region)
}

/// A pipeline run persisting through the remote-object backend: the link
/// is the virtual-hosted-style bucket URL.
pub fn s3_screenshot<D: Disk, O: ObjectStore, N: LinkSink>(
    storage: &S3Store<D, O>,
    sink: &N,
    capture: &Capture,
    region: &Region,
) -> (r: String)
    requires
        capture.wf(),
    ensures
        r@ == storage.link_of(digest::object_name(selected_pixels(capture, region), "png"@)),
{
    sampic_screenshot(storage, sink, capture, region)
}

/// A pipeline run persisting through the relay backend: the link is
/// derived locally before the bytes travel to the relay.
pub fn upload_screenshot<D: Disk, O: ObjectStore, R: RelayPost, N: LinkSink>(
    storage: &SampicServer<D, O, R>,
    sink: &N,
    capture: &Capture,
    region: &Region,
) -> (r: String)
    requires
        capture.wf(),
    ensures
        r@ == storage.link_of(digest::object_name(selected_pixels(capture, region), "png"@)),
{
    sampic_screenshot(storage, sink, capture, region)
}

} // verus!
