use std::sync::Arc;
use vstd::prelude::*;
use webrtc::track::track_local::track_local_static_rtp::TrackLocalStaticRTP;

verus! {

/// The local RTP track of `webrtc`, carried through opaquely.
#[verifier::external_type_specification]
#[verifier::external_body]
pub struct ExTrackLocalStaticRTP(TrackLocalStaticRTP);

/// A viewer of a live stream: the local track that its frames are written to.
pub struct MediaObserver {
    pub track: Arc<TrackLocalStaticRTP>,
}

impl MediaObserver {
    /// An observer that writes to `track`.
    pub fn new(track: Arc<TrackLocalStaticRTP>) -> (observer: MediaObserver)
        ensures
            observer.track == track,
    {
        MediaObserver { track }
    }
}

} // verus!
