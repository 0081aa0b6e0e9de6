use std::sync::Arc;
use vstd::prelude::*;
use webrtc::peer_connection::RTCPeerConnection;
use webrtc::track::track_local::track_local_static_rtp::TrackLocalStaticRTP;

use crate::media::media_resources::MediaResources;

verus! {

/// The peer connection type of `webrtc`, carried through opaquely.
#[verifier::external_type_specification]
#[verifier::external_body]
pub struct ExRTCPeerConnection(RTCPeerConnection);

/// A viewer of a publisher: its peer connection and the local video track
/// that frames are written to.
pub struct PeerObserver {
    pub peer_connection: Arc<RTCPeerConnection>,
    pub video_track: Arc<TrackLocalStaticRTP>,
}

impl PeerObserver {
    /// An observer over `peer_connection` that writes to `video_track`.
    pub fn new(peer_connection: Arc<RTCPeerConnection>, video_track: Arc<TrackLocalStaticRTP>) -> (observer: PeerObserver)
        ensures
            observer.peer_connection == peer_connection,
            observer.video_track == video_track,
    {
        PeerObserver { peer_connection, video_track }
    }
}

/// A publisher and the observers its frames go to.
pub struct MediaPublisher {
    observers: Vec<PeerObserver>,
}

impl MediaPublisher {
    /// The observers of this publisher, in the order they joined.
    pub closed spec fn observers(&self) -> Seq<PeerObserver> {
        self.observers@
    }

    /// A publisher that nobody observes yet.
    pub fn new() -> (publisher: MediaPublisher)
        ensures
            publisher.observers() == Seq::<PeerObserver>::empty(),
    {
        MediaPublisher { observers: Vec::new() }
    }

}

/// The publishers of the server, each under the id of its endpoint.
pub struct MediaEndpoints<P> {
    pub media_endpoints: MediaResources<P>,
}

impl<P> MediaEndpoints<P> {
    /// No endpoint published yet.
    pub fn new() -> (endpoints: Self)
        ensures
            endpoints.media_endpoints@ == Map::<Seq<char>, P>::empty(),
    {
        MediaEndpoints { media_endpoints: MediaResources::new() }
    }
}

} // verus!
