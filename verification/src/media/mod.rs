pub mod live_media_stream;
pub mod media_endpoints;
pub mod media_observer;
pub mod media_resources;

pub use live_media_stream::LiveMediaStream;
pub use media_endpoints::{MediaEndpoints, MediaPublisher, PeerObserver};
pub use media_observer::MediaObserver;
pub use media_resources::MediaResources;
