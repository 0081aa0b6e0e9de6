use vstd::prelude::*;

verus! {

/// The media server: the handle of the RTSP client it drives.
pub struct MediaServer<C> {
    pub generic_rtsp_client: C,
}

impl<C> MediaServer<C> {
    /// Builds a media server around the given RTSP client.
    pub fn new(generic_rtsp_client: C) -> (server: Self)
        ensures
            server.generic_rtsp_client == generic_rtsp_client,
    {
        MediaServer { generic_rtsp_client }
    }
}

} // verus!
