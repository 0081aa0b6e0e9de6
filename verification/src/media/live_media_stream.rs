use vstd::prelude::*;

use crate::media::media_observer::MediaObserver;

verus! {

/// A published stream and the observers its frames are forwarded to, in the
/// order they joined.
pub struct LiveMediaStream {
    pub observers: Vec<MediaObserver>,
}

impl LiveMediaStream {
    /// A stream that nobody observes yet.
    pub fn new() -> (stream: LiveMediaStream)
        ensures
            stream.observers@ == Seq::<MediaObserver>::empty(),
    {
        LiveMediaStream { observers: Vec::new() }
    }
}

} // verus!
