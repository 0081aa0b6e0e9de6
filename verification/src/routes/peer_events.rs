use vstd::prelude::*;
use vstd::string::StringExecFns;

use crate::routes::exchange::Route;

verus! {

/// The connection state that a peer connection reports.
#[derive(Clone, Copy, Debug, PartialEq, Eq, Structural)]
pub enum PeerState {
    Unspecified,
    New,
    Connecting,
    Connected,
    Disconnected,
    Failed,
    Closed,
}

/// What an endpoint does when its peer connection changes state.
#[derive(Clone, Copy, Debug, PartialEq, Eq, Structural)]
pub enum StateReaction {
    /// Nothing beyond noting the change.
    Ignore,
    /// Tell the waiting exchange that the connection is over.
    SignalDone,
    /// Take the lock on the media resources.
    LockMediaResources,
}

/// The reaction of the endpoint `route` to its peer connection entering
/// `state`.
pub open spec fn state_reaction(route: Route, state: PeerState) -> StateReaction {
    match route {
        Route::Resources => if state == PeerState::Failed {
            StateReaction::SignalDone
        } else {
            StateReaction::Ignore
        },
        Route::GetResources => if state == PeerState::Connected {
            StateReaction::LockMediaResources
        } else {
            StateReaction::Ignore
        },
        Route::PostResources => if state == PeerState::Failed || state == PeerState::Closed {
            StateReaction::LockMediaResources
        } else {
            StateReaction::Ignore
        },
    }
}

/// Decides how the endpoint `route` reacts to its peer connection entering
/// `state`.
pub fn on_state_change(route: Route, state: PeerState) -> (reaction: StateReaction)
    ensures
        reaction == state_reaction(route, state),
{
    match route {
        Route::Resources => match state {
            PeerState::Failed => StateReaction::SignalDone,
            _ => StateReaction::Ignore,
        },
        Route::GetResources => match state {
            PeerState::Connected => StateReaction::LockMediaResources,
            _ => StateReaction::Ignore,
        },
        Route::PostResources => match state {
            PeerState::Failed | PeerState::Closed => StateReaction::LockMediaResources,
            _ => StateReaction::Ignore,
        },
    }
}

/// Keeps an ICE candidate that the peer connection gathered: a candidate is
/// appended to the pending ones, the end of gathering (no candidate) leaves
/// them as they are.
pub fn collect_candidate<T>(pending: &mut Vec<T>, candidate: Option<T>)
    ensures
        final(pending)@ == match candidate {
            Some(c) => old(pending)@.push(c),
            None => old(pending)@,
        },
{
    match candidate {
        Some(c) => pending.push(c),
        None => {},
    }
}

/// The URL of the STUN server that peer connections are configured with.
pub open spec fn stun_server_url() -> Seq<char> {
    "stun:stun.l.google.com:19302"@
}

/// The URLs of the ICE servers for a new peer connection: the one STUN
/// server.
pub fn ice_server_urls() -> (urls: Vec<String>)
    ensures
        urls@.len() == 1,
        urls@[0]@ == stun_server_url(),
{
    let mut urls: Vec<String> = Vec::new();
    urls.push(String::from_str("stun:stun.l.google.com:19302"));
    urls
}

} // verus!
