use arda_live_media_server::routes::exchange::Route;
use arda_live_media_server::routes::peer_events::{
    collect_candidate, ice_server_urls, on_state_change, PeerState, StateReaction,
};

const ALL_STATES: [PeerState; 7] = [
    PeerState::Unspecified,
    PeerState::New,
    PeerState::Connecting,
    PeerState::Connected,
    PeerState::Disconnected,
    PeerState::Failed,
    PeerState::Closed,
];

#[test]
fn plain_exchange_signals_done_on_failure_only() {
    for state in ALL_STATES {
        let expected = if state == PeerState::Failed { StateReaction::SignalDone } else { StateReaction::Ignore };
        assert_eq!(on_state_change(Route::Resources, state), expected);
    }
}

#[test]
fn viewer_locks_resources_when_connected() {
    for state in ALL_STATES {
        let expected =
            if state == PeerState::Connected { StateReaction::LockMediaResources } else { StateReaction::Ignore };
        assert_eq!(on_state_change(Route::GetResources, state), expected);
    }
}

#[test]
fn publisher_locks_resources_when_failed_or_closed() {
    for state in ALL_STATES {
        let expected = if state == PeerState::Failed || state == PeerState::Closed {
            StateReaction::LockMediaResources
        } else {
            StateReaction::Ignore
        };
        assert_eq!(on_state_change(Route::PostResources, state), expected);
    }
}

#[test]
fn candidates_are_kept_in_order() {
    let mut pending = vec![1u8];
    collect_candidate(&mut pending, Some(2));
    collect_candidate(&mut pending, None);
    collect_candidate(&mut pending, Some(3));
    assert_eq!(pending, vec![1, 2, 3]);
}

#[test]
fn ice_servers_are_the_google_stun_server() {
    assert_eq!(ice_server_urls(), vec!["stun:stun.l.google.com:19302".to_string()]);
}
