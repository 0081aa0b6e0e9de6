use arda_live_media_server::routes::exchange::{next, start, Action, Event, Phase, Reply, Route, Status};

fn drive(route: Route, events: Vec<Event>) -> Vec<Action> {
    let (mut phase, _) = start();
    let mut actions = Vec::new();
    for event in events {
        let (p, a) = next(route, phase, event);
        phase = p;
        actions.push(a);
    }
    actions
}

fn success_events(route: Route, answer: &str) -> Vec<Event> {
    let mut events = vec![Event::PeerConnection { created: true }];
    if route != Route::PostResources {
        events.push(Event::CandidatesWatched);
    }
    if route == Route::GetResources {
        events.push(Event::VideoTrackAdded);
    }
    events.extend(vec![
        Event::HandlersRegistered,
        Event::OfferParsed { parsed: true },
        Event::RemoteDescriptionSet { set: true },
        Event::AnswerCreated { created: true },
        Event::LocalDescriptionSet { set: true },
        Event::GatheringComplete,
        Event::LocalDescription { sdp: Some(answer.to_string()) },
    ]);
    events
}

fn error(body: &str) -> Action {
    Action::Respond(Reply { status: Status::InternalServerError, body: body.to_string() })
}

#[test]
fn exchange_starts_by_creating_the_peer_connection() {
    assert_eq!(start(), (Phase::CreatingPeerConnection, Action::CreatePeerConnection));
}

#[test]
fn publisher_exchange_answers_with_local_description() {
    let actions = drive(Route::PostResources, success_events(Route::PostResources, "v=0 answer"));
    assert_eq!(
        actions,
        vec![
            Action::RegisterHandlers,
            Action::ParseOffer,
            Action::SetRemoteDescription,
            Action::CreateAnswer,
            Action::SetLocalDescription,
            Action::AwaitGathering,
            Action::ReadLocalDescription,
            Action::Respond(Reply { status: Status::Success, body: "v=0 answer".to_string() }),
        ]
    );
}

#[test]
fn viewer_exchange_adds_the_video_track_first() {
    let actions = drive(Route::GetResources, success_events(Route::GetResources, "sdp"));
    assert_eq!(actions[0], Action::WatchCandidates);
    assert_eq!(actions[1], Action::AddVideoTrack);
    assert_eq!(actions[2], Action::RegisterHandlers);
    assert_eq!(actions[3], Action::ParseOffer);
    assert_eq!(actions.len(), 10);
    assert_eq!(actions[9], Action::Respond(Reply { status: Status::Success, body: "sdp".to_string() }));
}

#[test]
fn plain_exchange_skips_the_video_track() {
    let actions = drive(Route::Resources, success_events(Route::Resources, "a"));
    assert_eq!(actions[0], Action::WatchCandidates);
    assert_eq!(actions[1], Action::RegisterHandlers);
    assert_eq!(actions[2], Action::ParseOffer);
    assert_eq!(actions.len(), 9);
}

#[test]
fn peer_connection_failure_is_reported() {
    let (phase, action) = next(Route::PostResources, Phase::CreatingPeerConnection, Event::PeerConnection { created: false });
    assert_eq!(phase, Phase::Finished);
    assert_eq!(action, error("Failed to create peer connection"));
}

#[test]
fn unreadable_offer_is_reported() {
    let (phase, action) = next(Route::GetResources, Phase::ParsingOffer, Event::OfferParsed { parsed: false });
    assert_eq!(phase, Phase::Finished);
    assert_eq!(action, error("Failed to parse sdp"));
}

#[test]
fn later_failures_reply_with_empty_error() {
    let cases = vec![
        (Phase::SettingRemoteDescription, Event::RemoteDescriptionSet { set: false }),
        (Phase::CreatingAnswer, Event::AnswerCreated { created: false }),
        (Phase::SettingLocalDescription, Event::LocalDescriptionSet { set: false }),
        (Phase::ReadingLocalDescription, Event::LocalDescription { sdp: None }),
    ];
    for (phase, event) in cases {
        assert_eq!(next(Route::Resources, phase, event), (Phase::Finished, error("")));
    }
}

#[test]
fn event_of_another_step_is_ignored() {
    let (phase, action) = next(Route::PostResources, Phase::CreatingAnswer, Event::GatheringComplete);
    assert_eq!(phase, Phase::CreatingAnswer);
    assert_eq!(action, Action::Wait);
}

#[test]
fn finished_exchange_does_nothing_more() {
    let mut events = vec![Event::PeerConnection { created: false }];
    events.extend(success_events(Route::PostResources, "late"));
    let actions = drive(Route::PostResources, events);
    assert_eq!(actions[0], error("Failed to create peer connection"));
    assert!(actions[1..].iter().all(|a| *a == Action::Wait));
}

#[test]
fn gathering_leads_to_reading_the_local_description() {
    assert_eq!(
        next(Route::GetResources, Phase::GatheringCandidates, Event::GatheringComplete),
        (Phase::ReadingLocalDescription, Action::ReadLocalDescription)
    );
}
