use vstd::prelude::*;

use crate::routes::exchange::{transition, ActionView, Event, Phase, Route, Status};

verus! {

/// The phases and actions that a sequence of events drives an exchange on
/// `route` through, starting at `phase`: the last phase, and one action per
/// event.
pub open spec fn run(route: Route, phase: Phase, events: Seq<Event>) -> (Phase, Seq<ActionView>)
    decreases events.len(),
{
    if events.len() == 0 {
        (phase, Seq::empty())
    } else {
        let step = transition(route, phase, events[0]);
        let rest = run(route, step.0, events.drop_first());
        (rest.0, seq![step.1] + rest.1)
    }
}

/// Whether `phase` is a step of the exchange on `route`.
pub open spec fn on_path(route: Route, phase: Phase) -> bool {
    &&& phase != Phase::Finished
    &&& phase == Phase::WatchingCandidates ==> route != Route::PostResources
    &&& phase == Phase::AddingVideoTrack ==> route == Route::GetResources
}

/// The position of a phase in the order of the steps.
pub open spec fn rank(phase: Phase) -> nat {
    match phase {
        Phase::CreatingPeerConnection => 0,
        Phase::WatchingCandidates => 1,
        Phase::AddingVideoTrack => 2,
        Phase::RegisteringHandlers => 3,
        Phase::ParsingOffer => 4,
        Phase::SettingRemoteDescription => 5,
        Phase::CreatingAnswer => 6,
        Phase::SettingLocalDescription => 7,
        Phase::GatheringCandidates => 8,
        Phase::ReadingLocalDescription => 9,
        Phase::Finished => 10,
    }
}

/// Whether `event` reports that the step `phase` succeeded; for the last
/// step, with `answer` as the local description.
pub open spec fn succeeds(phase: Phase, event: Event, answer: Seq<char>) -> bool {
    match (phase, event) {
        (Phase::CreatingPeerConnection, Event::PeerConnection { created }) => created,
        (Phase::WatchingCandidates, Event::CandidatesWatched) => true,
        (Phase::AddingVideoTrack, Event::VideoTrackAdded) => true,
        (Phase::RegisteringHandlers, Event::HandlersRegistered) => true,
        (Phase::ParsingOffer, Event::OfferParsed { parsed }) => parsed,
        (Phase::SettingRemoteDescription, Event::RemoteDescriptionSet { set }) => set,
        (Phase::CreatingAnswer, Event::AnswerCreated { created }) => created,
        (Phase::SettingLocalDescription, Event::LocalDescriptionSet { set }) => set,
        (Phase::GatheringCandidates, Event::GatheringComplete) => true,
        (Phase::ReadingLocalDescription, Event::LocalDescription { sdp }) => match sdp {
            Some(s) => s@ == answer,
            None => false,
        },
        _ => false,
    }
}

/// Whether `event` answers the step `phase` (with success or failure).
pub open spec fn answers(phase: Phase, event: Event) -> bool {
    match (phase, event) {
        (Phase::CreatingPeerConnection, Event::PeerConnection { .. }) => true,
        (Phase::WatchingCandidates, Event::CandidatesWatched) => true,
        (Phase::AddingVideoTrack, Event::VideoTrackAdded) => true,
        (Phase::RegisteringHandlers, Event::HandlersRegistered) => true,
        (Phase::ParsingOffer, Event::OfferParsed { .. }) => true,
        (Phase::SettingRemoteDescription, Event::RemoteDescriptionSet { .. }) => true,
        (Phase::CreatingAnswer, Event::AnswerCreated { .. }) => true,
        (Phase::SettingLocalDescription, Event::LocalDescriptionSet { .. }) => true,
        (Phase::GatheringCandidates, Event::GatheringComplete) => true,
        (Phase::ReadingLocalDescription, Event::LocalDescription { .. }) => true,
        _ => false,
    }
}

/// Whether an answering event reports success, whatever the local
/// description it carries.
pub open spec fn is_success(event: Event) -> bool {
    match event {
        Event::PeerConnection { created } => created,
        Event::CandidatesWatched => true,
        Event::VideoTrackAdded => true,
        Event::HandlersRegistered => true,
        Event::OfferParsed { parsed } => parsed,
        Event::RemoteDescriptionSet { set } => set,
        Event::AnswerCreated { created } => created,
        Event::LocalDescriptionSet { set } => set,
        Event::GatheringComplete => true,
        Event::LocalDescription { sdp } => sdp is Some,
    }
}

/// The step that follows `phase` on `route` when it succeeds.
pub open spec fn successor(route: Route, phase: Phase) -> Phase {
    match phase {
        Phase::CreatingPeerConnection => if route == Route::PostResources {
            Phase::RegisteringHandlers
        } else {
            Phase::WatchingCandidates
        },
        Phase::WatchingCandidates => if route == Route::GetResources {
            Phase::AddingVideoTrack
        } else {
            Phase::RegisteringHandlers
        },
        Phase::AddingVideoTrack => Phase::RegisteringHandlers,
        Phase::RegisteringHandlers => Phase::ParsingOffer,
        Phase::ParsingOffer => Phase::SettingRemoteDescription,
        Phase::SettingRemoteDescription => Phase::CreatingAnswer,
        Phase::CreatingAnswer => Phase::SettingLocalDescription,
        Phase::SettingLocalDescription => Phase::GatheringCandidates,
        Phase::GatheringCandidates => Phase::ReadingLocalDescription,
        _ => Phase::Finished,
    }
}

/// Every event moves an exchange by at most one step: an event that does
/// not answer the current step is ignored; a success moves on to the next
/// step of the route (the last one replies 200 with the local description);
/// a failure ends the exchange with a 500 reply.
pub proof fn each_event_moves_one_step(route: Route, phase: Phase, event: Event)
    ensures
        !answers(phase, event) ==> transition(route, phase, event) == (phase, ActionView::Wait),
        answers(phase, event) && is_success(event) && phase != Phase::ReadingLocalDescription
            ==> transition(route, phase, event).0 == successor(route, phase),
        answers(phase, event) && is_success(event) && phase == Phase::ReadingLocalDescription
            ==> transition(route, phase, event) == (
            Phase::Finished,
            ActionView::Respond { status: Status::Success, body: event->sdp->0@ },
        ),
        answers(phase, event) && !is_success(event) ==> transition(route, phase, event).0
            == Phase::Finished && transition(route, phase, event).1 matches ActionView::Respond {
            status: Status::InternalServerError,
            ..
        },
{
}

/// The events that come before the registration of the handlers when every
/// step succeeds: the viewer watches the candidates and adds its track, the
/// plain exchange watches the candidates, the publisher does neither.
pub open spec fn setup_events(route: Route) -> Seq<Event> {
    match route {
        Route::GetResources => seq![Event::CandidatesWatched, Event::VideoTrackAdded],
        Route::Resources => seq![Event::CandidatesWatched],
        Route::PostResources => Seq::empty(),
    }
}

/// The actions that `setup_events` answer, before the handlers are
/// registered.
pub open spec fn setup_actions(route: Route) -> Seq<ActionView> {
    match route {
        Route::GetResources => seq![ActionView::WatchCandidates, ActionView::AddVideoTrack],
        Route::Resources => seq![ActionView::WatchCandidates],
        Route::PostResources => Seq::empty(),
    }
}

/// The events of an exchange on `route` in which every step succeeds and the
/// local description read at the end is `answer`.
pub open spec fn successful_events(route: Route, answer: String) -> Seq<Event> {
    seq![Event::PeerConnection { created: true }] + setup_events(route) + seq![
        Event::HandlersRegistered,
        Event::OfferParsed { parsed: true },
        Event::RemoteDescriptionSet { set: true },
        Event::AnswerCreated { created: true },
        Event::LocalDescriptionSet { set: true },
        Event::GatheringComplete,
        Event::LocalDescription { sdp: Some(answer) },
    ]
}

/// The actions that answer `successful_events`: each step in turn, then a
/// 200 reply whose body is the local description.
pub open spec fn successful_actions(route: Route, answer: Seq<char>) -> Seq<ActionView> {
    setup_actions(route) + seq![
        ActionView::RegisterHandlers,
        ActionView::ParseOffer,
        ActionView::SetRemoteDescription,
        ActionView::CreateAnswer,
        ActionView::SetLocalDescription,
        ActionView::AwaitGathering,
        ActionView::ReadLocalDescription,
        ActionView::Respond { status: Status::Success, body: answer },
    ]
}

/// When every step succeeds, the exchange asks for each step in turn and
/// replies 200 with the local description.
pub proof fn successful_exchange_answers(route: Route, answer: String)
    ensures
        run(route, Phase::CreatingPeerConnection, successful_events(route, answer))
            == (Phase::Finished, successful_actions(route, answer@)),
{
    let events = successful_events(route, answer);
    reveal_with_fuel(run, 12);
    match route {
        Route::GetResources => {
            assert(events =~= seq![
            Event::PeerConnection { created: true },
            Event::CandidatesWatched,
            Event::VideoTrackAdded,
            Event::HandlersRegistered,
            Event::OfferParsed { parsed: true },
            Event::RemoteDescriptionSet { set: true },
            Event::AnswerCreated { created: true },
            Event::LocalDescriptionSet { set: true },
            Event::GatheringComplete,
            Event::LocalDescription { sdp: Some(answer) },
        ]);
        },
        Route::Resources => {
            assert(events =~= seq![
            Event::PeerConnection { created: true },
            Event::CandidatesWatched,
            Event::HandlersRegistered,
            Event::OfferParsed { parsed: true },
            Event::RemoteDescriptionSet { set: true },
            Event::AnswerCreated { created: true },
            Event::LocalDescriptionSet { set: true },
            Event::GatheringComplete,
            Event::LocalDescription { sdp: Some(answer) },
        ]);
        },
        Route::PostResources => {
            assert(events =~= seq![
            Event::PeerConnection { created: true },
            Event::HandlersRegistered,
            Event::OfferParsed { parsed: true },
            Event::RemoteDescriptionSet { set: true },
            Event::AnswerCreated { created: true },
            Event::LocalDescriptionSet { set: true },
            Event::GatheringComplete,
            Event::LocalDescription { sdp: Some(answer) },
        ]);
        },
    }
    assert(run(route, Phase::CreatingPeerConnection, events).1 =~= successful_actions(route, answer@));
}

/// Once an exchange has replied, it does nothing more.
pub proof fn finished_is_final(route: Route, event: Event)
    ensures
        transition(route, Phase::Finished, event) == (Phase::Finished, ActionView::Wait),
{
}

/// A run yields one action per event, and from the end of the exchange
/// only waits.
proof fn lemma_run_shape(route: Route, phase: Phase, events: Seq<Event>)
    ensures
        run(route, phase, events).1.len() == events.len(),
        phase == Phase::Finished ==> run(route, phase, events).0 == Phase::Finished,
        phase == Phase::Finished ==> forall|i: int|
            0 <= i < events.len() ==> #[trigger] run(route, phase, events).1[i] == ActionView::Wait,
    decreases events.len(),
{
    if events.len() > 0 {
        lemma_run_shape(route, transition(route, phase, events[0]).0, events.drop_first());
        if phase == Phase::Finished {
            let rest = run(route, Phase::Finished, events.drop_first()).1;
            assert forall|i: int| 0 <= i < events.len() implies #[trigger] run(
                route,
                phase,
                events,
            ).1[i] == ActionView::Wait by {
                if i > 0 {
                    assert(run(route, phase, events).1[i] == rest[i - 1]);
                }
            }
        }
    }
}

/// An exchange replies at most once: after its reply, every event is
/// answered with waiting.
pub proof fn one_reply_per_exchange(route: Route, phase: Phase, events: Seq<Event>, i: int, j: int)
    requires
        0 <= i < j < events.len(),
        run(route, phase, events).1[i] is Respond,
    ensures
        run(route, phase, events).1[j] == ActionView::Wait,
    decreases events.len(),
{
    lemma_run_shape(route, phase, events);
    let step = transition(route, phase, events[0]);
    let rest = events.drop_first();
    lemma_run_shape(route, step.0, rest);
    if i == 0 {
        assert(step.1 is Respond);
        assert(step.0 == Phase::Finished);
        assert(run(route, phase, events).1[j] == run(route, step.0, rest).1[j - 1]);
    } else {
        assert(run(route, phase, events).1[i] == run(route, step.0, rest).1[i - 1]);
        assert(run(route, phase, events).1[j] == run(route, step.0, rest).1[j - 1]);
        one_reply_per_exchange(route, step.0, rest, i - 1, j - 1);
    }
}

proof fn lemma_ok_reply_from(route: Route, phase: Phase, events: Seq<Event>, k: int, answer: Seq<char>)
    requires
        0 <= k < events.len(),
        run(route, phase, events).1[k] == (ActionView::Respond {
            status: Status::Success,
            body: answer,
        }),
    ensures
        forall|q: Phase|
            on_path(route, q) && rank(q) >= rank(phase) ==> exists|i: int|
                0 <= i <= k && #[trigger] succeeds(q, events[i], answer),
    decreases events.len(),
{
    lemma_run_shape(route, phase, events);
    let step = transition(route, phase, events[0]);
    let rest = events.drop_first();
    lemma_run_shape(route, step.0, rest);
    if k == 0 {
        assert(succeeds(phase, events[0], answer));
        assert forall|q: Phase| on_path(route, q) && rank(q) >= rank(phase) implies exists|i: int|
            0 <= i <= k && #[trigger] succeeds(q, events[i], answer) by {
            assert(q == phase);
            assert(succeeds(q, events[0], answer));
        }
    } else {
        assert(run(route, phase, events).1[k] == run(route, step.0, rest).1[k - 1]);
        if step.0 == Phase::Finished {
            assert(run(route, step.0, rest).1[k - 1] == ActionView::Wait);
        }
        lemma_ok_reply_from(route, step.0, rest, k - 1, answer);
        assert forall|q: Phase| on_path(route, q) && rank(q) >= rank(phase) implies exists|i: int|
            0 <= i <= k && #[trigger] succeeds(q, events[i], answer) by {
            if step.0 == phase {
                let i = choose|i: int| 0 <= i <= k - 1 && #[trigger] succeeds(q, rest[i], answer);
                assert(succeeds(q, events[i + 1], answer));
            } else if q == phase {
                assert(succeeds(q, events[0], answer));
            } else {
                assert(rank(q) >= rank(step.0));
                let i = choose|i: int| 0 <= i <= k - 1 && #[trigger] succeeds(q, rest[i], answer);
                assert(succeeds(q, events[i + 1], answer));
            }
        }
    }
}

/// An exchange replies 200 only after every step of its route succeeded,
/// and the body of that reply is the local description that the last step
/// read.
pub proof fn success_needs_every_step(route: Route, events: Seq<Event>, k: int, answer: Seq<char>)
    requires
        0 <= k < events.len(),
        run(route, Phase::CreatingPeerConnection, events).1[k] == (ActionView::Respond {
            status: Status::Success,
            body: answer,
        }),
    ensures
        forall|q: Phase|
            on_path(route, q) ==> exists|i: int| 0 <= i <= k && #[trigger] succeeds(q, events[i], answer),
{
    lemma_ok_reply_from(route, Phase::CreatingPeerConnection, events, k, answer);
}

} // verus!
