use vstd::prelude::*;
use vstd::string::StringExecFns;

verus! {

/// The endpoint that runs an offer/answer exchange.
#[derive(Clone, Copy, Debug, PartialEq, Eq, Structural)]
pub enum Route {
    /// `POST /api/v1/resources/{endpoint}`: a publisher sends its stream.
    PostResources,
    /// `GET /api/v1/resources/{endpoint}`: a viewer receives a video track.
    GetResources,
    /// The plain exchange that only answers the offer.
    Resources,
}

/// Where an exchange stands: the step whose outcome it waits for.
#[derive(Clone, Copy, Debug, PartialEq, Eq, Structural)]
pub enum Phase {
    CreatingPeerConnection,
    WatchingCandidates,
    AddingVideoTrack,
    RegisteringHandlers,
    ParsingOffer,
    SettingRemoteDescription,
    CreatingAnswer,
    SettingLocalDescription,
    GatheringCandidates,
    ReadingLocalDescription,
    Finished,
}

/// The HTTP status of a reply.
#[derive(Clone, Copy, Debug, PartialEq, Eq, Structural)]
pub enum Status {
    /// 200: the answer is in the body.
    Success,
    /// 500: the exchange failed; the body says where, or is empty.
    InternalServerError,
}

/// The reply that ends an exchange.
#[derive(Clone, Debug, PartialEq, Eq)]
pub struct Reply {
    pub status: Status,
    pub body: String,
}

/// The outcome of the step an exchange asked for.
#[derive(Clone, Debug, PartialEq, Eq)]
pub enum Event {
    PeerConnection { created: bool },
    CandidatesWatched,
    VideoTrackAdded,
    HandlersRegistered,
    OfferParsed { parsed: bool },
    RemoteDescriptionSet { set: bool },
    AnswerCreated { created: bool },
    LocalDescriptionSet { set: bool },
    GatheringComplete,
    LocalDescription { sdp: Option<String> },
}

/// What the caller of an exchange is to do next.
#[derive(Clone, Debug, PartialEq, Eq)]
pub enum Action {
    CreatePeerConnection,
    /// Register the handler that keeps the gathered ICE candidates.
    WatchCandidates,
    AddVideoTrack,
    /// Register the remaining handlers of the route (connection state, data
    /// channels, incoming tracks).
    RegisterHandlers,
    ParseOffer,
    SetRemoteDescription,
    CreateAnswer,
    SetLocalDescription,
    AwaitGathering,
    ReadLocalDescription,
    Respond(Reply),
    /// The event did not belong to the current step: nothing to do.
    Wait,
}

/// An action, with the body of a reply taken as its characters.
pub enum ActionView {
    CreatePeerConnection,
    WatchCandidates,
    AddVideoTrack,
    RegisterHandlers,
    ParseOffer,
    SetRemoteDescription,
    CreateAnswer,
    SetLocalDescription,
    AwaitGathering,
    ReadLocalDescription,
    Respond { status: Status, body: Seq<char> },
    Wait,
}

impl View for Action {
    type V = ActionView;

    open spec fn view(&self) -> ActionView {
        match self {
            Action::CreatePeerConnection => ActionView::CreatePeerConnection,
            Action::WatchCandidates => ActionView::WatchCandidates,
            Action::AddVideoTrack => ActionView::AddVideoTrack,
            Action::RegisterHandlers => ActionView::RegisterHandlers,
            Action::ParseOffer => ActionView::ParseOffer,
            Action::SetRemoteDescription => ActionView::SetRemoteDescription,
            Action::CreateAnswer => ActionView::CreateAnswer,
            Action::SetLocalDescription => ActionView::SetLocalDescription,
            Action::AwaitGathering => ActionView::AwaitGathering,
            Action::ReadLocalDescription => ActionView::ReadLocalDescription,
            Action::Respond(reply) => ActionView::Respond { status: reply.status, body: reply.body@ },
            Action::Wait => ActionView::Wait,
        }
    }
}

/// The body of the reply when the peer connection cannot be created.
pub open spec fn peer_connection_failure_body() -> Seq<char> {
    "Failed to create peer connection"@
}

/// The body of the reply when the offer cannot be read as a session description.
pub open spec fn offer_failure_body() -> Seq<char> {
    "Failed to parse sdp"@
}

/// The reply that ends an exchange with a server error.
pub open spec fn fail_with(body: Seq<char>) -> (Phase, ActionView) {
    (Phase::Finished, ActionView::Respond { status: Status::InternalServerError, body })
}

/// The step that follows the creation of the peer connection: the
/// publisher registers its handlers, the other routes first watch the ICE
/// candidates.
pub open spec fn after_peer_connection(route: Route) -> (Phase, ActionView) {
    match route {
        Route::PostResources => (Phase::RegisteringHandlers, ActionView::RegisterHandlers),
        _ => (Phase::WatchingCandidates, ActionView::WatchCandidates),
    }
}

/// The step that follows watching the ICE candidates: the viewer adds its
/// video track before its other handlers.
pub open spec fn after_watching_candidates(route: Route) -> (Phase, ActionView) {
    match route {
        Route::GetResources => (Phase::AddingVideoTrack, ActionView::AddVideoTrack),
        _ => (Phase::RegisteringHandlers, ActionView::RegisterHandlers),
    }
}

/// How an exchange on `route` moves from `phase` when `event` arrives, and
/// what it asks for next. An event that does not answer the current step is
/// ignored.
pub open spec fn transition(route: Route, phase: Phase, event: Event) -> (Phase, ActionView) {
    match (phase, event) {
        (Phase::CreatingPeerConnection, Event::PeerConnection { created }) => if created {
            after_peer_connection(route)
        } else {
            fail_with(peer_connection_failure_body())
        },
        (Phase::WatchingCandidates, Event::CandidatesWatched) => after_watching_candidates(route),
        (Phase::AddingVideoTrack, Event::VideoTrackAdded) => (
            Phase::RegisteringHandlers,
            ActionView::RegisterHandlers,
        ),
        (Phase::RegisteringHandlers, Event::HandlersRegistered) => (Phase::ParsingOffer, ActionView::ParseOffer),
        (Phase::ParsingOffer, Event::OfferParsed { parsed }) => if parsed {
            (Phase::SettingRemoteDescription, ActionView::SetRemoteDescription)
        } else {
            fail_with(offer_failure_body())
        },
        (Phase::SettingRemoteDescription, Event::RemoteDescriptionSet { set }) => if set {
            (Phase::CreatingAnswer, ActionView::CreateAnswer)
        } else {
            fail_with(Seq::empty())
        },
        (Phase::CreatingAnswer, Event::AnswerCreated { created }) => if created {
            (Phase::SettingLocalDescription, ActionView::SetLocalDescription)
        } else {
            fail_with(Seq::empty())
        },
        (Phase::SettingLocalDescription, Event::LocalDescriptionSet { set }) => if set {
            (Phase::GatheringCandidates, ActionView::AwaitGathering)
        } else {
            fail_with(Seq::empty())
        },
        (Phase::GatheringCandidates, Event::GatheringComplete) => (
            Phase::ReadingLocalDescription,
            ActionView::ReadLocalDescription,
        ),
        (Phase::ReadingLocalDescription, Event::LocalDescription { sdp }) => match sdp {
            Some(answer) => (Phase::Finished, ActionView::Respond { status: Status::Success, body: answer@ }),
            None => fail_with(Seq::empty()),
        },
        _ => (phase, ActionView::Wait),
    }
}

fn server_error(body: String) -> (t: (Phase, Action))
    ensures
        t.0 == Phase::Finished,
        t.1@ == (ActionView::Respond { status: Status::InternalServerError, body: body@ }),
{
    (Phase::Finished, Action::Respond(Reply { status: Status::InternalServerError, body }))
}

/// The first step of an exchange: create the peer connection.
pub fn start() -> (t: (Phase, Action))
    ensures
        t.0 == Phase::CreatingPeerConnection,
        t.1@ == ActionView::CreatePeerConnection,
{
    (Phase::CreatingPeerConnection, Action::CreatePeerConnection)
}

/// Moves an exchange on `route` from `phase` by `event`: the next phase and
/// the action to perform.
pub fn next(route: Route, phase: Phase, event: Event) -> (t: (Phase, Action))
    ensures
        (t.0, t.1@) == transition(route, phase, event),
{
    match phase {
        Phase::CreatingPeerConnection => match event {
            Event::PeerConnection { created } => if created {
                match route {
                    Route::PostResources => (Phase::RegisteringHandlers, Action::RegisterHandlers),
                    _ => (Phase::WatchingCandidates, Action::WatchCandidates),
                }
            } else {
                server_error(String::from_str("Failed to create peer connection"))
            },
            _ => (phase, Action::Wait),
        },
        Phase::WatchingCandidates => match event {
            Event::CandidatesWatched => match route {
                Route::GetResources => (Phase::AddingVideoTrack, Action::AddVideoTrack),
                _ => (Phase::RegisteringHandlers, Action::RegisterHandlers),
            },
            _ => (phase, Action::Wait),
        },
        Phase::AddingVideoTrack => match event {
            Event::VideoTrackAdded => (Phase::RegisteringHandlers, Action::RegisterHandlers),
            _ => (phase, Action::Wait),
        },
        Phase::RegisteringHandlers => match event {
            Event::HandlersRegistered => (Phase::ParsingOffer, Action::ParseOffer),
            _ => (phase, Action::Wait),
        },
        Phase::ParsingOffer => match event {
            Event::OfferParsed { parsed } => if parsed {
                (Phase::SettingRemoteDescription, Action::SetRemoteDescription)
            } else {
                server_error(String::from_str("Failed to parse sdp"))
            },
            _ => (phase, Action::Wait),
        },
        Phase::SettingRemoteDescription => match event {
            Event::RemoteDescriptionSet { set } => if set {
                (Phase::CreatingAnswer, Action::CreateAnswer)
            } else {
                server_error(String::new())
            },
            _ => (phase, Action::Wait),
        },
        Phase::CreatingAnswer => match event {
            Event::AnswerCreated { created } => if created {
                (Phase::SettingLocalDescription, Action::SetLocalDescription)
            } else {
                server_error(String::new())
            },
            _ => (phase, Action::Wait),
        },
        Phase::SettingLocalDescription => match event {
            Event::LocalDescriptionSet { set } => if set {
                (Phase::GatheringCandidates, Action::AwaitGathering)
            } else {
                server_error(String::new())
            },
            _ => (phase, Action::Wait),
        },
        Phase::GatheringCandidates => match event {
            Event::GatheringComplete => (Phase::ReadingLocalDescription, Action::ReadLocalDescription),
            _ => (phase, Action::Wait),
        },
        Phase::ReadingLocalDescription => match event {
            Event::LocalDescription { sdp } => match sdp {
                Some(answer) => (
                    Phase::Finished,
                    Action::Respond(Reply { status: Status::Success, body: answer }),
                ),
                None => server_error(String::new()),
            },
            _ => (phase, Action::Wait),
        },
        Phase::Finished => (phase, Action::Wait),
    }
}

} // verus!
