//! The WebRTC session: its configuration, its outbound track, and the
//! orchestrator's handshake as a state machine from events to actions.

use vstd::prelude::*;

verus! {

/// The public STUN server used for ICE gathering.
pub const STUN_URL: &'static str = "stun:stun.l.google.com:19302";

/// MIME type of the outbound video track.
pub const MIME_TYPE_VP8: &'static str = "video/VP8";

/// Duration written with every media sample, in milliseconds.
pub const SAMPLE_DURATION_MS: u64 = 33;

/// Errors that end the orchestrator's handshake.
#[derive(Clone, Debug)]
pub enum RtcError {
    /// The signaling side closed without an offer.
    NoOffer,
    /// The answer could not be handed back to the signaling side.
    AnswerSendError,
    /// The WebRTC stack failed; its message.
    WebRtc(String),
}

#[derive(Clone, Debug)]
pub struct IceServer {
    pub urls: Vec<String>,
}

/// Peer-connection configuration; everything not here is the stack's default.
#[derive(Clone, Debug)]
pub struct RtcConfig {
    pub ice_servers: Vec<IceServer>,
}

/// One ICE server, the public STUN server.
pub fn rtc_configuration() -> (r: RtcConfig)
    ensures
        r.ice_servers@.len() == 1,
        r.ice_servers@[0].urls@.len() == 1,
        r.ice_servers@[0].urls@[0]@ == STUN_URL@,
{
    let url = STUN_URL.to_owned();
    let urls = vec![url];
    let server = IceServer { urls };
    RtcConfig { ice_servers: vec![server] }
}

/// What the outbound track advertises.
#[derive(Clone, Debug)]
pub struct TrackSpec {
    pub mime_type: String,
    pub id: String,
    pub stream_id: String,
}

/// The single outbound video track: VP8, id `video`.
pub fn create_vp8_track() -> (r: TrackSpec)
    ensures
        r.mime_type@ == MIME_TYPE_VP8@,
        r.id@ == "video"@,
        r.stream_id@ == "webrtc-rs"@,
{
    TrackSpec {
        mime_type: MIME_TYPE_VP8.to_owned(),
        id: "video".to_owned(),
        stream_id: "webrtc-rs".to_owned(),
    }
}

/// States the WebRTC stack reports for a peer connection.
#[derive(Clone, Copy, Debug, PartialEq, Eq, Structural)]
pub enum PeerConnectionState {
    New,
    Connecting,
    Connected,
    Disconnected,
    Failed,
    Closed,
}

/// What a state change signals to the orchestrator.
#[derive(Clone, Copy, Debug, PartialEq, Eq, Structural)]
pub enum StateSignal {
    Connected,
    Done,
    Nothing,
}

/// `Connected` signals the connection is up, `Failed` that it is done; other
/// states signal nothing.
pub fn state_signal(s: PeerConnectionState) -> (r: StateSignal)
    ensures
        s == PeerConnectionState::Connected ==> r == StateSignal::Connected,
        s == PeerConnectionState::Failed ==> r == StateSignal::Done,
        s != PeerConnectionState::Connected && s != PeerConnectionState::Failed ==> r == StateSignal::Nothing,
{
    match s {
        PeerConnectionState::Connected => StateSignal::Connected,
        PeerConnectionState::Failed => StateSignal::Done,
        _ => StateSignal::Nothing,
    }
}

/// The handshake steps, in the order they run.
#[derive(Clone, Copy, Debug, PartialEq, Eq, Structural)]
pub enum HandshakeStep {
    AddTrack,
    SpawnRtcpReader,
    ReceiveOffer,
    SetRemoteDescription,
    CreateAnswer,
    SetLocalDescription,
    AwaitGatheringComplete,
    SendAnswer,
}

pub open spec fn step_index(s: HandshakeStep) -> nat {
    match s {
        HandshakeStep::AddTrack => 0,
        HandshakeStep::SpawnRtcpReader => 1,
        HandshakeStep::ReceiveOffer => 2,
        HandshakeStep::SetRemoteDescription => 3,
        HandshakeStep::CreateAnswer => 4,
        HandshakeStep::SetLocalDescription => 5,
        HandshakeStep::AwaitGatheringComplete => 6,
        HandshakeStep::SendAnswer => 7,
    }
}

pub open spec fn is_last_step(s: HandshakeStep) -> bool {
    step_index(s) == 7
}

/// The step after `s`, or `None` after the last.
pub fn next_step(s: HandshakeStep) -> (r: Option<HandshakeStep>)
    ensures
        r is None <==> is_last_step(s),
        r matches Some(t) ==> step_index(t) == step_index(s) + 1,
{
    match s {
        HandshakeStep::AddTrack => Some(HandshakeStep::SpawnRtcpReader),
        HandshakeStep::SpawnRtcpReader => Some(HandshakeStep::ReceiveOffer),
        HandshakeStep::ReceiveOffer => Some(HandshakeStep::SetRemoteDescription),
        HandshakeStep::SetRemoteDescription => Some(HandshakeStep::CreateAnswer),
        HandshakeStep::CreateAnswer => Some(HandshakeStep::SetLocalDescription),
        HandshakeStep::SetLocalDescription => Some(HandshakeStep::AwaitGatheringComplete),
        HandshakeStep::AwaitGatheringComplete => Some(HandshakeStep::SendAnswer),
        HandshakeStep::SendAnswer => None,
    }
}

/// Where the session is.
#[derive(Clone, Copy, Debug, PartialEq, Eq, Structural)]
pub enum SessionPhase {
    Idle,
    Negotiating(HandshakeStep),
    Connected,
    Closed,
}

/// What happened since the last action.
#[derive(Clone, Copy, Debug, PartialEq, Eq, Structural)]
pub enum SessionEvent {
    Start,
    StepDone,
    StepFailed,
    /// The peer connection reported failure.
    PeerFailed,
    /// The process-wide exit signal.
    Exit,
    /// The encoded-frame queue has closed.
    QueueClosed,
}

/// What the orchestrator does next.
#[derive(Clone, Copy, Debug, PartialEq, Eq, Structural)]
pub enum SessionAction {
    Perform(HandshakeStep),
    PumpSamples,
    ClosePeerConnection,
    Wait,
    Stop,
}

/// The orchestrator's transitions. The handshake steps run strictly in
/// order; a failed step, a failed connection, the exit signal or the end of
/// the frame queue close the peer connection; a closed session stops.
pub fn on_session_event(phase: SessionPhase, event: SessionEvent) -> (r: (SessionPhase, SessionAction))
    ensures
        phase == SessionPhase::Closed ==> r == (SessionPhase::Closed, SessionAction::Stop),
        phase != SessionPhase::Closed && (event == SessionEvent::Exit || event == SessionEvent::PeerFailed)
            ==> r == (SessionPhase::Closed, SessionAction::ClosePeerConnection),
        phase == SessionPhase::Idle && event == SessionEvent::Start
            ==> r == (SessionPhase::Negotiating(HandshakeStep::AddTrack), SessionAction::Perform(HandshakeStep::AddTrack)),
        phase == SessionPhase::Idle && event != SessionEvent::Start && event != SessionEvent::Exit
            && event != SessionEvent::PeerFailed ==> r == (phase, SessionAction::Wait),
        (phase matches SessionPhase::Negotiating(s) && event == SessionEvent::StepDone) ==> {
            let s = phase->Negotiating_0;
            if is_last_step(s) {
                r == (SessionPhase::Connected, SessionAction::PumpSamples)
            } else {
                r.0 matches SessionPhase::Negotiating(t) && step_index(t) == step_index(s) + 1
                    && r.1 == SessionAction::Perform(t)
            }
        },
        (phase is Negotiating && (event == SessionEvent::StepFailed || event == SessionEvent::QueueClosed))
            ==> r == (SessionPhase::Closed, SessionAction::ClosePeerConnection),
        (phase is Negotiating && event == SessionEvent::Start) ==> r == (phase, SessionAction::Wait),
        phase == SessionPhase::Connected && event == SessionEvent::QueueClosed
            ==> r == (SessionPhase::Closed, SessionAction::ClosePeerConnection),
        phase == SessionPhase::Connected && (event == SessionEvent::Start || event == SessionEvent::StepDone
            || event == SessionEvent::StepFailed) ==> r == (phase, SessionAction::PumpSamples),
{
    match (phase, event) {
        (SessionPhase::Closed, _) => (SessionPhase::Closed, SessionAction::Stop),
        (_, SessionEvent::Exit) => (SessionPhase::Closed, SessionAction::ClosePeerConnection),
        (_, SessionEvent::PeerFailed) => (SessionPhase::Closed, SessionAction::ClosePeerConnection),
        (SessionPhase::Idle, SessionEvent::Start) => (
            SessionPhase::Negotiating(HandshakeStep::AddTrack),
            SessionAction::Perform(HandshakeStep::AddTrack),
        ),
        (SessionPhase::Idle, _) => (phase, SessionAction::Wait),
        (SessionPhase::Negotiating(s), SessionEvent::StepDone) => match next_step(s) {
            Some(t) => (SessionPhase::Negotiating(t), SessionAction::Perform(t)),
            None => (SessionPhase::Connected, SessionAction::PumpSamples),
        },
        (SessionPhase::Negotiating(_), SessionEvent::Start) => (phase, SessionAction::Wait),
        (SessionPhase::Negotiating(_), _) => (SessionPhase::Closed, SessionAction::ClosePeerConnection),
        (SessionPhase::Connected, SessionEvent::QueueClosed) => (
            SessionPhase::Closed,
            SessionAction::ClosePeerConnection,
        ),
        (SessionPhase::Connected, _) => (phase, SessionAction::PumpSamples),
    }
}

} // verus!
