//! The life of one peer's session: from an offer through the negotiation of a
//! capture surface, a running graph and a transport session to an answer, and
//! from there to its end.
//!
//! The broker, the media engine and the transport library do their work
//! outside this library. The orchestrator says what to ask of them next and
//! takes in what they answered.
use vstd::prelude::*;
use vstd::string::*;
use crate::config::{
    AudioDeviceInfo, MonitorInfo, PeerId, PipelineConfig, PipelineRequest, SignalMessage,
    option_text,
};
use crate::ladder::{
    EngineEvent, EngineEventModel, LadderAction, LadderActionModel, LadderModel, LadderPhase,
    PipelineLadder, failure_message,
};
use crate::media::{PipelineFactory, candidate_graphs, is_portal_source, wants_portal};
use crate::registry::{AppState, PeerModel, PeerState, SharedModel};
use crate::relay::{TrackDescription, TrackModel, create_webrtc_track, track_plan};
use crate::text::str_eq;
use crate::virtual_audio::VirtualAudioDevice;

verus! {

/// Whether `sdp` can be read as a session description that offers a session.
pub uninterp spec fn offer_parses(sdp: Seq<char>) -> bool;

/// `RTCSessionDescription::offer` of the `webrtc` crate reads `sdp` as an
/// offer; it fails where the text is no session description. Whether it fails
/// depends on the text alone.
#[verifier::external_body]
fn offer_is_well_formed(sdp: &str) -> (ok: bool)
    ensures
        ok == offer_parses(sdp@),
{
    webrtc::peer_connection::sdp::session_description::RTCSessionDescription::offer(
        sdp.to_owned(),
    ).is_ok()
}

/// A connectivity candidate as the peer sends it.
#[derive(Debug)]
pub struct IceCandidateInit {
    pub candidate: String,
    pub sdp_mid: Option<String>,
    pub sdp_mline_index: Option<u16>,
    pub username_fragment: Option<String>,
}

/// A connectivity candidate as a mathematical value.
pub struct IceCandidateModel {
    pub candidate: Seq<char>,
    pub sdp_mid: Option<Seq<char>>,
    pub sdp_mline_index: Option<u16>,
    pub username_fragment: Option<Seq<char>>,
}

impl View for IceCandidateInit {
    type V = IceCandidateModel;

    open spec fn view(&self) -> IceCandidateModel {
        IceCandidateModel {
            candidate: self.candidate@,
            sdp_mid: option_text(self.sdp_mid),
            sdp_mline_index: self.sdp_mline_index,
            username_fragment: option_text(self.username_fragment),
        }
    }
}

/// The candidate that the JSON text `text` denotes, as its four fields
/// (candidate, media identification, media line index, user name fragment), or
/// `None` where the text denotes none.
pub uninterp spec fn ice_candidate_fields(text: Seq<char>) -> Option<
    (Seq<char>, Option<Seq<char>>, Option<u16>, Option<Seq<char>>),
>;

/// The candidate that the JSON text `text` denotes.
pub open spec fn ice_candidate_of(text: Seq<char>) -> Option<IceCandidateModel> {
    match ice_candidate_fields(text) {
        Some(fields) => Some(
            IceCandidateModel {
                candidate: fields.0,
                sdp_mid: fields.1,
                sdp_mline_index: fields.2,
                username_fragment: fields.3,
            },
        ),
        None => None,
    }
}

/// The fields of a candidate.
pub open spec fn candidate_fields(candidate: IceCandidateInit) -> (
    Seq<char>,
    Option<Seq<char>>,
    Option<u16>,
    Option<Seq<char>>,
) {
    (
        candidate.candidate@,
        option_text(candidate.sdp_mid),
        candidate.sdp_mline_index,
        option_text(candidate.username_fragment),
    )
}

/// `serde_json::from_str` reads `text` as the `RTCIceCandidateInit` of the
/// `webrtc` crate; it fails where the text is no such record. The outcome
/// depends on the text alone.
#[verifier::external_body]
fn parse_ice_candidate(text: &str) -> (parsed: Option<IceCandidateInit>)
    ensures
        match parsed {
            Some(candidate) => ice_candidate_fields(text@) == Some(candidate_fields(candidate)),
            None => ice_candidate_fields(text@) is None,
        },
{
    match serde_json::from_str::<webrtc::ice_transport::ice_candidate::RTCIceCandidateInit>(text) {
        Ok(init) => Some(
            IceCandidateInit {
                candidate: init.candidate,
                sdp_mid: init.sdp_mid,
                sdp_mline_index: init.sdp_mline_index,
                username_fragment: init.username_fragment,
            },
        ),
        Err(_) => None,
    }
}

/// A step in setting up the transport session.
#[derive(Debug)]
pub enum TransportStep {
    /// Make the transport session.
    CreateSession,
    /// Make this outbound track and add it to the session.
    AddTrack { track: TrackDescription },
    /// Register the handler for the viewer's microphone track.
    RegisterInboundTrack,
    /// Register the handler that relays local candidates to the peer.
    RegisterIceHandler,
    /// Set the peer's offer as the remote description.
    SetRemoteDescription { sdp: String },
    /// Make the answer.
    CreateAnswer,
    /// Set the answer as the local description.
    SetLocalDescription,
}

/// A transport step as a mathematical value.
pub enum TransportStepModel {
    CreateSession,
    AddTrack { track: TrackModel },
    RegisterInboundTrack,
    RegisterIceHandler,
    SetRemoteDescription { sdp: Seq<char> },
    CreateAnswer,
    SetLocalDescription,
}

impl View for TransportStep {
    type V = TransportStepModel;

    open spec fn view(&self) -> TransportStepModel {
        match self {
            TransportStep::CreateSession => TransportStepModel::CreateSession,
            TransportStep::AddTrack { track } => TransportStepModel::AddTrack { track: track@ },
            TransportStep::RegisterInboundTrack => TransportStepModel::RegisterInboundTrack,
            TransportStep::RegisterIceHandler => TransportStepModel::RegisterIceHandler,
            TransportStep::SetRemoteDescription { sdp } => TransportStepModel::SetRemoteDescription {
                sdp: sdp@,
            },
            TransportStep::CreateAnswer => TransportStepModel::CreateAnswer,
            TransportStep::SetLocalDescription => TransportStepModel::SetLocalDescription,
        }
    }
}

impl Clone for TransportStep {
    fn clone(&self) -> (copy: Self)
        ensures
            copy@ == self@,
    {
        match self {
            TransportStep::CreateSession => TransportStep::CreateSession,
            TransportStep::AddTrack { track } => TransportStep::AddTrack {
                track: TrackDescription {
                    id: track.id.clone(),
                    stream_id: track.stream_id.clone(),
                    mime_type: track.mime_type.clone(),
                },
            },
            TransportStep::RegisterInboundTrack => TransportStep::RegisterInboundTrack,
            TransportStep::RegisterIceHandler => TransportStep::RegisterIceHandler,
            TransportStep::SetRemoteDescription { sdp } => TransportStep::SetRemoteDescription {
                sdp: sdp.clone(),
            },
            TransportStep::CreateAnswer => TransportStep::CreateAnswer,
            TransportStep::SetLocalDescription => TransportStep::SetLocalDescription,
        }
    }
}

/// The steps that a list holds.
pub open spec fn steps(list: Seq<TransportStep>) -> Seq<TransportStepModel> {
    Seq::new(list.len(), |i: int| list[i]@)
}

/// The steps that set up the transport session for a request, in order: make
/// the session, add each track, register the microphone handler where the
/// viewer sends its microphone, register the candidate relay, set the offer,
/// make the answer and set it.
pub open spec fn transport_script(request: PipelineRequest, sdp: Seq<char>) -> Seq<
    TransportStepModel,
> {
    let plan = track_plan(request.enable_audio);
    seq![TransportStepModel::CreateSession] + Seq::new(
        plan.len(),
        |i: int| TransportStepModel::AddTrack { track: plan[i] },
    ) + (if request.enable_microphone_input {
        seq![TransportStepModel::RegisterInboundTrack]
    } else {
        Seq::empty()
    }) + seq![
        TransportStepModel::RegisterIceHandler,
        TransportStepModel::SetRemoteDescription { sdp },
        TransportStepModel::CreateAnswer,
        TransportStepModel::SetLocalDescription,
    ]
}

/// The steps that set up the transport session for `config` and the offer
/// `sdp`.
pub fn plan_transport(config: &PipelineConfig, sdp: &str) -> (script: Vec<TransportStep>)
    ensures
        steps(script@) == transport_script(config@, sdp@),
{
    let mut script: Vec<TransportStep> = Vec::new();
    script.push(TransportStep::CreateSession);
    script.push(
        TransportStep::AddTrack {
            track: create_webrtc_track("video", "desktop-video", "video/VP8"),
        },
    );
    if config.enable_audio {
        script.push(
            TransportStep::AddTrack {
                track: create_webrtc_track("audio", "desktop-audio", "audio/opus"),
            },
        );
    }
    if config.enable_microphone_input {
        script.push(TransportStep::RegisterInboundTrack);
    }
    script.push(TransportStep::RegisterIceHandler);
    script.push(TransportStep::SetRemoteDescription { sdp: String::from_str(sdp) });
    script.push(TransportStep::CreateAnswer);
    script.push(TransportStep::SetLocalDescription);
    assert(steps(script@) =~= transport_script(config@, sdp@));
    script
}

/// Where a peer's session stands.
#[derive(Debug, Clone, Copy, PartialEq, Eq, Structural)]
pub enum SessionPhase {
    /// No offer was taken up yet.
    AwaitingOffer,
    /// An offer is being served.
    Negotiating,
    /// The session is live: a graph runs and a transport session exists.
    Active,
    /// The session has ended, by failure or because the peer left.
    Closed,
}

/// What a negotiation is waiting for.
#[derive(Debug, Clone, Copy, PartialEq, Eq, Structural)]
pub enum Stage {
    /// Nothing: no negotiation is under way.
    Rest,
    /// The capture broker, for a surface handle.
    Surface,
    /// The media engine, for a running graph.
    Pipeline,
    /// The transport library, for the session and its answer.
    Transport,
}

/// What happened on a connection.
#[derive(Debug)]
pub enum SessionEvent {
    /// The peer sent an offer.
    Offer { sdp: String, config: PipelineConfig },
    /// The peer sent a connectivity candidate.
    IceCandidate { candidate: String },
    /// The peer sent a message that asks nothing of the orchestrator.
    Unhandled,
    /// The peer sent what could not be decoded.
    Undecodable { error: String },
    /// The signaling channel closed, or the process shuts down.
    ChannelClosed,
    /// The capture broker gave a surface.
    SurfaceGranted { node_id: u32 },
    /// The capture broker gave none.
    SurfaceDenied { message: String },
    /// The media engine answered.
    Engine { event: EngineEvent },
    /// The transport library did the step.
    StepDone,
    /// The transport library made this answer.
    AnswerCreated { sdp: String },
    /// The transport library failed at the step.
    StepFailed { message: String },
    /// The answer went out to the peer.
    Sent,
    /// The answer could not be sent: the peer is gone.
    SendFailed,
}

/// An event as a mathematical value.
pub enum SessionEventModel {
    Offer { sdp: Seq<char>, request: PipelineRequest },
    IceCandidate { candidate: Seq<char> },
    Unhandled,
    Undecodable { error: Seq<char> },
    ChannelClosed,
    SurfaceGranted { node_id: u32 },
    SurfaceDenied { message: Seq<char> },
    Engine { event: EngineEventModel },
    StepDone,
    AnswerCreated { sdp: Seq<char> },
    StepFailed { message: Seq<char> },
    Sent,
    SendFailed,
}

impl View for SessionEvent {
    type V = SessionEventModel;

    open spec fn view(&self) -> SessionEventModel {
        match self {
            SessionEvent::Offer { sdp, config } => SessionEventModel::Offer {
                sdp: sdp@,
                request: config@,
            },
            SessionEvent::IceCandidate { candidate } => SessionEventModel::IceCandidate {
                candidate: candidate@,
            },
            SessionEvent::Unhandled => SessionEventModel::Unhandled,
            SessionEvent::Undecodable { error } => SessionEventModel::Undecodable {
                error: error@,
            },
            SessionEvent::ChannelClosed => SessionEventModel::ChannelClosed,
            SessionEvent::SurfaceGranted { node_id } => SessionEventModel::SurfaceGranted {
                node_id: *node_id,
            },
            SessionEvent::SurfaceDenied { message } => SessionEventModel::SurfaceDenied {
                message: message@,
            },
            SessionEvent::Engine { event } => SessionEventModel::Engine { event: event@ },
            SessionEvent::StepDone => SessionEventModel::StepDone,
            SessionEvent::AnswerCreated { sdp } => SessionEventModel::AnswerCreated { sdp: sdp@ },
            SessionEvent::StepFailed { message } => SessionEventModel::StepFailed {
                message: message@,
            },
            SessionEvent::Sent => SessionEventModel::Sent,
            SessionEvent::SendFailed => SessionEventModel::SendFailed,
        }
    }
}

impl SessionEvent {
    /// The event that a decoded message of the peer stands for: an offer, a
    /// candidate, or a message that asks nothing of the orchestrator.
    pub fn from_signal(message: SignalMessage) -> (event: SessionEvent)
        ensures
            event@ == match message {
                SignalMessage::Offer { sdp, config } => SessionEventModel::Offer {
                    sdp: sdp@,
                    request: config@,
                },
                SignalMessage::IceCandidate { candidate } => SessionEventModel::IceCandidate {
                    candidate: candidate@,
                },
                _ => SessionEventModel::Unhandled,
            },
    {
        match message {
            SignalMessage::Offer { sdp, config } => SessionEvent::Offer { sdp, config },
            SignalMessage::IceCandidate { candidate } => SessionEvent::IceCandidate { candidate },
            _ => SessionEvent::Unhandled,
        }
    }
}

/// What the orchestrator wants done.
#[derive(Debug)]
pub enum SessionAction {
    /// Send the answer to the peer and report whether it went out.
    SendAnswer { sdp: String },
    /// Send an error notice to the peer; whether it goes out does not matter.
    SendError { message: String },
    /// Stop the peer's graph instance; the outcome does not matter.
    StopPipeline,
    /// Close the peer's transport session; the outcome does not matter.
    CloseTransport,
    /// Give the capture surface back to the broker; the outcome does not
    /// matter.
    ReleaseSurface,
    /// Ask the capture broker for a surface and report.
    AcquireSurface,
    /// Ask this of the media engine and report.
    Engine { action: LadderAction },
    /// Ask this of the transport library and report.
    Transport { step: TransportStep },
    /// Hand this candidate to the transport session; the outcome does not
    /// matter.
    AddIceCandidate { candidate: IceCandidateInit },
}

/// An action as a mathematical value.
pub enum SessionActionModel {
    SendAnswer { sdp: Seq<char> },
    SendError { message: Seq<char> },
    StopPipeline,
    CloseTransport,
    ReleaseSurface,
    AcquireSurface,
    Engine { action: LadderActionModel },
    Transport { step: TransportStepModel },
    AddIceCandidate { candidate: IceCandidateModel },
}

impl View for SessionAction {
    type V = SessionActionModel;

    open spec fn view(&self) -> SessionActionModel {
        match self {
            SessionAction::SendAnswer { sdp } => SessionActionModel::SendAnswer { sdp: sdp@ },
            SessionAction::SendError { message } => SessionActionModel::SendError {
                message: message@,
            },
            SessionAction::StopPipeline => SessionActionModel::StopPipeline,
            SessionAction::CloseTransport => SessionActionModel::CloseTransport,
            SessionAction::ReleaseSurface => SessionActionModel::ReleaseSurface,
            SessionAction::AcquireSurface => SessionActionModel::AcquireSurface,
            SessionAction::Engine { action } => SessionActionModel::Engine { action: action@ },
            SessionAction::Transport { step } => SessionActionModel::Transport { step: step@ },
            SessionAction::AddIceCandidate { candidate } => SessionActionModel::AddIceCandidate {
                candidate: candidate@,
            },
        }
    }
}

/// The actions that a list holds.
pub open spec fn actions(list: Seq<SessionAction>) -> Seq<SessionActionModel> {
    Seq::new(list.len(), |i: int| list[i]@)
}

/// The orchestrator of one connection as a mathematical value.
pub struct SessionModel {
    pub peer: PeerId,
    pub phase: SessionPhase,
    /// Whether the signaling channel is still there.
    pub channel_open: bool,
    pub stage: Stage,
    /// The request of the offer that is being served.
    pub request: Option<PipelineRequest>,
    /// The session description of that offer.
    pub sdp: Seq<char>,
    pub ladder: Option<LadderModel>,
    pub script: Seq<TransportStepModel>,
    pub position: nat,
    pub answer: Option<Seq<char>>,
    /// A graph instance runs for this peer.
    pub holds_pipeline: bool,
    /// A transport session exists for this peer.
    pub holds_transport: bool,
    /// A capture surface of the broker is held for this peer.
    pub holds_surface: bool,
    /// The answer is on its way to the peer.
    pub sending_answer: bool,
}

/// What a step of the orchestrator comes to.
pub struct Outcome {
    pub session: SessionModel,
    pub peers: Map<PeerId, PeerModel>,
    pub actions: Seq<SessionActionModel>,
}

/// The notice that a negotiation failed for `cause`.
pub open spec fn negotiation_error(cause: Seq<char>) -> Seq<char> {
    "Erro ao criar conex\u{e3}o: "@ + cause
}

/// The notice that a message could not be decoded.
pub open spec fn decode_error(error: Seq<char>) -> Seq<char> {
    "Erro ao decodificar mensagem: "@ + error
}

/// The notice that a portal surface was asked for where none can be had.
pub open spec fn no_surface_error() -> Seq<char> {
    "Portal source requested but no capture surface is available in this session"@
}

/// The request asks for the portal surface and the session has none to give.
pub open spec fn surface_unavailable(source_type: Seq<char>, shared: SharedModel) -> bool {
    is_portal_source(source_type) && !wants_portal(
        source_type,
        shared.session_type,
        shared.has_portal,
    )
}

/// The notice that the broker gave no surface.
pub open spec fn surface_error(message: Seq<char>) -> Seq<char> {
    "Failed to get PipeWire node ID: "@ + message
}

impl SessionModel {
    /// The orchestrator of a new connection.
    pub open spec fn fresh(peer: PeerId) -> SessionModel {
        SessionModel {
            peer,
            phase: SessionPhase::AwaitingOffer,
            channel_open: true,
            stage: Stage::Rest,
            request: None,
            sdp: Seq::empty(),
            ladder: None,
            script: Seq::empty(),
            position: 0,
            answer: None,
            holds_pipeline: false,
            holds_transport: false,
            holds_surface: false,
            sending_answer: false,
        }
    }

    /// The parts of the state fit together.
    pub open spec fn wf(self) -> bool {
        &&& self.phase == SessionPhase::Negotiating <==> self.stage != Stage::Rest
        &&& self.phase == SessionPhase::Negotiating ==> self.request is Some && self.channel_open
        &&& self.stage == Stage::Surface ==> !self.holds_pipeline && !self.holds_transport
            && !self.holds_surface
        &&& self.stage == Stage::Pipeline ==> {
            &&& self.ladder is Some
            &&& self.ladder->0.wf()
            &&& self.ladder->0.phase != LadderPhase::Running
            &&& self.ladder->0.phase != LadderPhase::Exhausted
            &&& !self.holds_pipeline
            &&& !self.holds_transport
        }
        &&& self.stage == Stage::Transport ==> {
            &&& self.ladder is Some
            &&& self.ladder->0.wf()
            &&& self.ladder->0.phase == LadderPhase::Running
            &&& self.holds_pipeline
            &&& self.script.len() >= 2
            &&& self.script[self.script.len() - 2] is CreateAnswer
            &&& self.position < self.script.len()
            &&& self.position + 1 == self.script.len() ==> self.answer is Some
        }
        &&& self.phase == SessionPhase::Active ==> self.holds_pipeline && self.holds_transport
            && self.channel_open
        &&& (self.phase == SessionPhase::AwaitingOffer || self.phase == SessionPhase::Closed)
            ==> !self.holds_pipeline && !self.holds_transport && !self.holds_surface
        &&& self.sending_answer ==> self.phase == SessionPhase::Active
    }

    /// A graph instance exists for this peer, running or on its way.
    pub open spec fn pipeline_live(self) -> bool {
        self.holds_pipeline || (self.stage == Stage::Pipeline && self.ladder is Some
            && self.ladder->0.has_instance())
    }

    /// What lets go of everything the peer holds: the graph first, then the
    /// transport session, then the capture surface.
    pub open spec fn release(self) -> Seq<SessionActionModel> {
        (if self.pipeline_live() {
            seq![SessionActionModel::StopPipeline]
        } else {
            Seq::empty()
        }) + (if self.holds_transport {
            seq![SessionActionModel::CloseTransport]
        } else {
            Seq::empty()
        }) + (if self.holds_surface {
            seq![SessionActionModel::ReleaseSurface]
        } else {
            Seq::empty()
        })
    }

    /// The session ended, holding nothing.
    pub open spec fn ended(self, channel_open: bool) -> SessionModel {
        SessionModel {
            peer: self.peer,
            phase: SessionPhase::Closed,
            channel_open,
            ..SessionModel::fresh(self.peer)
        }
    }

    /// The negotiation fails for `cause`: everything held is let go, the peer
    /// is told, and the channel stays for another offer.
    pub open spec fn fail(self, peers: Map<PeerId, PeerModel>, cause: Seq<char>) -> Outcome {
        Outcome {
            session: self.ended(true),
            peers: peers.remove(self.peer),
            actions: self.release().push(
                SessionActionModel::SendError { message: negotiation_error(cause) },
            ),
        }
    }

    /// The peer is gone: everything held is let go and nothing more is said.
    pub open spec fn teardown(self, peers: Map<PeerId, PeerModel>) -> Outcome {
        Outcome {
            session: self.ended(false),
            peers: peers.remove(self.peer),
            actions: self.release(),
        }
    }

    /// Nothing changes and nothing is asked.
    pub open spec fn ignore(self, peers: Map<PeerId, PeerModel>) -> Outcome {
        Outcome { session: self, peers, actions: Seq::empty() }
    }

    /// The negotiation turns to the media engine, with the surface handle
    /// `node_id` where the broker gave one.
    pub open spec fn begin_pipeline(self, shared: SharedModel, threads: nat, node_id: Option<u32>)
        -> Outcome {
        let request = self.request->0;
        let graphs = candidate_graphs(
            request,
            shared.hw_info,
            node_id,
            shared.monitor(),
            threads,
        );
        let ladder = LadderModel::start(graphs, request.enable_audio);
        if graphs.len() == 0 {
            self.fail(shared.peers, failure_message(ladder.attempts(), ladder.last_error))
        } else {
            Outcome {
                session: SessionModel { stage: Stage::Pipeline, ladder: Some(ladder), ..self },
                peers: shared.peers,
                actions: seq![SessionActionModel::Engine { action: ladder.pending() }],
            }
        }
    }

    /// An offer arrives while no negotiation is under way. It is refused, and
    /// changes nothing, where its session description cannot be read, and
    /// where it asks for the portal surface in a session that has none to
    /// give. Else what the peer holds from an earlier offer is let go first,
    /// and the negotiation begins: with the broker where the request asks for
    /// the portal surface, with the media engine otherwise.
    pub open spec fn on_offer(
        self,
        shared: SharedModel,
        threads: nat,
        sdp: Seq<char>,
        request: PipelineRequest,
    ) -> Outcome {
        if !offer_parses(sdp) {
            Outcome {
                session: self,
                peers: shared.peers,
                actions: seq![
                    SessionActionModel::SendError { message: "Failed to parse client offer"@ },
                ],
            }
        } else if surface_unavailable(request.source_type, shared) {
            Outcome {
                session: self,
                peers: shared.peers,
                actions: seq![SessionActionModel::SendError { message: no_surface_error() }],
            }
        } else {
            let base = SessionModel {
                phase: SessionPhase::Negotiating,
                stage: Stage::Surface,
                request: Some(request),
                sdp,
                ..SessionModel::fresh(self.peer)
            };
            let cleared = SharedModel { peers: shared.peers.remove(self.peer), ..shared };
            let next = if wants_portal(request.source_type, shared.session_type, shared.has_portal) {
                Outcome {
                    session: base,
                    peers: cleared.peers,
                    actions: seq![SessionActionModel::AcquireSurface],
                }
            } else {
                base.begin_pipeline(cleared, threads, None)
            };
            Outcome { actions: self.release() + next.actions, ..next }
        }
    }

    /// The media engine answers during a negotiation.
    pub open spec fn on_engine(self, shared: SharedModel, event: EngineEventModel) -> Outcome {
        let ladder = self.ladder->0.after(event);
        let moved = SessionModel { ladder: Some(ladder), ..self };
        if ladder.phase == LadderPhase::Running {
            let script = transport_script(self.request->0, self.sdp);
            Outcome {
                session: SessionModel {
                    stage: Stage::Transport,
                    holds_pipeline: true,
                    script,
                    position: 0,
                    answer: None,
                    ..moved
                },
                peers: shared.peers,
                actions: seq![SessionActionModel::Transport { step: script[0] }],
            }
        } else if ladder.phase == LadderPhase::Exhausted {
            moved.fail(shared.peers, failure_message(ladder.attempts(), ladder.last_error))
        } else {
            Outcome {
                session: moved,
                peers: shared.peers,
                actions: seq![SessionActionModel::Engine { action: ladder.pending() }],
            }
        }
    }

    /// The holdings that the registry records for this session once it is
    /// live.
    pub open spec fn holdings(self) -> PeerModel {
        let ladder = self.ladder->0;
        let graph = ladder.candidates[ladder.index as int];
        PeerModel {
            pipeline_label: graph.label,
            encoder: graph.encoder,
            tracks: track_plan(self.request->0.enable_audio).len(),
        }
    }

    /// A step of the transport script is done. After the last one the session
    /// is live: the registry records it and the answer goes out.
    pub open spec fn step_done(self, shared: SharedModel, answer: Option<Seq<char>>) -> Outcome {
        let moved = SessionModel {
            holds_transport: true,
            answer: if answer is Some {
                answer
            } else {
                self.answer
            },
            ..self
        };
        if self.position + 1 < self.script.len() {
            Outcome {
                session: SessionModel { position: self.position + 1, ..moved },
                peers: shared.peers,
                actions: seq![
                    SessionActionModel::Transport { step: self.script[self.position as int + 1] },
                ],
            }
        } else {
            Outcome {
                session: SessionModel {
                    phase: SessionPhase::Active,
                    stage: Stage::Rest,
                    sending_answer: true,
                    ..moved
                },
                peers: shared.peers.insert(self.peer, self.holdings()),
                actions: seq![SessionActionModel::SendAnswer { sdp: moved.answer->0 }],
            }
        }
    }

    /// The transport library answers during a negotiation. The answer to the
    /// request for an answer is the answer itself; to every other step, that it
    /// is done.
    pub open spec fn on_transport(self, shared: SharedModel, event: SessionEventModel) -> Outcome {
        let step = self.script[self.position as int];
        match event {
            SessionEventModel::StepDone => if step is CreateAnswer {
                self.ignore(shared.peers)
            } else {
                self.step_done(shared, None)
            },
            SessionEventModel::AnswerCreated { sdp } => if step is CreateAnswer {
                self.step_done(shared, Some(sdp))
            } else {
                self.ignore(shared.peers)
            },
            SessionEventModel::StepFailed { message } => self.fail(shared.peers, message),
            _ => self.ignore(shared.peers),
        }
    }

    /// A candidate of the peer arrives: it goes to the transport session where
    /// the peer has a live session and the text denotes a candidate.
    pub open spec fn on_candidate(self, shared: SharedModel, candidate: Seq<char>) -> Outcome {
        if self.phase == SessionPhase::Active && shared.peers.contains_key(self.peer) {
            match ice_candidate_of(candidate) {
                Some(init) => Outcome {
                    session: self,
                    peers: shared.peers,
                    actions: seq![SessionActionModel::AddIceCandidate { candidate: init }],
                },
                None => self.ignore(shared.peers),
            }
        } else {
            self.ignore(shared.peers)
        }
    }

    /// What a step of the orchestrator comes to: the state that follows
    /// `event`, the registry that follows, and what is to be done, in order.
    /// Of the actions only the last can be one that is to be reported on.
    pub open spec fn after(self, shared: SharedModel, threads: nat, event: SessionEventModel)
        -> Outcome {
        if !self.channel_open {
            self.ignore(shared.peers)
        } else if event is ChannelClosed {
            self.teardown(shared.peers)
        } else if self.phase == SessionPhase::Negotiating {
            match self.stage {
                Stage::Surface => match event {
                    SessionEventModel::SurfaceGranted { node_id } => (SessionModel {
                        holds_surface: true,
                        ..self
                    }).begin_pipeline(shared, threads, Some(node_id)),
                    SessionEventModel::SurfaceDenied { message } => self.fail(
                        shared.peers,
                        surface_error(message),
                    ),
                    _ => self.ignore(shared.peers),
                },
                Stage::Pipeline => match event {
                    SessionEventModel::Engine { event } => self.on_engine(shared, event),
                    _ => self.ignore(shared.peers),
                },
                Stage::Transport => self.on_transport(shared, event),
                Stage::Rest => self.ignore(shared.peers),
            }
        } else if self.sending_answer {
            match event {
                SessionEventModel::Sent => Outcome {
                    session: SessionModel { sending_answer: false, ..self },
                    peers: shared.peers,
                    actions: Seq::empty(),
                },
                SessionEventModel::SendFailed => self.teardown(shared.peers),
                _ => self.ignore(shared.peers),
            }
        } else {
            match event {
                SessionEventModel::Offer { sdp, request } => self.on_offer(
                    shared,
                    threads,
                    sdp,
                    request,
                ),
                SessionEventModel::IceCandidate { candidate } => self.on_candidate(
                    shared,
                    candidate,
                ),
                SessionEventModel::Undecodable { error } => Outcome {
                    session: self,
                    peers: shared.peers,
                    actions: seq![SessionActionModel::SendError { message: decode_error(error) }],
                },
                _ => self.ignore(shared.peers),
            }
        }
    }
}

/// Of what all connections share, nothing but the registry of peers differs
/// between `before` and `after`: the encoders, the session, and the virtual
/// audio endpoints are the same.
pub open spec fn only_peers_changed(before: AppState, after: AppState) -> bool {
    &&& after.hw_info == before.hw_info
    &&& after.session_type == before.session_type
    &&& after.has_portal == before.has_portal
    &&& after.virtual_audio == before.virtual_audio
}

/// The request that an optional capture request holds.
pub open spec fn option_request(config: Option<PipelineConfig>) -> Option<PipelineRequest> {
    match config {
        Some(c) => Some(c@),
        None => None,
    }
}

/// The ladder that an optional ladder holds.
pub open spec fn option_ladder(ladder: Option<PipelineLadder>) -> Option<LadderModel> {
    match ladder {
        Some(l) => Some(l@),
        None => None,
    }
}

/// The orchestrator of one connection.
#[derive(Debug)]
pub struct SessionOrchestrator {
    pub peer_id: PeerId,
    pub phase: SessionPhase,
    pub channel_open: bool,
    pub stage: Stage,
    pub config: Option<PipelineConfig>,
    pub sdp: String,
    pub ladder: Option<PipelineLadder>,
    pub script: Vec<TransportStep>,
    pub position: usize,
    pub answer: Option<String>,
    pub holds_pipeline: bool,
    pub holds_transport: bool,
    pub holds_surface: bool,
    pub sending_answer: bool,
}

impl View for SessionOrchestrator {
    type V = SessionModel;

    open spec fn view(&self) -> SessionModel {
        SessionModel {
            peer: self.peer_id,
            phase: self.phase,
            channel_open: self.channel_open,
            stage: self.stage,
            request: option_request(self.config),
            sdp: self.sdp@,
            ladder: option_ladder(self.ladder),
            script: steps(self.script@),
            position: self.position as nat,
            answer: option_text(self.answer),
            holds_pipeline: self.holds_pipeline,
            holds_transport: self.holds_transport,
            holds_surface: self.holds_surface,
            sending_answer: self.sending_answer,
        }
    }
}

/// Whatever happens, the parts of the orchestrator's state keep fitting
/// together.
pub proof fn lemma_after_preserves_wf(
    session: SessionModel,
    shared: SharedModel,
    threads: nat,
    event: SessionEventModel,
)
    requires
        session.wf(),
    ensures
        session.after(shared, threads, event).session.wf(),
        session.after(shared, threads, event).session.peer == session.peer,
{
    let out = session.after(shared, threads, event);
    if session.channel_open && !(event is ChannelClosed) && session.phase
        == SessionPhase::Negotiating {
        match session.stage {
            Stage::Pipeline => {
                if let SessionEventModel::Engine { event } = event {
                    let script = transport_script(session.request->0, session.sdp);
                    assert(script.len() >= 6);
                }
            },
            Stage::Transport => {},
            _ => {},
        }
    }
}

fn push_action(list: &mut Vec<SessionAction>, action: SessionAction)
    ensures
        actions(final(list)@) == actions(old(list)@).push(action@),
{
    list.push(action);
    assert(actions(list@) =~= actions(old(list)@).push(action@));
}

/// `Uuid::new_v4` of the `uuid` crate draws an identifier at random; it is
/// handed on as the number that it is.
#[verifier::external_body]
fn random_peer_id() -> (id: PeerId) {
    uuid::Uuid::new_v4().as_u128()
}

impl SessionOrchestrator {
    /// The orchestrator of a new connection, for a peer with an identity drawn
    /// at random.
    pub fn connect() -> (session: Self)
        ensures
            session@ == SessionModel::fresh(session.peer_id),
            session@.wf(),
    {
        SessionOrchestrator::new(random_peer_id())
    }

    /// The orchestrator of a new connection of the peer `peer_id`.
    pub fn new(peer_id: PeerId) -> (session: Self)
        ensures
            session@ == SessionModel::fresh(peer_id),
            session@.wf(),
    {
        let session = SessionOrchestrator {
            peer_id,
            phase: SessionPhase::AwaitingOffer,
            channel_open: true,
            stage: Stage::Rest,
            config: None,
            sdp: String::new(),
            ladder: None,
            script: Vec::new(),
            position: 0,
            answer: None,
            holds_pipeline: false,
            holds_transport: false,
            holds_surface: false,
            sending_answer: false,
        };
        assert(session@.script =~= Seq::<TransportStepModel>::empty());
        session
    }

    /// Whether the parts of the state fit together. They do in every state
    /// that `new` and `step` bring about.
    pub fn is_well_formed(&self) -> (ok: bool)
        ensures
            ok == self@.wf(),
    {
        let negotiating = self.phase == SessionPhase::Negotiating;
        let resting = self.stage == Stage::Rest;
        if negotiating == resting {
            return false;
        }
        if negotiating && (self.config.is_none() || !self.channel_open) {
            return false;
        }
        let stage_ok = match self.stage {
            Stage::Rest => true,
            Stage::Surface => !self.holds_pipeline && !self.holds_transport && !self.holds_surface,
            Stage::Pipeline => match &self.ladder {
                Some(ladder) => ladder.is_well_formed() && !ladder.is_finished()
                    && !self.holds_pipeline && !self.holds_transport,
                None => false,
            },
            Stage::Transport => match &self.ladder {
                Some(ladder) => {
                    let count = self.script.len();
                    ladder.is_well_formed() && ladder.phase == LadderPhase::Running
                        && self.holds_pipeline && count >= 2 && self.position < count && (
                    match &self.script[count - 2] {
                        TransportStep::CreateAnswer => true,
                        _ => false,
                    }) && (self.position + 1 != count || self.answer.is_some())
                },
                None => false,
            },
        };
        let idle = self.phase == SessionPhase::AwaitingOffer || self.phase == SessionPhase::Closed;
        stage_ok && (self.phase != SessionPhase::Active || (self.holds_pipeline
            && self.holds_transport && self.channel_open)) && (!idle || (!self.holds_pipeline
            && !self.holds_transport && !self.holds_surface)) && (!self.sending_answer || self.phase
            == SessionPhase::Active)
    }

    /// What lets go of everything the peer holds.
    fn release(&self) -> (list: Vec<SessionAction>)
        ensures
            actions(list@) == self@.release(),
    {
        let mut list: Vec<SessionAction> = Vec::new();
        let live = self.holds_pipeline || (self.stage == Stage::Pipeline && match &self.ladder {
            Some(ladder) => ladder.phase != LadderPhase::Parsing && ladder.phase
                != LadderPhase::Exhausted,
            None => false,
        });
        if live {
            push_action(&mut list, SessionAction::StopPipeline);
        }
        if self.holds_transport {
            push_action(&mut list, SessionAction::CloseTransport);
        }
        if self.holds_surface {
            push_action(&mut list, SessionAction::ReleaseSurface);
        }
        assert(actions(list@) =~= self@.release());
        list
    }

    fn end(&mut self, channel_open: bool)
        ensures
            final(self)@ == old(self)@.ended(channel_open),
    {
        self.phase = SessionPhase::Closed;
        self.channel_open = channel_open;
        self.stage = Stage::Rest;
        self.config = None;
        self.sdp = String::new();
        self.ladder = None;
        self.script = Vec::new();
        self.position = 0;
        self.answer = None;
        self.holds_pipeline = false;
        self.holds_transport = false;
        self.holds_surface = false;
        self.sending_answer = false;
        assert(self@.script =~= Seq::<TransportStepModel>::empty());
    }

    fn fail(&mut self, state: &mut AppState, cause: &str) -> (list: Vec<SessionAction>)
        ensures
            final(self)@ == old(self)@.fail(old(state)@.peers, cause@).session,
            final(state)@ == (SharedModel {
                peers: old(self)@.fail(old(state)@.peers, cause@).peers,
                ..old(state)@
            }),
            only_peers_changed(*old(state), *final(state)),
            actions(list@) == old(self)@.fail(old(state)@.peers, cause@).actions,
    {
        let mut list = self.release();
        let mut message = String::from_str("Erro ao criar conex\u{e3}o: ");
        message.append(cause);
        push_action(&mut list, SessionAction::SendError { message });
        state.peers.remove(self.peer_id);
        self.end(true);
        list
    }

    fn teardown(&mut self, state: &mut AppState) -> (list: Vec<SessionAction>)
        ensures
            final(self)@ == old(self)@.teardown(old(state)@.peers).session,
            final(state)@ == (SharedModel {
                peers: old(self)@.teardown(old(state)@.peers).peers,
                ..old(state)@
            }),
            only_peers_changed(*old(state), *final(state)),
            actions(list@) == old(self)@.teardown(old(state)@.peers).actions,
    {
        let list = self.release();
        state.peers.remove(self.peer_id);
        self.end(false);
        list
    }

    fn begin_pipeline(
        &mut self,
        state: &mut AppState,
        factory: &PipelineFactory,
        node_id: Option<u32>,
    ) -> (list: Vec<SessionAction>)
        requires
            old(self).config is Some,
        ensures
            ({
                let out = old(self)@.begin_pipeline(old(state)@, factory.threads as nat, node_id);
                &&& final(self)@ == out.session
                &&& final(state)@ == (SharedModel { peers: out.peers, ..old(state)@ })
                &&& only_peers_changed(*old(state), *final(state))
                &&& actions(list@) == out.actions
            }),
    {
        let (ladder, first) = match &self.config {
            Some(config) => factory.create_pipeline(
                config,
                &state.hw_info,
                node_id,
                state.virtual_audio.as_ref(),
            ),
            None => PipelineLadder::new(Vec::new(), false),
        };
        match ladder.failure() {
            Some(error) => {
                let cause = error.message();
                self.fail(state, cause.as_str())
            },
            None => {
                self.stage = Stage::Pipeline;
                self.ladder = Some(ladder);
                let mut list: Vec<SessionAction> = Vec::new();
                push_action(&mut list, SessionAction::Engine { action: first });
                assert(actions(list@) =~= seq![
                    SessionActionModel::Engine { action: ladder@.pending() },
                ]);
                list
            },
        }
    }

    fn on_offer(
        &mut self,
        state: &mut AppState,
        factory: &PipelineFactory,
        sdp: String,
        config: PipelineConfig,
    ) -> (list: Vec<SessionAction>)
        ensures
            ({
                let out = old(self)@.on_offer(
                    old(state)@,
                    factory.threads as nat,
                    sdp@,
                    config@,
                );
                &&& final(self)@ == out.session
                &&& final(state)@ == (SharedModel { peers: out.peers, ..old(state)@ })
                &&& only_peers_changed(*old(state), *final(state))
                &&& actions(list@) == out.actions
            }),
    {
        let mut list: Vec<SessionAction> = Vec::new();
        if !offer_is_well_formed(sdp.as_str()) {
            push_action(
                &mut list,
                SessionAction::SendError {
                    message: String::from_str("Failed to parse client offer"),
                },
            );
            assert(actions(list@) =~= seq![
                SessionActionModel::SendError { message: "Failed to parse client offer"@ },
            ]);
            assert(state@ == (SharedModel { peers: state@.peers, ..state@ }));
            return list;
        }
        let portal_source = str_eq(config.source_type.as_str(), "wayland-portal");
        let portal = portal_source && state.has_portal && str_eq(
            state.session_type.as_str(),
            "wayland",
        );
        if portal_source && !portal {
            push_action(
                &mut list,
                SessionAction::SendError {
                    message: String::from_str(
                        "Portal source requested but no capture surface is available in this session",
                    ),
                },
            );
            assert(actions(list@) =~= seq![
                SessionActionModel::SendError { message: no_surface_error() },
            ]);
            assert(state@ == (SharedModel { peers: state@.peers, ..state@ }));
            return list;
        }
        let mut list = self.release();
        let ghost released = actions(list@);
        state.peers.remove(self.peer_id);
        self.end(true);
        self.phase = SessionPhase::Negotiating;
        self.stage = Stage::Surface;
        self.config = Some(config);
        self.sdp = sdp;
        if portal {
            push_action(&mut list, SessionAction::AcquireSurface);
            assert(actions(list@) =~= released + seq![SessionActionModel::AcquireSurface]);
        } else {
            let mut next = self.begin_pipeline(state, factory, None);
            let ghost begun = actions(next@);
            list.append(&mut next);
            assert(actions(list@) =~= released + begun);
        }
        list
    }

    fn on_engine(&mut self, state: &mut AppState, event: EngineEvent) -> (list: Vec<SessionAction>)
        requires
            old(self)@.wf(),
            old(self).stage == Stage::Pipeline,
        ensures
            ({
                let out = old(self)@.on_engine(old(state)@, event@);
                &&& final(self)@ == out.session
                &&& final(state)@ == (SharedModel { peers: out.peers, ..old(state)@ })
                &&& only_peers_changed(*old(state), *final(state))
                &&& actions(list@) == out.actions
            }),
    {
        let mut list: Vec<SessionAction> = Vec::new();
        let mut ladder = match self.ladder.take() {
            Some(ladder) => ladder,
            None => {
                return list;
            },
        };
        let action = ladder.step(event);
        let phase = ladder.phase;
        let failure = ladder.failure();
        self.ladder = Some(ladder);
        if phase == LadderPhase::Running {
            let script = match &self.config {
                Some(config) => plan_transport(config, self.sdp.as_str()),
                None => Vec::new(),
            };
            assert(steps(script@).len() >= 6) by {
                assert(steps(script@) == transport_script(self@.request->0, self@.sdp));
            }
            let first = script[0].clone();
            self.stage = Stage::Transport;
            self.holds_pipeline = true;
            self.script = script;
            self.position = 0;
            self.answer = None;
            push_action(&mut list, SessionAction::Transport { step: first });
            assert(actions(list@) =~= seq![
                SessionActionModel::Transport { step: steps(self.script@)[0] },
            ]);
            assert(state@ == (SharedModel { peers: state@.peers, ..state@ }));
            list
        } else {
            match failure {
                Some(error) => {
                    let cause = error.message();
                    self.fail(state, cause.as_str())
                },
                None => {
                    push_action(&mut list, SessionAction::Engine { action });
                    assert(actions(list@) =~= seq![SessionActionModel::Engine { action: action@ }]);
                    assert(state@ == (SharedModel { peers: state@.peers, ..state@ }));
                    list
                },
            }
        }
    }

    fn step_done(&mut self, state: &mut AppState, answer: Option<String>) -> (list: Vec<
        SessionAction,
    >)
        requires
            old(self)@.wf(),
            old(self).stage == Stage::Transport,
            old(self)@.position + 1 == old(self)@.script.len() ==> (answer is Some || old(
                self,
            ).answer is Some),
        ensures
            ({
                let out = old(self)@.step_done(old(state)@, option_text(answer));
                &&& final(self)@ == out.session
                &&& final(state)@ == (SharedModel { peers: out.peers, ..old(state)@ })
                &&& only_peers_changed(*old(state), *final(state))
                &&& actions(list@) == out.actions
            }),
    {
        let mut list: Vec<SessionAction> = Vec::new();
        self.holds_transport = true;
        match answer {
            Some(sdp) => {
                self.answer = Some(sdp);
            },
            None => {},
        }
        let count = self.script.len();
        if self.position + 1 < count {
            self.position = self.position + 1;
            let next = self.script[self.position].clone();
            push_action(&mut list, SessionAction::Transport { step: next });
            assert(actions(list@) =~= seq![
                SessionActionModel::Transport { step: steps(self.script@)[self.position as int] },
            ]);
            assert(state@ == (SharedModel { peers: state@.peers, ..state@ }));
            list
        } else {
            let holdings = match (&self.ladder, &self.config) {
                (Some(ladder), Some(config)) => {
                    let graph = &ladder.candidates[ladder.index];
                    PeerState {
                        pipeline_label: graph.label.clone(),
                        encoder: graph.encoder,
                        tracks: if config.enable_audio {
                            2
                        } else {
                            1
                        },
                    }
                },
                _ => PeerState {
                    pipeline_label: String::new(),
                    encoder: crate::media::EncoderPath::Software,
                    tracks: 0,
                },
            };
            assert(holdings@ == old(self)@.holdings());
            state.peers.insert(self.peer_id, holdings);
            self.phase = SessionPhase::Active;
            self.stage = Stage::Rest;
            self.sending_answer = true;
            let sdp = match &self.answer {
                Some(sdp) => sdp.clone(),
                None => String::new(),
            };
            push_action(&mut list, SessionAction::SendAnswer { sdp });
            assert(actions(list@) =~= seq![
                SessionActionModel::SendAnswer { sdp: self@.answer->0 },
            ]);
            list
        }
    }

    /// Takes in what happened on the connection and says what is to be done,
    /// in order. Only the last action of the list can be one to report on; an
    /// empty list, or one that ends otherwise, says: wait for the peer.
    ///
    /// The events of one connection are to be handed over in turn: what the
    /// peer sends is handed over only while nothing is being reported on. An
    /// event that does not fit the moment changes nothing and asks nothing.
    ///
    /// `state` is what all connections share; of it only the registry of peers
    /// is changed. `factory` builds the candidate graphs.
    pub fn step(&mut self, state: &mut AppState, factory: &PipelineFactory, event: SessionEvent)
        -> (list: Vec<SessionAction>)
        requires
            old(self)@.wf(),
        ensures
            ({
                let out = old(self)@.after(old(state)@, factory.threads as nat, event@);
                &&& final(self)@ == out.session
                &&& final(state)@ == (SharedModel { peers: out.peers, ..old(state)@ })
                &&& only_peers_changed(*old(state), *final(state))
                &&& actions(list@) == out.actions
            }),
            final(self)@.wf(),
            final(self).peer_id == old(self).peer_id,
    {
        proof {
            lemma_after_preserves_wf(old(self)@, old(state)@, factory.threads as nat, event@);
            assert(state@ == (SharedModel { peers: state@.peers, ..state@ }));
        }
        let mut list: Vec<SessionAction> = Vec::new();
        assert(actions(list@) =~= Seq::<SessionActionModel>::empty());
        if !self.channel_open {
            return list;
        }
        if let SessionEvent::ChannelClosed = event {
            return self.teardown(state);
        }
        if self.phase == SessionPhase::Negotiating {
            match self.stage {
                Stage::Surface => match event {
                    SessionEvent::SurfaceGranted { node_id } => {
                        self.holds_surface = true;
                        self.begin_pipeline(state, factory, Some(node_id))
                    },
                    SessionEvent::SurfaceDenied { message } => {
                        let mut cause = String::from_str("Failed to get PipeWire node ID: ");
                        cause.append(message.as_str());
                        self.fail(state, cause.as_str())
                    },
                    _ => list,
                },
                Stage::Pipeline => match event {
                    SessionEvent::Engine { event } => self.on_engine(state, event),
                    _ => list,
                },
                Stage::Transport => {
                    let at_answer = match &self.script[self.position] {
                        TransportStep::CreateAnswer => true,
                        _ => false,
                    };
                    match event {
                        SessionEvent::StepDone => {
                            if at_answer {
                                list
                            } else {
                                self.step_done(state, None)
                            }
                        },
                        SessionEvent::AnswerCreated { sdp } => {
                            if at_answer {
                                self.step_done(state, Some(sdp))
                            } else {
                                list
                            }
                        },
                        SessionEvent::StepFailed { message } => self.fail(state, message.as_str()),
                        _ => list,
                    }
                },
                Stage::Rest => list,
            }
        } else if self.sending_answer {
            match event {
                SessionEvent::Sent => {
                    self.sending_answer = false;
                    list
                },
                SessionEvent::SendFailed => self.teardown(state),
                _ => list,
            }
        } else {
            match event {
                SessionEvent::Offer { sdp, config } => self.on_offer(state, factory, sdp, config),
                SessionEvent::IceCandidate { candidate } => {
                    if self.phase == SessionPhase::Active && state.peers.contains(self.peer_id) {
                        match parse_ice_candidate(candidate.as_str()) {
                            Some(init) => {
                                push_action(
                                    &mut list,
                                    SessionAction::AddIceCandidate { candidate: init },
                                );
                                assert(actions(list@) =~= seq![
                                    SessionActionModel::AddIceCandidate { candidate: init@ },
                                ]);
                            },
                            None => {},
                        }
                    }
                    list
                },
                SessionEvent::Undecodable { error } => {
                    let mut message = String::from_str("Erro ao decodificar mensagem: ");
                    message.append(error.as_str());
                    push_action(&mut list, SessionAction::SendError { message });
                    assert(actions(list@) =~= seq![
                        SessionActionModel::SendError { message: decode_error(error@) },
                    ]);
                    list
                },
                _ => list,
            }
        }
    }
}

/// A session becomes live only out of a negotiation, and when it does, exactly
/// one answer goes out and the registry holds the peer. No answer goes out at
/// any other time.
pub proof fn lemma_one_answer_per_session(
    session: SessionModel,
    shared: SharedModel,
    threads: nat,
    event: SessionEventModel,
)
    requires
        session.wf(),
    ensures
        ({
            let out = session.after(shared, threads, event);
            let becomes_live = session.phase != SessionPhase::Active && out.session.phase
                == SessionPhase::Active;
            &&& becomes_live ==> {
                &&& session.phase == SessionPhase::Negotiating
                &&& out.actions.len() == 1
                &&& out.actions[0] is SendAnswer
                &&& out.peers.contains_key(session.peer)
            }
            &&& !becomes_live ==> forall|i: int|
                0 <= i < out.actions.len() ==> !(#[trigger] out.actions[i] is SendAnswer)
        }),
{
    lemma_after_preserves_wf(session, shared, threads, event);
}

/// An offer that reaches a peer with a live session ends that session before
/// the new one begins: the graph is stopped and the transport session closed,
/// each once and before anything is asked for the new session, and the
/// registry lets go of the peer.
pub proof fn lemma_offer_replaces_live_session(
    session: SessionModel,
    shared: SharedModel,
    threads: nat,
    sdp: Seq<char>,
    request: PipelineRequest,
)
    requires
        session.wf(),
        session.phase == SessionPhase::Active,
        !session.sending_answer,
        offer_parses(sdp),
        !surface_unavailable(request.source_type, shared),
    ensures
        ({
            let out = session.after(
                shared,
                threads,
                SessionEventModel::Offer { sdp, request },
            );
            &&& out.actions.len() >= 3
            &&& out.actions[0] == SessionActionModel::StopPipeline
            &&& out.actions[1] == SessionActionModel::CloseTransport
            &&& forall|i: int|
                2 <= i < out.actions.len() ==> #[trigger] out.actions[i]
                    != SessionActionModel::StopPipeline && out.actions[i]
                    != SessionActionModel::CloseTransport
            &&& !out.peers.contains_key(session.peer)
            &&& !out.session.holds_pipeline && !out.session.holds_transport
                && !out.session.holds_surface
        }),
{
}

/// When the signaling channel closes on a live session, the graph is stopped
/// exactly once, the transport session is closed, the capture surface is given
/// back where one is held, and the peer is gone from the registry. Closing
/// again does nothing.
pub proof fn lemma_close_tears_down_once(session: SessionModel, shared: SharedModel, threads: nat)
    requires
        session.wf(),
        session.phase == SessionPhase::Active,
    ensures
        ({
            let out = session.after(shared, threads, SessionEventModel::ChannelClosed);
            let again = out.session.after(
                SharedModel { peers: out.peers, ..shared },
                threads,
                SessionEventModel::ChannelClosed,
            );
            &&& out.actions == if session.holds_surface {
                seq![
                    SessionActionModel::StopPipeline,
                    SessionActionModel::CloseTransport,
                    SessionActionModel::ReleaseSurface,
                ]
            } else {
                seq![SessionActionModel::StopPipeline, SessionActionModel::CloseTransport]
            }
            &&& !out.peers.contains_key(session.peer)
            &&& out.session.phase == SessionPhase::Closed
            &&& again.actions.len() == 0
            &&& again.peers == out.peers
            &&& again.session == out.session
        }),
{
    let out = session.after(shared, threads, SessionEventModel::ChannelClosed);
    if session.holds_surface {
        assert(out.actions =~= seq![
            SessionActionModel::StopPipeline,
            SessionActionModel::CloseTransport,
            SessionActionModel::ReleaseSurface,
        ]);
    } else {
        assert(out.actions =~= seq![
            SessionActionModel::StopPipeline,
            SessionActionModel::CloseTransport,
        ]);
    }
}

/// Whenever a negotiation fails, everything acquired for it is let go: the
/// graph where one exists, the transport session where one was made, and the
/// capture surface where the broker gave one; then the peer is told, once.
pub proof fn lemma_failure_releases_everything(
    session: SessionModel,
    peers: Map<PeerId, PeerModel>,
    cause: Seq<char>,
)
    ensures
        ({
            let out = session.fail(peers, cause);
            &&& out.actions.last() == (SessionActionModel::SendError {
                message: negotiation_error(cause),
            })
            &&& session.pipeline_live() <==> out.actions.contains(
                SessionActionModel::StopPipeline,
            )
            &&& session.holds_transport <==> out.actions.contains(
                SessionActionModel::CloseTransport,
            )
            &&& session.holds_surface <==> out.actions.contains(
                SessionActionModel::ReleaseSurface,
            )
            &&& !out.session.holds_pipeline && !out.session.holds_transport
                && !out.session.holds_surface
            &&& !out.peers.contains_key(session.peer)
        }),
{
    let out = session.fail(peers, cause);
    let released = session.release();
    assert forall|i: int| 0 <= i < out.actions.len() - 1 implies out.actions[i] == released[i] by {}
    if session.pipeline_live() {
        assert(out.actions[0] == SessionActionModel::StopPipeline);
    }
    if session.holds_transport {
        let at = if session.pipeline_live() { 1int } else { 0int };
        assert(out.actions[at] == SessionActionModel::CloseTransport);
    }
    if session.holds_surface {
        let at = released.len() - 1;
        assert(out.actions[at] == SessionActionModel::ReleaseSurface);
    }
}

/// Teardown is safe at any time: whatever state a connection is in, closing it
/// stops the graph at most once and leaves the peer holding nothing and out of
/// the registry, and a second close asks for nothing.
pub proof fn lemma_teardown_is_idempotent(session: SessionModel, shared: SharedModel, threads: nat)
    requires
        session.wf(),
    ensures
        ({
            let out = session.after(shared, threads, SessionEventModel::ChannelClosed);
            let again = out.session.after(
                SharedModel { peers: out.peers, ..shared },
                threads,
                SessionEventModel::ChannelClosed,
            );
            &&& out.actions.len() <= 3
            &&& forall|i: int|
                1 <= i < out.actions.len() ==> #[trigger] out.actions[i]
                    != SessionActionModel::StopPipeline
            &&& session.channel_open ==> !out.peers.contains_key(session.peer)
            &&& !out.session.holds_pipeline && !out.session.holds_transport
                && !out.session.holds_surface
            &&& again.actions.len() == 0
            &&& again.session == out.session
        }),
{
}

/// What a peer is told when it connects, before it has offered anything: the
/// video sources on offer, then the audio inputs on offer.
pub fn greeting(monitors: Vec<MonitorInfo>, devices: Vec<AudioDeviceInfo>) -> (messages: Vec<
    SignalMessage,
>)
    ensures
        messages@.len() == 2,
        messages@[0] == (SignalMessage::Monitors { monitors }),
        messages@[1] == (SignalMessage::AudioDevices { devices }),
{
    let mut messages: Vec<SignalMessage> = Vec::new();
    messages.push(SignalMessage::Monitors { monitors });
    messages.push(SignalMessage::AudioDevices { devices });
    messages
}

/// What the capture broker reported.
#[derive(Debug)]
pub enum BrokerOutcome {
    /// No connection to the broker could be made.
    ConnectFailed { cause: String },
    /// The broker made no session.
    SessionFailed { cause: String },
    /// The broker did not take the choice of sources.
    SelectFailed { cause: String },
    /// The broker did not take the request to start.
    StartFailed { cause: String },
    /// The request to start failed, or the user turned it down.
    Refused { cause: String },
    /// The broker started the capture; these are the nodes of its streams.
    Streams { node_ids: Vec<u32> },
}

/// The surface handle that a broker's report yields: the node of the first
/// stream. Every other report is a failure, named in words.
pub open spec fn surface_of(outcome: BrokerOutcome) -> Result<u32, Seq<char>> {
    match outcome {
        BrokerOutcome::ConnectFailed { cause } => Err("Failed to create Screencast: "@ + cause@),
        BrokerOutcome::SessionFailed { cause } => Err(
            "Failed to create screen cast session object: "@ + cause@,
        ),
        BrokerOutcome::SelectFailed { cause } => Err("Failed to select sources: "@ + cause@),
        BrokerOutcome::StartFailed { cause } => Err(
            "Failed to call Start method on Screencast: "@ + cause@,
        ),
        BrokerOutcome::Refused { cause } => Err(
            "Portal StartScreenCast request failed or was cancelled: "@ + cause@,
        ),
        BrokerOutcome::Streams { node_ids } => if node_ids@.len() > 0 {
            Ok(node_ids@[0])
        } else {
            Err("No streams found in portal session response"@)
        },
    }
}

/// The text that a failure holds.
pub open spec fn result_text(result: Result<u32, String>) -> Result<u32, Seq<char>> {
    match result {
        Ok(id) => Ok(id),
        Err(message) => Err(message@),
    }
}

fn describe(prefix: &str, cause: &String) -> (message: String)
    ensures
        message@ == prefix@ + cause@,
{
    let mut message = String::from_str(prefix);
    message.append(cause.as_str());
    message
}

/// The surface handle that the broker's report yields, or why there is none.
pub fn get_wayland_pipewire_node_id(outcome: &BrokerOutcome) -> (surface: Result<u32, String>)
    ensures
        result_text(surface) == surface_of(*outcome),
{
    match outcome {
        BrokerOutcome::ConnectFailed { cause } => Err(
            describe("Failed to create Screencast: ", cause),
        ),
        BrokerOutcome::SessionFailed { cause } => Err(
            describe("Failed to create screen cast session object: ", cause),
        ),
        BrokerOutcome::SelectFailed { cause } => Err(describe("Failed to select sources: ", cause)),
        BrokerOutcome::StartFailed { cause } => Err(
            describe("Failed to call Start method on Screencast: ", cause),
        ),
        BrokerOutcome::Refused { cause } => Err(
            describe("Portal StartScreenCast request failed or was cancelled: ", cause),
        ),
        BrokerOutcome::Streams { node_ids } => {
            if node_ids.len() > 0 {
                Ok(node_ids[0])
            } else {
                Err(String::from_str("No streams found in portal session response"))
            }
        },
    }
}

/// The event that the broker's report is for the orchestrator.
pub fn surface_event(outcome: &BrokerOutcome) -> (event: SessionEvent)
    ensures
        event@ == match surface_of(*outcome) {
            Ok(node_id) => SessionEventModel::SurfaceGranted { node_id },
            Err(message) => SessionEventModel::SurfaceDenied { message },
        },
{
    match get_wayland_pipewire_node_id(outcome) {
        Ok(node_id) => SessionEvent::SurfaceGranted { node_id },
        Err(message) => SessionEvent::SurfaceDenied { message },
    }
}

/// The sink on which the viewer's microphone is played: the loopback sink of
/// the virtual endpoints where they are on record and that sink was loaded,
/// the default sink otherwise.
pub open spec fn playback_sink(virtual_audio: Option<&VirtualAudioDevice>) -> Seq<char> {
    match virtual_audio {
        Some(device) => match device@.loaded_input_sink() {
            Some(name) => name,
            None => "@DEFAULT_SINK@"@,
        },
        None => "@DEFAULT_SINK@"@,
    }
}

/// The description of the graph that plays the viewer's microphone.
pub open spec fn microphone_playback(sink: Seq<char>) -> Seq<char> {
    "udpsrc port=0 ! application/x-rtp,media=audio,payload=111,encoding-name=OPUS ! rtpopusdepay ! opusdec ! audioconvert ! audioresample ! audio/x-raw,rate=48000,channels=2,format=S16LE ! volume volume=1.0 ! pulsesink device="@
        + sink + " sync=false"@
}

/// The description of the graph that plays the viewer's microphone on the
/// loopback sink of the virtual endpoints, or on the default sink where there
/// are none.
pub fn setup_microphone_playback_pipeline(virtual_audio: Option<&VirtualAudioDevice>) -> (
    description: String
)
    ensures
        description@ == microphone_playback(playback_sink(virtual_audio)),
{
    let mut description = String::from_str(
        "udpsrc port=0 ! application/x-rtp,media=audio,payload=111,encoding-name=OPUS ! rtpopusdepay ! opusdec ! audioconvert ! audioresample ! audio/x-raw,rate=48000,channels=2,format=S16LE ! volume volume=1.0 ! pulsesink device=",
    );
    match virtual_audio {
        Some(device) => {
            if device.source_module_id.is_some() {
                let sink = device.get_input_sink_name();
                description.append(sink.as_str());
            } else {
                description.append("@DEFAULT_SINK@");
            }
        },
        None => {
            description.append("@DEFAULT_SINK@");
        },
    }
    description.append(" sync=false");
    description
}

/// The servers that help a transport session find its own address.
pub fn ice_server_urls() -> (urls: Vec<String>)
    ensures
        urls@.len() == 1,
        urls@[0]@ == "stun:stun.l.google.com:19302"@,
{
    let mut urls: Vec<String> = Vec::new();
    urls.push(String::from_str("stun:stun.l.google.com:19302"));
    urls
}

/// Relays the candidates that the transport session finds to the peer, one
/// message each, until a message cannot be sent.
#[derive(Debug)]
pub struct IceRelay {
    /// Whether the peer still takes messages.
    pub open: bool,
}

impl IceRelay {
    /// A relay to a peer that takes messages.
    pub fn new() -> (relay: Self)
        ensures
            relay.open,
    {
        IceRelay { open: true }
    }

    /// The message that carries `candidate` to the peer; none once a message
    /// could not be sent.
    pub fn relay(&self, candidate: String) -> (message: Option<SignalMessage>)
        ensures
            match message {
                Some(SignalMessage::IceCandidate { candidate: carried }) => self.open && carried
                    == candidate,
                Some(_) => false,
                None => !self.open,
            },
    {
        if self.open {
            Some(SignalMessage::IceCandidate { candidate })
        } else {
            None
        }
    }

    /// Records that a message could not be sent: the peer is gone, and the
    /// relay ends.
    pub fn send_failed(&mut self)
        ensures
            !final(self).open,
    {
        self.open = false;
    }
}

} // verus!
