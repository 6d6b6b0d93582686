//! The ladder of candidate graphs: each candidate is handed to the media
//! engine once, in order, until one of them runs.
//!
//! The engine does its work outside this library. The ladder says what to ask
//! of it next and takes in what it answered.
use vstd::prelude::*;
use vstd::string::*;
use crate::config::PipelineConfig;
use crate::media::{
    CandidateGraph, CandidateModel, HardwareInfo, PipelineFactory, candidate_graphs, candidates,
    monitor_of,
};
use crate::virtual_audio::VirtualAudioDevice;
use crate::text::{chars_of, contains, contains_text, find, find_in, slice_of, string_of};

verus! {

/// The state of a graph instance in the media engine.
#[derive(Debug, Clone, Copy, PartialEq, Eq, Structural)]
pub enum EngineState {
    VoidPending,
    Null,
    Ready,
    Paused,
    Playing,
}

/// What the engine says of a change of state that it was asked to confirm.
#[derive(Debug, Clone, Copy, PartialEq, Eq, Structural)]
pub enum StateChange {
    Success,
    Async,
    NoPreroll,
    Failure,
}

/// A point of a graph from which samples are pulled.
#[derive(Debug, Clone, Copy, PartialEq, Eq, Structural)]
pub enum Tap {
    Video,
    Audio,
}

/// The name of the graph node behind a tap.
pub open spec fn tap_name(tap: Tap) -> Seq<char> {
    match tap {
        Tap::Video => "videosink"@,
        Tap::Audio => "audiosink"@,
    }
}

impl Tap {
    /// The name of the graph node behind this tap.
    pub fn name(&self) -> (name: String)
        ensures
            name@ == tap_name(*self),
    {
        match self {
            Tap::Video => String::from_str("videosink"),
            Tap::Audio => String::from_str("audiosink"),
        }
    }
}

/// Why one candidate did not come to run.
#[derive(Debug)]
pub enum AttemptError {
    /// The description names a processing element that is not installed.
    MissingElement { element: String },
    /// The engine could not read the description.
    ParseFailed { message: String },
    /// The graph has no node for a tap that it must have.
    TapMissing { tap: Tap },
    /// A tap could not be attached.
    TapFailed { message: String },
    /// The engine refused to start the graph.
    StartFailed { message: String },
    /// The change of state succeeded and left the graph in another state than
    /// running.
    NotRunning { state: EngineState },
    /// The change of state had not finished when the wait ended.
    Incomplete { result: StateChange },
    /// The change of state failed.
    StateChangeFailed,
    /// The graph could not be stopped.
    DisposeFailed { message: String },
}

/// A reason for failure as a mathematical value.
pub enum AttemptErrorModel {
    MissingElement { element: Seq<char> },
    ParseFailed { message: Seq<char> },
    TapMissing { tap: Tap },
    TapFailed { message: Seq<char> },
    StartFailed { message: Seq<char> },
    NotRunning { state: EngineState },
    Incomplete { result: StateChange },
    StateChangeFailed,
    DisposeFailed { message: Seq<char> },
}

impl View for AttemptError {
    type V = AttemptErrorModel;

    open spec fn view(&self) -> AttemptErrorModel {
        match self {
            AttemptError::MissingElement { element } => AttemptErrorModel::MissingElement {
                element: element@,
            },
            AttemptError::ParseFailed { message } => AttemptErrorModel::ParseFailed {
                message: message@,
            },
            AttemptError::TapMissing { tap } => AttemptErrorModel::TapMissing { tap: *tap },
            AttemptError::TapFailed { message } => AttemptErrorModel::TapFailed {
                message: message@,
            },
            AttemptError::StartFailed { message } => AttemptErrorModel::StartFailed {
                message: message@,
            },
            AttemptError::NotRunning { state } => AttemptErrorModel::NotRunning { state: *state },
            AttemptError::Incomplete { result } => AttemptErrorModel::Incomplete {
                result: *result,
            },
            AttemptError::StateChangeFailed => AttemptErrorModel::StateChangeFailed,
            AttemptError::DisposeFailed { message } => AttemptErrorModel::DisposeFailed {
                message: message@,
            },
        }
    }
}

/// The error that an optional reason holds.
pub open spec fn option_error(error: Option<AttemptError>) -> Option<AttemptErrorModel> {
    match error {
        Some(e) => Some(e@),
        None => None,
    }
}

/// The name of an engine state in a message.
pub open spec fn state_name(state: EngineState) -> Seq<char> {
    match state {
        EngineState::VoidPending => "VoidPending"@,
        EngineState::Null => "Null"@,
        EngineState::Ready => "Ready"@,
        EngineState::Paused => "Paused"@,
        EngineState::Playing => "Playing"@,
    }
}

/// The name of the outcome of a change of state in a message.
pub open spec fn change_name(result: StateChange) -> Seq<char> {
    match result {
        StateChange::Success => "Success"@,
        StateChange::Async => "Async"@,
        StateChange::NoPreroll => "NoPreroll"@,
        StateChange::Failure => "StateChangeError"@,
    }
}

/// The reason for a failure in words.
pub open spec fn attempt_message(error: AttemptErrorModel) -> Seq<char> {
    match error {
        AttemptErrorModel::MissingElement { element } =>
            "Failed to parse pipeline: Missing GStreamer element '"@ + element
            + "'. This element may not be installed or available on your system."@,
        AttemptErrorModel::ParseFailed { message } => "Failed to parse pipeline: "@ + message,
        AttemptErrorModel::TapMissing { tap } => "Failed to get appsink named '"@ + tap_name(tap)
            + "'"@,
        AttemptErrorModel::TapFailed { message } => message,
        AttemptErrorModel::StartFailed { message } => "Failed to set pipeline to playing: "@
            + message,
        AttemptErrorModel::NotRunning { state } =>
            "Pipeline state change succeeded but not in PLAYING state: "@ + state_name(state),
        AttemptErrorModel::Incomplete { result } =>
            "Pipeline state change had non-success result: "@ + change_name(result),
        AttemptErrorModel::StateChangeFailed => "Failed to change pipeline state: "@
            + change_name(StateChange::Failure),
        AttemptErrorModel::DisposeFailed { message } => message,
    }
}

/// What follows the first `no element "` in `message`, up to the next such
/// mark, or to the end where there is none.
pub open spec fn after_element_mark(message: Seq<char>) -> Option<Seq<char>> {
    let mark = "no element \""@;
    match find(message, mark) {
        Some(i) => {
            let rest = message.skip(i + mark.len());
            match find(rest, mark) {
                Some(j) => Some(rest.take(j)),
                None => Some(rest),
            }
        },
        None => None,
    }
}

/// The name of the element that a parse error reports as missing: what stands
/// between `no element "` and the next double quote; `unknown` where the message
/// has no such mark.
pub open spec fn missing_element_name(message: Seq<char>) -> Seq<char> {
    match after_element_mark(message) {
        Some(piece) => match find(piece, "\""@) {
            Some(k) => piece.take(k),
            None => piece,
        },
        None => "unknown"@,
    }
}

/// What a parse error means: a missing element where the message speaks of
/// `no element`, a description that cannot be read otherwise.
pub open spec fn parse_failure(message: Seq<char>) -> AttemptErrorModel {
    if contains(message, "no element"@) {
        AttemptErrorModel::MissingElement { element: missing_element_name(message) }
    } else {
        AttemptErrorModel::ParseFailed { message }
    }
}

/// The name of the element that a parse error reports as missing.
pub fn extract_missing_element(message: &Vec<char>) -> (name: String)
    ensures
        name@ == missing_element_name(message@),
{
    let mark = chars_of("no element \"");
    let quote = chars_of("\"");
    match find_in(message, &mark) {
        Some(i) => {
            assert(crate::text::occurs_at(message@, mark@, i as int));
            let total = message.len();
            let rest = slice_of(message, i + mark.len(), total);
            assert(rest@ =~= message@.skip(i + mark@.len()));
            let piece = match find_in(&rest, &mark) {
                Some(j) => slice_of(&rest, 0, j),
                None => slice_of(&rest, 0, rest.len()),
            };
            assert(Some(piece@) =~= after_element_mark(message@)) by {
                assert(rest@.subrange(0, rest@.len() as int) =~= rest@);
            }
            match find_in(&piece, &quote) {
                Some(k) => {
                    let name = slice_of(&piece, 0, k);
                    string_of(&name)
                },
                None => string_of(&piece),
            }
        },
        None => String::from_str("unknown"),
    }
}

/// What the parse error `message` means.
pub fn classify_parse_failure(message: &str) -> (error: AttemptError)
    ensures
        error@ == parse_failure(message@),
{
    let text = chars_of(message);
    let mark = chars_of("no element");
    if contains_text(&text, &mark) {
        AttemptError::MissingElement { element: extract_missing_element(&text) }
    } else {
        AttemptError::ParseFailed { message: String::from_str(message) }
    }
}

impl AttemptError {
    /// The reason for the failure in words.
    pub fn message(&self) -> (text: String)
        ensures
            text@ == attempt_message(self@),
    {
        match self {
            AttemptError::MissingElement { element } => {
                let mut text = String::from_str(
                    "Failed to parse pipeline: Missing GStreamer element '",
                );
                text.append(element.as_str());
                text.append("'. This element may not be installed or available on your system.");
                text
            },
            AttemptError::ParseFailed { message } => {
                let mut text = String::from_str("Failed to parse pipeline: ");
                text.append(message.as_str());
                text
            },
            AttemptError::TapMissing { tap } => {
                let mut text = String::from_str("Failed to get appsink named '");
                let name = tap.name();
                text.append(name.as_str());
                text.append("'");
                text
            },
            AttemptError::TapFailed { message } => message.clone(),
            AttemptError::StartFailed { message } => {
                let mut text = String::from_str("Failed to set pipeline to playing: ");
                text.append(message.as_str());
                text
            },
            AttemptError::NotRunning { state } => {
                let mut text = String::from_str(
                    "Pipeline state change succeeded but not in PLAYING state: ",
                );
                match state {
                    EngineState::VoidPending => text.append("VoidPending"),
                    EngineState::Null => text.append("Null"),
                    EngineState::Ready => text.append("Ready"),
                    EngineState::Paused => text.append("Paused"),
                    EngineState::Playing => text.append("Playing"),
                }
                text
            },
            AttemptError::Incomplete { result } => {
                let mut text = String::from_str("Pipeline state change had non-success result: ");
                match result {
                    StateChange::Success => text.append("Success"),
                    StateChange::Async => text.append("Async"),
                    StateChange::NoPreroll => text.append("NoPreroll"),
                    StateChange::Failure => text.append("StateChangeError"),
                }
                text
            },
            AttemptError::StateChangeFailed => {
                let mut text = String::from_str("Failed to change pipeline state: ");
                text.append("StateChangeError");
                text
            },
            AttemptError::DisposeFailed { message } => message.clone(),
        }
    }
}

impl Clone for AttemptError {
    fn clone(&self) -> (copy: Self)
        ensures
            copy@ == self@,
    {
        match self {
            AttemptError::MissingElement { element } => AttemptError::MissingElement {
                element: element.clone(),
            },
            AttemptError::ParseFailed { message } => AttemptError::ParseFailed {
                message: message.clone(),
            },
            AttemptError::TapMissing { tap } => AttemptError::TapMissing { tap: *tap },
            AttemptError::TapFailed { message } => AttemptError::TapFailed {
                message: message.clone(),
            },
            AttemptError::StartFailed { message } => AttemptError::StartFailed {
                message: message.clone(),
            },
            AttemptError::NotRunning { state } => AttemptError::NotRunning { state: *state },
            AttemptError::Incomplete { result } => AttemptError::Incomplete { result: *result },
            AttemptError::StateChangeFailed => AttemptError::StateChangeFailed,
            AttemptError::DisposeFailed { message } => AttemptError::DisposeFailed {
                message: message.clone(),
            },
        }
    }
}

/// What the media engine answered.
#[derive(Debug)]
pub enum EngineEvent {
    /// The description was read and a graph instance exists.
    Parsed,
    /// The description could not be read; no instance exists.
    ParseFailed { message: String },
    /// The tap is attached.
    TapAttached,
    /// The graph has no node of the tap's name.
    TapMissing,
    /// The node of the tap's name cannot serve as a tap.
    TapFailed { message: String },
    /// The engine took the request to run the graph.
    Started,
    /// The engine refused the request to run the graph.
    StartFailed { message: String },
    /// The wait for the running state ended with this outcome and state.
    StateReported { result: StateChange, current: EngineState },
    /// The instance is stopped and gone.
    Disposed,
    /// The instance could not be stopped; it is gone all the same.
    DisposeFailed { message: String },
}

/// An answer of the media engine as a mathematical value.
pub enum EngineEventModel {
    Parsed,
    ParseFailed { message: Seq<char> },
    TapAttached,
    TapMissing,
    TapFailed { message: Seq<char> },
    Started,
    StartFailed { message: Seq<char> },
    StateReported { result: StateChange, current: EngineState },
    Disposed,
    DisposeFailed { message: Seq<char> },
}

impl View for EngineEvent {
    type V = EngineEventModel;

    open spec fn view(&self) -> EngineEventModel {
        match self {
            EngineEvent::Parsed => EngineEventModel::Parsed,
            EngineEvent::ParseFailed { message } => EngineEventModel::ParseFailed {
                message: message@,
            },
            EngineEvent::TapAttached => EngineEventModel::TapAttached,
            EngineEvent::TapMissing => EngineEventModel::TapMissing,
            EngineEvent::TapFailed { message } => EngineEventModel::TapFailed {
                message: message@,
            },
            EngineEvent::Started => EngineEventModel::Started,
            EngineEvent::StartFailed { message } => EngineEventModel::StartFailed {
                message: message@,
            },
            EngineEvent::StateReported { result, current } => EngineEventModel::StateReported {
                result: *result,
                current: *current,
            },
            EngineEvent::Disposed => EngineEventModel::Disposed,
            EngineEvent::DisposeFailed { message } => EngineEventModel::DisposeFailed {
                message: message@,
            },
        }
    }
}

/// What to ask of the media engine next.
#[derive(Debug)]
pub enum LadderAction {
    /// Read this description into a graph instance.
    Parse { description: String },
    /// Attach this tap to the instance.
    AttachTap { tap: Tap },
    /// Ask the instance to run.
    Start,
    /// Wait up to so many seconds for the instance to run, and report.
    AwaitRunning { timeout_secs: u64 },
    /// Stop the instance and let it go.
    Dispose,
    /// The instance of the candidate at this index runs: keep it.
    Done { index: usize },
    /// No candidate came to run.
    Fail,
}

/// A request to the media engine as a mathematical value.
pub enum LadderActionModel {
    Parse { description: Seq<char> },
    AttachTap { tap: Tap },
    Start,
    AwaitRunning { timeout_secs: u64 },
    Dispose,
    Done { index: nat },
    Fail,
}

impl View for LadderAction {
    type V = LadderActionModel;

    open spec fn view(&self) -> LadderActionModel {
        match self {
            LadderAction::Parse { description } => LadderActionModel::Parse {
                description: description@,
            },
            LadderAction::AttachTap { tap } => LadderActionModel::AttachTap { tap: *tap },
            LadderAction::Start => LadderActionModel::Start,
            LadderAction::AwaitRunning { timeout_secs } => LadderActionModel::AwaitRunning {
                timeout_secs: *timeout_secs,
            },
            LadderAction::Dispose => LadderActionModel::Dispose,
            LadderAction::Done { index } => LadderActionModel::Done { index: *index as nat },
            LadderAction::Fail => LadderActionModel::Fail,
        }
    }
}

/// Where the ladder stands with the candidate in hand.
#[derive(Debug, Clone, Copy, PartialEq, Eq, Structural)]
pub enum LadderPhase {
    /// The description is with the engine; no instance exists.
    Parsing,
    /// The instance exists; its video tap is being attached.
    AttachingVideo,
    /// The audio tap is being attached.
    AttachingAudio,
    /// The instance was asked to run.
    Starting,
    /// The engine was asked whether the instance runs.
    Confirming,
    /// The instance failed and is being stopped.
    Disposing,
    /// The instance runs; the ladder is done.
    Running,
    /// Every candidate failed; the ladder is done.
    Exhausted,
}

/// The seconds that a candidate is given to come to run.
pub const READINESS_TIMEOUT_SECS: u64 = 5;

/// The ladder as a mathematical value.
pub struct LadderModel {
    pub candidates: Seq<CandidateModel>,
    pub wants_audio: bool,
    pub index: nat,
    pub phase: LadderPhase,
    pub last_error: Option<AttemptErrorModel>,
}

impl LadderModel {
    /// Unless every candidate has failed, one of them is in hand.
    pub open spec fn wf(self) -> bool {
        self.phase != LadderPhase::Exhausted ==> self.index < self.candidates.len()
    }

    /// The ladder before anything was asked of the engine.
    pub open spec fn start(candidates: Seq<CandidateModel>, wants_audio: bool) -> LadderModel {
        LadderModel {
            candidates,
            wants_audio,
            index: 0,
            phase: if candidates.len() == 0 {
                LadderPhase::Exhausted
            } else {
                LadderPhase::Parsing
            },
            last_error: None,
        }
    }

    /// What the engine is being asked in this state.
    pub open spec fn pending(self) -> LadderActionModel {
        match self.phase {
            LadderPhase::Parsing => LadderActionModel::Parse {
                description: self.candidates[self.index as int].description,
            },
            LadderPhase::AttachingVideo => LadderActionModel::AttachTap { tap: Tap::Video },
            LadderPhase::AttachingAudio => LadderActionModel::AttachTap { tap: Tap::Audio },
            LadderPhase::Starting => LadderActionModel::Start,
            LadderPhase::Confirming => LadderActionModel::AwaitRunning {
                timeout_secs: READINESS_TIMEOUT_SECS,
            },
            LadderPhase::Disposing => LadderActionModel::Dispose,
            LadderPhase::Running => LadderActionModel::Done { index: self.index },
            LadderPhase::Exhausted => LadderActionModel::Fail,
        }
    }

    /// The ladder in another phase.
    pub open spec fn enter(self, phase: LadderPhase) -> LadderModel {
        LadderModel { phase, ..self }
    }

    /// The candidate in hand has an instance that failed with `error`: the
    /// instance is to be stopped.
    pub open spec fn give_up(self, error: AttemptErrorModel) -> LadderModel {
        LadderModel { phase: LadderPhase::Disposing, last_error: Some(error), ..self }
    }

    /// The candidate in hand is done for and has no instance left: on to the
    /// next one, or to the end where there is none.
    pub open spec fn advance(self, error: Option<AttemptErrorModel>) -> LadderModel {
        if self.index + 1 < self.candidates.len() {
            LadderModel {
                index: self.index + 1,
                phase: LadderPhase::Parsing,
                last_error: error,
                ..self
            }
        } else {
            LadderModel { phase: LadderPhase::Exhausted, last_error: error, ..self }
        }
    }

    /// The state that follows when the engine answers `event`. An answer that
    /// does not fit what was asked changes nothing.
    pub open spec fn after(self, event: EngineEventModel) -> LadderModel {
        match (self.phase, event) {
            (LadderPhase::Parsing, EngineEventModel::Parsed) => self.enter(
                LadderPhase::AttachingVideo,
            ),
            (LadderPhase::Parsing, EngineEventModel::ParseFailed { message }) => self.advance(
                Some(parse_failure(message)),
            ),
            (LadderPhase::AttachingVideo, EngineEventModel::TapAttached) => self.enter(
                if self.wants_audio {
                    LadderPhase::AttachingAudio
                } else {
                    LadderPhase::Starting
                },
            ),
            (LadderPhase::AttachingVideo, EngineEventModel::TapMissing) => self.give_up(
                AttemptErrorModel::TapMissing { tap: Tap::Video },
            ),
            (LadderPhase::AttachingVideo, EngineEventModel::TapFailed { message }) => self.give_up(
                AttemptErrorModel::TapFailed { message },
            ),
            (LadderPhase::AttachingAudio, EngineEventModel::TapAttached) => self.enter(
                LadderPhase::Starting,
            ),
            (LadderPhase::AttachingAudio, EngineEventModel::TapMissing) => self.enter(
                LadderPhase::Starting,
            ),
            (LadderPhase::AttachingAudio, EngineEventModel::TapFailed { message }) => self.give_up(
                AttemptErrorModel::TapFailed { message },
            ),
            (LadderPhase::Starting, EngineEventModel::Started) => self.enter(
                LadderPhase::Confirming,
            ),
            (LadderPhase::Starting, EngineEventModel::StartFailed { message }) => self.give_up(
                AttemptErrorModel::StartFailed { message },
            ),
            (LadderPhase::Confirming, EngineEventModel::StateReported { result, current }) => {
                match result {
                    StateChange::Success => if current == EngineState::Playing {
                        self.enter(LadderPhase::Running)
                    } else {
                        self.give_up(AttemptErrorModel::NotRunning { state: current })
                    },
                    StateChange::Failure => self.give_up(AttemptErrorModel::StateChangeFailed),
                    _ => self.give_up(AttemptErrorModel::Incomplete { result }),
                }
            },
            (LadderPhase::Disposing, EngineEventModel::Disposed) => self.advance(self.last_error),
            (LadderPhase::Disposing, EngineEventModel::DisposeFailed { message }) => self.advance(
                Some(AttemptErrorModel::DisposeFailed { message }),
            ),
            _ => self,
        }
    }

    /// How many candidates were handed to the engine so far.
    pub open spec fn attempts(self) -> nat {
        if self.phase == LadderPhase::Exhausted {
            self.candidates.len()
        } else {
            self.index + 1
        }
    }

    /// An instance of the candidate in hand exists in the engine.
    pub open spec fn has_instance(self) -> bool {
        self.phase != LadderPhase::Parsing && self.phase != LadderPhase::Exhausted
    }
}

/// The ladder of candidates for one negotiation.
#[derive(Debug)]
pub struct PipelineLadder {
    pub candidates: Vec<CandidateGraph>,
    pub wants_audio: bool,
    pub index: usize,
    pub phase: LadderPhase,
    pub last_error: Option<AttemptError>,
}

impl View for PipelineLadder {
    type V = LadderModel;

    open spec fn view(&self) -> LadderModel {
        LadderModel {
            candidates: candidates(self.candidates@),
            wants_audio: self.wants_audio,
            index: self.index as nat,
            phase: self.phase,
            last_error: option_error(self.last_error),
        }
    }
}

/// Why no candidate came to run: how many were tried, and why the last one
/// failed.
#[derive(Debug)]
pub struct PipelineError {
    pub attempts: usize,
    pub last_error: Option<AttemptError>,
}

/// The failure of a whole ladder in words.
pub open spec fn failure_message(attempts: nat, last_error: Option<AttemptErrorModel>) -> Seq<
    char,
> {
    match last_error {
        Some(error) => "All pipeline configurations failed"@ + " ("@ + crate::text::decimal(
            attempts,
        ) + " attempted); last error: "@ + attempt_message(error),
        None => "All pipeline configurations failed"@,
    }
}

impl PipelineError {
    /// The failure in words: that every candidate failed, how many there were,
    /// and why the last one failed.
    pub fn message(&self) -> (text: String)
        ensures
            text@ == failure_message(self.attempts as nat, option_error(self.last_error)),
    {
        let mut text = String::from_str("All pipeline configurations failed");
        match &self.last_error {
            Some(error) => {
                text.append(" (");
                crate::text::push_decimal(&mut text, self.attempts as u64);
                text.append(" attempted); last error: ");
                let cause = error.message();
                text.append(cause.as_str());
                proof {
                    assert(text@ =~= failure_message(
                        self.attempts as nat,
                        option_error(self.last_error),
                    ));
                }
            },
            None => {},
        }
        text
    }
}

impl PipelineLadder {
    /// A ladder over `candidates`, and the first thing to ask of the engine.
    /// `wants_audio` says whether an audio tap is to be attached where the
    /// graph has one.
    pub fn new(candidates: Vec<CandidateGraph>, wants_audio: bool) -> (started: (
        PipelineLadder,
        LadderAction,
    ))
        ensures
            started.0@ == LadderModel::start(crate::media::candidates(candidates@), wants_audio),
            started.0@.wf(),
            started.1@ == started.0@.pending(),
    {
        let phase = if candidates.len() == 0 {
            LadderPhase::Exhausted
        } else {
            LadderPhase::Parsing
        };
        let ladder = PipelineLadder { candidates, wants_audio, index: 0, phase, last_error: None };
        let action = ladder.pending();
        (ladder, action)
    }

    /// Whether a candidate is in hand unless every candidate has failed. That
    /// is so in every state that `new` and `step` bring about.
    pub fn is_well_formed(&self) -> (ok: bool)
        ensures
            ok == self@.wf(),
    {
        self.phase == LadderPhase::Exhausted || self.index < self.candidates.len()
    }

    /// What the engine is being asked in this state.
    pub fn pending(&self) -> (action: LadderAction)
        requires
            self@.wf(),
        ensures
            action@ == self@.pending(),
    {
        match self.phase {
            LadderPhase::Parsing => LadderAction::Parse {
                description: self.candidates[self.index].description.clone(),
            },
            LadderPhase::AttachingVideo => LadderAction::AttachTap { tap: Tap::Video },
            LadderPhase::AttachingAudio => LadderAction::AttachTap { tap: Tap::Audio },
            LadderPhase::Starting => LadderAction::Start,
            LadderPhase::Confirming => LadderAction::AwaitRunning {
                timeout_secs: READINESS_TIMEOUT_SECS,
            },
            LadderPhase::Disposing => LadderAction::Dispose,
            LadderPhase::Running => LadderAction::Done { index: self.index },
            LadderPhase::Exhausted => LadderAction::Fail,
        }
    }

    fn give_up(&mut self, error: AttemptError)
        ensures
            final(self)@ == old(self)@.give_up(error@),
    {
        self.phase = LadderPhase::Disposing;
        self.last_error = Some(error);
    }

    fn advance(&mut self, error: Option<AttemptError>)
        requires
            old(self)@.wf(),
            old(self).phase != LadderPhase::Exhausted,
        ensures
            final(self)@ == old(self)@.advance(option_error(error)),
            final(self)@.wf(),
    {
        let count = self.candidates.len();
        assert(self.index < count);
        if self.index + 1 < count {
            self.index = self.index + 1;
            self.phase = LadderPhase::Parsing;
        } else {
            self.phase = LadderPhase::Exhausted;
        }
        self.last_error = error;
    }

    /// Takes in what the engine answered and says what to ask next. Each
    /// candidate is handed to the engine once; the first that runs ends the
    /// ladder, and a candidate that fails after it was read is stopped before
    /// the next one is read.
    pub fn step(&mut self, event: EngineEvent) -> (action: LadderAction)
        requires
            old(self)@.wf(),
        ensures
            final(self)@ == old(self)@.after(event@),
            final(self)@.wf(),
            action@ == final(self)@.pending(),
    {
        match self.phase {
            LadderPhase::Parsing => match event {
                EngineEvent::Parsed => {
                    self.phase = LadderPhase::AttachingVideo;
                },
                EngineEvent::ParseFailed { message } => {
                    let error = classify_parse_failure(message.as_str());
                    self.advance(Some(error));
                },
                _ => {},
            },
            LadderPhase::AttachingVideo => match event {
                EngineEvent::TapAttached => {
                    self.phase = if self.wants_audio {
                        LadderPhase::AttachingAudio
                    } else {
                        LadderPhase::Starting
                    };
                },
                EngineEvent::TapMissing => {
                    self.give_up(AttemptError::TapMissing { tap: Tap::Video });
                },
                EngineEvent::TapFailed { message } => {
                    self.give_up(AttemptError::TapFailed { message });
                },
                _ => {},
            },
            LadderPhase::AttachingAudio => match event {
                EngineEvent::TapAttached => {
                    self.phase = LadderPhase::Starting;
                },
                EngineEvent::TapMissing => {
                    self.phase = LadderPhase::Starting;
                },
                EngineEvent::TapFailed { message } => {
                    self.give_up(AttemptError::TapFailed { message });
                },
                _ => {},
            },
            LadderPhase::Starting => match event {
                EngineEvent::Started => {
                    self.phase = LadderPhase::Confirming;
                },
                EngineEvent::StartFailed { message } => {
                    self.give_up(AttemptError::StartFailed { message });
                },
                _ => {},
            },
            LadderPhase::Confirming => match event {
                EngineEvent::StateReported { result, current } => match result {
                    StateChange::Success => {
                        if current == EngineState::Playing {
                            self.phase = LadderPhase::Running;
                        } else {
                            self.give_up(AttemptError::NotRunning { state: current });
                        }
                    },
                    StateChange::Failure => {
                        self.give_up(AttemptError::StateChangeFailed);
                    },
                    _ => {
                        self.give_up(AttemptError::Incomplete { result });
                    },
                },
                _ => {},
            },
            LadderPhase::Disposing => match event {
                EngineEvent::Disposed => {
                    let error = self.last_error.take();
                    self.advance(error);
                },
                EngineEvent::DisposeFailed { message } => {
                    self.advance(Some(AttemptError::DisposeFailed { message }));
                },
                _ => {},
            },
            LadderPhase::Running => {},
            LadderPhase::Exhausted => {},
        }
        self.pending()
    }

    /// Whether the ladder has ended, with a running instance or without.
    pub fn is_finished(&self) -> (done: bool)
        ensures
            done == (self.phase == LadderPhase::Running || self.phase == LadderPhase::Exhausted),
    {
        self.phase == LadderPhase::Running || self.phase == LadderPhase::Exhausted
    }

    /// The candidate whose instance runs, once the ladder has ended with one.
    pub fn running(&self) -> (graph: Option<&CandidateGraph>)
        requires
            self@.wf(),
        ensures
            match graph {
                Some(g) => self.phase == LadderPhase::Running && g@
                    == self@.candidates[self.index as int],
                None => self.phase != LadderPhase::Running,
            },
    {
        if self.phase == LadderPhase::Running {
            Some(&self.candidates[self.index])
        } else {
            None
        }
    }

    /// Why no candidate came to run, once the ladder has ended without one.
    pub fn failure(&self) -> (error: Option<PipelineError>)
        ensures
            match error {
                Some(e) => self.phase == LadderPhase::Exhausted && e.attempts as nat
                    == self@.attempts() && option_error(e.last_error) == self@.last_error,
                None => self.phase != LadderPhase::Exhausted,
            },
    {
        if self.phase == LadderPhase::Exhausted {
            let last_error = match &self.last_error {
                Some(e) => Some(e.clone()),
                None => None,
            };
            Some(PipelineError { attempts: self.candidates.len(), last_error })
        } else {
            None
        }
    }
}

/// The state of a ladder after the engine gave the answers `events` in order.
pub open spec fn run(start: LadderModel, events: Seq<EngineEventModel>) -> LadderModel
    decreases events.len(),
{
    if events.len() == 0 {
        start
    } else {
        run(start, events.drop_last()).after(events.last())
    }
}

/// Everything that a ladder asked of the engine: what it asked at first, and
/// what it asked after each of the answers `events`.
pub open spec fn requests(start: LadderModel, events: Seq<EngineEventModel>) -> Seq<
    LadderActionModel,
>
    decreases events.len(),
{
    if events.len() == 0 {
        seq![start.pending()]
    } else {
        requests(start, events.drop_last()).push(run(start, events).pending())
    }
}

/// Since a description was last handed over to be read, the video tap was asked
/// to be attached.
pub open spec fn video_tap_requested(history: Seq<LadderActionModel>) -> bool
    decreases history.len(),
{
    if history.len() == 0 {
        false
    } else {
        match history.last() {
            LadderActionModel::Parse { .. } => false,
            LadderActionModel::AttachTap { tap } => tap == Tap::Video || video_tap_requested(
                history.drop_last(),
            ),
            _ => video_tap_requested(history.drop_last()),
        }
    }
}

/// How many instances the engine made for a ladder: one for each description
/// that it read when the ladder had handed it one.
pub open spec fn instances_made(start: LadderModel, events: Seq<EngineEventModel>) -> nat
    decreases events.len(),
{
    if events.len() == 0 {
        0
    } else {
        let before = run(start, events.drop_last());
        instances_made(start, events.drop_last()) + if before.phase == LadderPhase::Parsing
            && events.last() is Parsed {
            1nat
        } else {
            0nat
        }
    }
}

/// How many instances the engine let go for a ladder: one for each disposal
/// that it reported when the ladder had asked for one.
pub open spec fn instances_let_go(start: LadderModel, events: Seq<EngineEventModel>) -> nat
    decreases events.len(),
{
    if events.len() == 0 {
        0
    } else {
        let before = run(start, events.drop_last());
        instances_let_go(start, events.drop_last()) + if before.phase == LadderPhase::Disposing
            && (events.last() is Disposed || events.last() is DisposeFailed) {
            1nat
        } else {
            0nat
        }
    }
}

/// While a ladder holds an instance past its parsing, it has asked for the
/// video tap of that instance.
proof fn lemma_video_tap_invariant(
    candidates: Seq<CandidateModel>,
    wants_audio: bool,
    events: Seq<EngineEventModel>,
)
    ensures
        ({
            let start = LadderModel::start(candidates, wants_audio);
            let state = run(start, events);
            (state.has_instance() && state.phase != LadderPhase::Disposing)
                ==> video_tap_requested(requests(start, events))
        }),
    decreases events.len(),
{
    if events.len() > 0 {
        lemma_video_tap_invariant(candidates, wants_audio, events.drop_last());
        let start = LadderModel::start(candidates, wants_audio);
        let history = requests(start, events);
        assert(history.drop_last() =~= requests(start, events.drop_last()));
    }
}

/// A ladder never reports a running instance without having asked for the
/// video tap to be attached to it: whenever the last thing it says is that an
/// instance runs, it has asked for the video tap since it last handed over a
/// description.
pub proof fn lemma_running_follows_video_tap(
    candidates: Seq<CandidateModel>,
    wants_audio: bool,
    events: Seq<EngineEventModel>,
)
    ensures
        ({
            let history = requests(LadderModel::start(candidates, wants_audio), events);
            history.last() is Done ==> video_tap_requested(history.drop_last())
        }),
{
    lemma_video_tap_invariant(candidates, wants_audio, events);
    let start = LadderModel::start(candidates, wants_audio);
    let history = requests(start, events);
    if events.len() > 0 {
        assert(history.last() == run(start, events).pending());
    }
}

/// A ladder never has more than one instance in the engine: the instances made
/// for it exceed those let go by one while it holds an instance and by none
/// otherwise, and it hands over a description only when it holds none.
pub proof fn lemma_at_most_one_instance(
    candidates: Seq<CandidateModel>,
    wants_audio: bool,
    events: Seq<EngineEventModel>,
)
    ensures
        ({
            let start = LadderModel::start(candidates, wants_audio);
            let state = run(start, events);
            &&& instances_made(start, events) == instances_let_go(start, events) + if state
                .has_instance() {
                1nat
            } else {
                0nat
            }
            &&& requests(start, events).last() is Parse ==> instances_made(start, events)
                == instances_let_go(start, events)
        }),
    decreases events.len(),
{
    let start = LadderModel::start(candidates, wants_audio);
    if events.len() > 0 {
        lemma_at_most_one_instance(candidates, wants_audio, events.drop_last());
        assert(requests(start, events).last() == run(start, events).pending());
    }
}

impl PipelineFactory {
    /// The ladder for a request, and the first thing to ask of the media
    /// engine: the candidate graphs of the request, richest first, each to be
    /// tried once until one runs. An audio tap is wanted where the request has
    /// audio on.
    pub fn create_pipeline(
        &self,
        config: &PipelineConfig,
        hw_info: &HardwareInfo,
        pipewire_node_id: Option<u32>,
        virtual_audio: Option<&VirtualAudioDevice>,
    ) -> (started: (PipelineLadder, LadderAction))
        ensures
            started.0@ == LadderModel::start(
                candidate_graphs(
                    config@,
                    *hw_info,
                    pipewire_node_id,
                    monitor_of(virtual_audio),
                    self.threads as nat,
                ),
                config.enable_audio,
            ),
            started.0@.wf(),
            started.1@ == started.0@.pending(),
    {
        let graphs = self.get_pipeline_configurations(
            config,
            hw_info,
            pipewire_node_id,
            virtual_audio,
        );
        PipelineLadder::new(graphs, config.enable_audio)
    }
}

} // verus!
