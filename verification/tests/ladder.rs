use desktop_streamer::config::PipelineConfig;
use desktop_streamer::ladder::{
    classify_parse_failure, AttemptError, EngineEvent, EngineState, LadderAction, LadderPhase,
    PipelineError, PipelineLadder, StateChange, Tap, READINESS_TIMEOUT_SECS,
};
use desktop_streamer::media::{CandidateGraph, EncoderPath, HardwareInfo, PipelineFactory};

fn candidate(name: &str) -> CandidateGraph {
    CandidateGraph {
        label: name.to_string(),
        description: format!("{name} ! appsink name=videosink"),
        encoder: EncoderPath::Software,
    }
}

fn playing() -> EngineEvent {
    EngineEvent::StateReported { result: StateChange::Success, current: EngineState::Playing }
}

#[test]
fn first_candidate_that_runs_ends_the_ladder() {
    let (mut ladder, first) = PipelineLadder::new(vec![candidate("a"), candidate("b")], false);
    assert!(matches!(&first, LadderAction::Parse { description } if description == "a ! appsink name=videosink"));
    assert!(matches!(ladder.step(EngineEvent::Parsed), LadderAction::AttachTap { tap: Tap::Video }));
    assert!(matches!(ladder.step(EngineEvent::TapAttached), LadderAction::Start));
    assert!(matches!(
        ladder.step(EngineEvent::Started),
        LadderAction::AwaitRunning { timeout_secs: 5 }
    ));
    assert_eq!(READINESS_TIMEOUT_SECS, 5);
    assert!(!ladder.is_finished());
    assert!(matches!(ladder.step(playing()), LadderAction::Done { index: 0 }));
    assert!(ladder.is_finished());
    assert_eq!(ladder.running().map(|g| g.label.as_str()), Some("a"));
    assert!(ladder.failure().is_none());
    // The ladder stays where it is whatever comes after.
    assert!(matches!(ladder.step(EngineEvent::Disposed), LadderAction::Done { index: 0 }));
    assert!(matches!(ladder.step(EngineEvent::Parsed), LadderAction::Done { index: 0 }));
}

#[test]
fn test_pattern_request_runs_on_the_first_attempt() {
    let hw = HardwareInfo {
        has_nvenc: false,
        has_nvh264enc_basic: false,
        has_vaapi: false,
        has_v4l2h264enc: false,
        has_intel_gpu: false,
    };
    let mut config = PipelineConfig::default();
    config.source_type = "test-pattern".to_string();
    config.enable_audio = false;
    let (mut ladder, first) =
        PipelineFactory::with_threads(2).create_pipeline(&config, &hw, None, None);
    assert_eq!(ladder.candidates.len(), 1);
    let mut parses = 0;
    let mut action = first;
    loop {
        let event = match action {
            LadderAction::Parse { .. } => {
                parses += 1;
                EngineEvent::Parsed
            }
            LadderAction::AttachTap { tap: Tap::Video } => EngineEvent::TapAttached,
            LadderAction::AttachTap { tap: Tap::Audio } => panic!("no audio was asked for"),
            LadderAction::Start => EngineEvent::Started,
            LadderAction::AwaitRunning { .. } => playing(),
            LadderAction::Dispose => panic!("nothing failed"),
            LadderAction::Done { index } => {
                assert_eq!(index, 0);
                break;
            }
            LadderAction::Fail => panic!("the engine took the graph"),
        };
        action = ladder.step(event);
    }
    assert_eq!(parses, 1);
    assert_eq!(ladder.running().map(|g| g.label.as_str()), Some("Test Pattern"));
}

#[test]
fn audio_tap_is_attached_where_audio_is_wanted() {
    let (mut ladder, _) = PipelineLadder::new(vec![candidate("a")], true);
    ladder.step(EngineEvent::Parsed);
    assert!(matches!(
        ladder.step(EngineEvent::TapAttached),
        LadderAction::AttachTap { tap: Tap::Audio }
    ));
    assert!(matches!(ladder.step(EngineEvent::TapMissing), LadderAction::Start));
    let (mut ladder, _) = PipelineLadder::new(vec![candidate("a")], true);
    ladder.step(EngineEvent::Parsed);
    ladder.step(EngineEvent::TapAttached);
    assert!(matches!(ladder.step(EngineEvent::TapAttached), LadderAction::Start));
    let (mut ladder, _) = PipelineLadder::new(vec![candidate("a")], true);
    ladder.step(EngineEvent::Parsed);
    ladder.step(EngineEvent::TapAttached);
    assert!(matches!(
        ladder.step(EngineEvent::TapFailed { message: "Failed to downcast to AppSink".into() }),
        LadderAction::Dispose
    ));
}

#[test]
fn failed_candidate_is_disposed_before_the_next_is_parsed() {
    let (mut ladder, _) = PipelineLadder::new(vec![candidate("a"), candidate("b")], false);
    ladder.step(EngineEvent::Parsed);
    ladder.step(EngineEvent::TapAttached);
    ladder.step(EngineEvent::Started);
    let action = ladder.step(EngineEvent::StateReported {
        result: StateChange::Async,
        current: EngineState::Paused,
    });
    assert!(matches!(action, LadderAction::Dispose));
    assert_eq!(ladder.phase, LadderPhase::Disposing);
    // An answer that does not fit changes nothing.
    assert!(matches!(ladder.step(EngineEvent::Parsed), LadderAction::Dispose));
    let action = ladder.step(EngineEvent::Disposed);
    assert!(matches!(&action, LadderAction::Parse { description } if description.starts_with("b ")));
    assert_eq!(ladder.index, 1);
    assert_eq!(
        ladder.last_error.as_ref().map(|e| e.message()),
        Some("Pipeline state change had non-success result: Async".to_string())
    );
}

#[test]
fn every_failure_has_its_reason() {
    let run = |events: Vec<EngineEvent>| -> String {
        let (mut ladder, _) = PipelineLadder::new(vec![candidate("a")], false);
        for event in events {
            ladder.step(event);
        }
        ladder.last_error.as_ref().map(|e| e.message()).unwrap_or_default()
    };
    assert_eq!(
        run(vec![EngineEvent::ParseFailed { message: "syntax error".into() }]),
        "Failed to parse pipeline: syntax error"
    );
    assert_eq!(
        run(vec![EngineEvent::ParseFailed { message: "no element \"nvh264enc\"".into() }]),
        "Failed to parse pipeline: Missing GStreamer element 'nvh264enc'. This element may not be installed or available on your system."
    );
    assert_eq!(
        run(vec![EngineEvent::Parsed, EngineEvent::TapMissing]),
        "Failed to get appsink named 'videosink'"
    );
    assert_eq!(
        run(vec![EngineEvent::Parsed, EngineEvent::TapFailed { message: "Failed to downcast to AppSink".into() }]),
        "Failed to downcast to AppSink"
    );
    assert_eq!(
        run(vec![
            EngineEvent::Parsed,
            EngineEvent::TapAttached,
            EngineEvent::StartFailed { message: "Element failed to change its state".into() }
        ]),
        "Failed to set pipeline to playing: Element failed to change its state"
    );
    let report = |result, current| {
        run(vec![
            EngineEvent::Parsed,
            EngineEvent::TapAttached,
            EngineEvent::Started,
            EngineEvent::StateReported { result, current },
        ])
    };
    assert_eq!(
        report(StateChange::Success, EngineState::Paused),
        "Pipeline state change succeeded but not in PLAYING state: Paused"
    );
    assert_eq!(
        report(StateChange::Success, EngineState::Null),
        "Pipeline state change succeeded but not in PLAYING state: Null"
    );
    assert_eq!(
        report(StateChange::NoPreroll, EngineState::Playing),
        "Pipeline state change had non-success result: NoPreroll"
    );
    assert_eq!(
        report(StateChange::Failure, EngineState::Ready),
        "Failed to change pipeline state: StateChangeError"
    );
    assert_eq!(
        run(vec![
            EngineEvent::Parsed,
            EngineEvent::TapMissing,
            EngineEvent::DisposeFailed { message: "stuck".into() }
        ]),
        "stuck"
    );
}

#[test]
fn exhausted_ladder_names_the_last_error_and_the_attempts() {
    let (mut ladder, _) =
        PipelineLadder::new(vec![candidate("a"), candidate("b"), candidate("c")], false);
    ladder.step(EngineEvent::ParseFailed { message: "no element \"nvvidconv\"".into() });
    ladder.step(EngineEvent::Parsed);
    ladder.step(EngineEvent::TapMissing);
    assert!(matches!(ladder.step(EngineEvent::Disposed), LadderAction::Parse { .. }));
    let action = ladder.step(EngineEvent::ParseFailed { message: "bad".into() });
    assert!(matches!(action, LadderAction::Fail));
    assert!(ladder.is_finished());
    assert!(ladder.running().is_none());
    let error = ladder.failure().expect("the ladder failed");
    assert_eq!(error.attempts, 3);
    assert_eq!(
        error.message(),
        "All pipeline configurations failed (3 attempted); last error: Failed to parse pipeline: bad"
    );
    assert!(matches!(ladder.step(EngineEvent::Parsed), LadderAction::Fail));
}

#[test]
fn ladder_without_candidates_fails_at_once() {
    let (ladder, first) = PipelineLadder::new(Vec::new(), true);
    assert!(matches!(first, LadderAction::Fail));
    let error = ladder.failure().expect("nothing to try");
    assert_eq!(error.attempts, 0);
    assert!(error.last_error.is_none());
    assert_eq!(error.message(), "All pipeline configurations failed");
    let plain = PipelineError { attempts: 12, last_error: Some(AttemptError::StateChangeFailed) };
    assert_eq!(
        plain.message(),
        "All pipeline configurations failed (12 attempted); last error: Failed to change pipeline state: StateChangeError"
    );
}

#[test]
fn missing_element_is_told_from_a_bad_description() {
    let name = |message: &str| match classify_parse_failure(message) {
        AttemptError::MissingElement { element } => Some(element),
        AttemptError::ParseFailed { .. } => None,
        _ => panic!("a parse failure"),
    };
    assert_eq!(name("no element \"vaapivp8enc\""), Some("vaapivp8enc".to_string()));
    assert_eq!(name("gst-parse: no element \"x264enc\" found"), Some("x264enc".to_string()));
    assert_eq!(name("no element"), Some("unknown".to_string()));
    assert_eq!(name("no element 'a'"), Some("unknown".to_string()));
    assert_eq!(name("no element \"open"), Some("open".to_string()));
    assert_eq!(name("no element \"\""), Some("".to_string()));
    assert_eq!(name("no element \"a no element \"b\""), Some("a ".to_string()));
    assert_eq!(name("syntax error"), None);
    assert!(matches!(
        classify_parse_failure("could not link a to b"),
        AttemptError::ParseFailed { message } if message == "could not link a to b"
    ));
    // The same reading as with the standard library's own splitting.
    for message in ["no element \"a\" no element \"b\"", "x no element \"q", "no element \"a no element \"b\""] {
        let expected = message
            .split("no element \"")
            .nth(1)
            .and_then(|s| s.split('"').next())
            .unwrap_or("unknown");
        assert_eq!(name(message).as_deref(), Some(expected));
    }
}
