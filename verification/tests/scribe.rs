use pipeline::decimal::{decimal, padded, signed, Decimal};
use pipeline::events::{PipelineError, PipelineEvent, TaskEnd, TrackId};
use pipeline::frame::WsFrame;
use pipeline::pcm::{decode_pcm, pcm_len_fits};
use pipeline::queue::{push_report, PushReport, SendOutcome};
use pipeline::scribe::message::{
    audio_chunk_msg, handle_ws_message, message_note, transcript_event, Note, Reading,
};
use pipeline::scribe::session::{Phase, ScribeAction, ScribeInput, ScribeSession};
use pipeline::scribe::url::API_KEY_HEADER;
use pipeline::scribe::{ts, ScribeClient, ScribeConfig, ScribeHandle, VadPreset};
use pipeline::text::{has_prefix, same_text};

const TRACK: TrackId = TrackId(2);

#[test]
fn url_defaults_to_vad_auto_detect() {
    let cfg = ScribeConfig::new("dummy".into());
    let url = cfg.build_url();
    assert!(url.starts_with("wss://api.elevenlabs.io/v1/speech-to-text/realtime?"));
    for needle in [
        "model_id=scribe_v2_realtime",
        "audio_format=pcm_16000",
        "commit_strategy=vad",
        "vad_silence_threshold_secs=1.5",
        "vad_threshold=0.4",
        "min_speech_duration_ms=100",
        "min_silence_duration_ms=100",
        "filter_background_audio=true",
    ] {
        assert!(url.contains(needle), "missing {needle} in {url}");
    }
    assert!(!url.contains("language_code"), "language_code must be omitted for auto-detect: {url}");
}

#[test]
fn url_explicit_language() {
    let cfg = ScribeConfig::with_language("dummy".into(), "zh");
    let url = cfg.build_url();
    assert!(url.contains("language_code=zh"), "missing language_code=zh in {url}");
}

#[test]
fn url_is_exact() {
    let mut cfg = ScribeConfig::with_language("dummy".into(), "zho".to_string());
    cfg.vad = VadPreset::slow_speech();
    cfg.endpoint = "ws://localhost".to_string();
    assert_eq!(
        cfg.build_url(),
        "ws://localhost?model_id=scribe_v2_realtime&audio_format=pcm_16000&commit_strategy=vad\
         &filter_background_audio=true&vad_silence_threshold_secs=1&vad_threshold=0.4\
         &min_speech_duration_ms=100&min_silence_duration_ms=100&language_code=zho"
    );
    // The key is not part of the address.
    let mut other = cfg.clone();
    other.api_key = "secret".to_string();
    assert_eq!(other.build_url(), cfg.build_url());
}

#[test]
fn presets() {
    let default = VadPreset::default();
    assert_eq!(default.silence_threshold_secs.text(), "1.5");
    assert_eq!(default.threshold.text(), "0.4");
    let slow = VadPreset::slow_speech();
    assert_eq!(slow.silence_threshold_secs.text(), "1");
    assert_eq!(slow.threshold, default.threshold);
    assert_eq!(slow.min_speech_duration_ms, 100);
    let fast = VadPreset::fast_speech();
    assert_eq!(fast.silence_threshold_secs.text(), "0.5");
    assert_eq!(fast.min_speech_duration_ms, 50);
    assert_eq!(fast.min_silence_duration_ms, 50);
}

#[test]
fn decimal_notation() {
    assert_eq!(decimal(0), "0");
    assert_eq!(decimal(u64::MAX), u64::MAX.to_string());
    assert_eq!(signed(-1), "-1");
    assert_eq!(signed(i32::MIN), i32::MIN.to_string());
    assert_eq!(padded(7, 3), "007");
    assert_eq!(padded(1234, 2), "1234");
    for (value, text) in [
        (0.3, Decimal::new(3, 1)),
        (3.0, Decimal::new(30, 1)),
        (0.05, Decimal::new(50, 3)),
        (12.34, Decimal::new(1234, 2)),
        (0.0, Decimal::new(0, 4)),
        (100.0, Decimal::new(100, 0)),
        (0.30000000000000004, Decimal::new(30000000000000004, 17)),
    ] {
        let value: f64 = value;
        assert_eq!(text.text(), format!("{}", value));
    }
}

#[test]
fn audio_chunk_is_base64_pcm() {
    // [0x0001, -1] -> LE bytes [0x01, 0x00, 0xFF, 0xFF] -> "AQD//w=="
    let msg = audio_chunk_msg(&[1, -1], false);
    let v: serde_json::Value = serde_json::from_str(&msg).unwrap();
    assert_eq!(v["message_type"], "input_audio_chunk");
    assert_eq!(v["audio_base_64"], "AQD//w==");
    assert_eq!(v["commit"], false);
    assert_eq!(v["sample_rate"], 16_000);
    assert_eq!(
        msg,
        "{\"audio_base_64\":\"AQD//w==\",\"commit\":false,\
         \"message_type\":\"input_audio_chunk\",\"sample_rate\":16000}"
    );
}

#[test]
fn audio_chunk_reads_back() {
    let samples = vec![i16::MIN, -256, 0, 77, i16::MAX];
    let v: serde_json::Value = serde_json::from_str(&audio_chunk_msg(&samples, true)).unwrap();
    assert_eq!(decode_pcm(v["audio_base_64"].as_str().unwrap()).unwrap(), samples);
    assert_eq!(v["commit"], true);
    assert!(pcm_len_fits(samples.len()));
    assert!(!pcm_len_fits(usize::MAX));
}

fn said(event: Option<PipelineEvent>) -> Option<(&'static str, String)> {
    match event {
        Some(PipelineEvent::Partial { track, text }) => {
            assert_eq!(track, TRACK);
            Some(("partial", text))
        }
        Some(PipelineEvent::Flushed { track, text, reason }) => {
            assert_eq!(track, TRACK);
            Some((reason, text))
        }
        Some(_) => panic!("no transcript"),
        None => None,
    }
}

fn text_frame(text: &str) -> WsFrame {
    WsFrame::Text(text.to_string())
}

#[test]
fn parse_partial_and_committed() {
    let partial = "{\"message_type\":\"partial_transcript\",\"text\":\"hello\"}";
    let p: serde_json::Value = serde_json::from_str(partial).unwrap();
    assert_eq!(p["message_type"], "partial_transcript");
    assert_eq!(p["text"], "hello");
    let event = handle_ws_message(text_frame(partial), TRACK).unwrap().event;
    assert_eq!(said(event), Some(("partial", "hello".to_string())));

    let committed = "{\"message_type\":\"committed_transcript\",\"text\":\"hello world\"}";
    let c: serde_json::Value = serde_json::from_str(committed).unwrap();
    assert_eq!(c["message_type"], "committed_transcript");
    assert_eq!(c["text"], "hello world");
    let event = handle_ws_message(text_frame(committed), TRACK).unwrap().event;
    assert_eq!(said(event), Some(("committed", "hello world".to_string())));
}

#[test]
fn transcripts_are_trimmed_when_committed() {
    let event = transcript_event(TRACK, Some("partial_transcript"), Some(" so \n"));
    assert_eq!(said(event), Some(("partial", " so \n".to_string())));
    for kind in ["committed_transcript", "committed_transcript_with_timestamps"] {
        let event = transcript_event(TRACK, Some(kind), Some("\u{2003} so \u{85}"));
        assert_eq!(said(event), Some(("committed", "so".to_string())));
    }
    for kind in ["partial_transcript", "committed_transcript", "session_started", "input_error", ""] {
        assert!(transcript_event(TRACK, Some(kind), Some(" \u{A0}\u{1680}")).is_none());
        assert!(transcript_event(TRACK, Some(kind), None).is_none());
    }
    assert!(transcript_event(TRACK, Some("session_started"), Some("x")).is_none());
    assert!(transcript_event(TRACK, None, Some("x")).is_none());
}

#[test]
fn every_white_space_is_trimmed() {
    let mut spaces = 0;
    for c in '\u{0}'..='\u{FFFF}' {
        if c.is_whitespace() {
            spaces += 1;
            let text = format!("{c}x{c}");
            let event = transcript_event(TRACK, Some("committed_transcript"), Some(&text));
            assert_eq!(said(event), Some(("committed", "x".to_string())));
        }
    }
    assert_eq!(spaces, 25);
}

fn noted(reading: Reading) -> Option<(&'static str, String)> {
    assert!(reading.event.is_none());
    match reading.note {
        Some(Note::SessionStarted) => Some(("started", String::new())),
        Some(Note::InputError(message)) => Some(("input error", message)),
        Some(Note::UnknownKind(kind)) => Some(("unknown", kind)),
        None => None,
    }
}

#[test]
fn other_frames_are_ignored() {
    let json = b"{\"message_type\":\"partial_transcript\",\"text\":\"x\"}".to_vec();
    for frame in [WsFrame::Binary(json), WsFrame::Ping, WsFrame::Pong, WsFrame::Raw, WsFrame::Close] {
        assert_eq!(noted(handle_ws_message(frame, TRACK).unwrap()), None);
    }
    let blank = "{\"message_type\":\"partial_transcript\",\"text\":[\"x\"]}";
    assert_eq!(noted(handle_ws_message(text_frame(blank), TRACK).unwrap()), None);
    assert!(matches!(handle_ws_message(text_frame("{"), TRACK), Err(PipelineError::Json(_))));
}

#[test]
fn other_messages_are_noted() {
    let error = "{\"message_type\":\"input_error\", \"text\":\"x\"}";
    for (text, kind, content) in [
        ("{\"message_type\":\"session_started\",\"text\":\"x\"}", "started", ""),
        (error, "input error", error),
        ("{\"message_type\":\"ping\"}", "unknown", "ping"),
        ("{\"message_type\":3,\"text\":\"x\"}", "unknown", ""),
        ("{}", "unknown", ""),
        ("[]", "unknown", ""),
        ("7", "unknown", ""),
    ] {
        let reading = handle_ws_message(text_frame(text), TRACK).unwrap();
        assert_eq!(noted(reading), Some((kind, content.to_string())));
    }
    for kind in ["partial_transcript", "committed_transcript", "committed_transcript_with_timestamps"] {
        assert!(message_note(Some(kind), "m").is_none());
    }
    assert!(matches!(message_note(Some("input_error"), "m"), Some(Note::InputError(t)) if t == "m"));
    assert!(matches!(message_note(None, "m"), Some(Note::UnknownKind(kind)) if kind.is_empty()));
}

#[test]
fn api_key_travels_in_a_header() {
    assert_eq!(API_KEY_HEADER, "xi-api-key");
    let cfg = ScribeConfig::new("sk_1 \t\u{E9}".to_string());
    assert_eq!(cfg.api_key_header().unwrap().as_bytes(), "sk_1 \t\u{E9}".as_bytes());
    for bad in ["a\nb", "a\u{7F}", "\u{0}"] {
        match ScribeConfig::new(bad.to_string()).api_key_header() {
            Err(PipelineError::Scribe(message)) => assert_eq!(message, "invalid API key header"),
            _ => panic!("expected an error"),
        }
    }
}

#[test]
fn handle_and_reports() {
    let (tx, mut rx) = tokio::sync::mpsc::channel::<Vec<i16>>(1);
    let handle = ScribeHandle::new(tx);
    assert!(!handle.clone().is_closed());
    assert_eq!(handle.push_pcm(vec![]), PushReport::Ignored);
    assert_eq!(handle.push_pcm(vec![9]), PushReport::Queued);
    assert_eq!(handle.push_pcm(vec![9]), PushReport::DroppedFull);
    assert_eq!(rx.try_recv().unwrap(), vec![9]);
    drop(rx);
    assert_eq!(handle.push_pcm(vec![9]), PushReport::DroppedClosed { first: true });
    assert_eq!(handle.push_pcm(vec![9]), PushReport::DroppedClosed { first: false });
    assert!(handle.is_closed());
    assert_eq!(push_report(SendOutcome::Sent, true), PushReport::Queued);
    assert_eq!(push_report(SendOutcome::Full(vec![]), false), PushReport::DroppedFull);
}

#[test]
fn scribe_task_end_is_reported() {
    assert!(ScribeClient::end_event(TRACK, TaskEnd::Finished).is_none());
    match ScribeClient::end_event(TRACK, TaskEnd::Panicked("boom".to_string())) {
        Some(PipelineEvent::Error { track, error }) => {
            assert_eq!(track, TRACK);
            assert_eq!(error, "client task panicked: boom");
        }
        _ => panic!("expected an error event"),
    }
}

#[test]
fn time_stamps() {
    assert_eq!(ts(0), "00:00:00.000");
    assert_eq!(ts(86_399_999), "23:59:59.999");
    assert_eq!(ts(86_400_000), "00:00:00.000");
    assert_eq!(ts(1_700_000_000_123), "22:13:20.123");
}

fn committed(text: &str) -> ScribeInput {
    ScribeInput::Frame(text_frame(&format!(
        "{{\"message_type\":\"committed_transcript\",\"text\":\"{text}\"}}"
    )))
}

#[test]
fn scribe_session_streams_commits_and_drains() {
    let mut session = ScribeSession::new(TRACK);
    match session.step(ScribeInput::Samples(vec![1, -1])) {
        ScribeAction::Send { message, required } => {
            assert!(required);
            assert_eq!(message, audio_chunk_msg(&[1, -1], false));
        }
        _ => panic!("expected a send"),
    }
    assert!(matches!(session.step(committed("a")), ScribeAction::Emit(_)));
    let bad = ScribeInput::Frame(text_frame("{"));
    assert!(matches!(session.step(bad), ScribeAction::Reject(PipelineError::Json(_))));
    let started = ScribeInput::Frame(text_frame("{\"message_type\":\"session_started\"}"));
    assert!(matches!(session.step(started), ScribeAction::Note(Note::SessionStarted)));
    assert_eq!(session.phase(), Phase::Streaming);
    match session.step(ScribeInput::AudioClosed) {
        ScribeAction::Send { message, required } => {
            assert!(!required);
            assert_eq!(message, audio_chunk_msg(&[], true));
        }
        _ => panic!("expected the commit"),
    }
    assert_eq!(session.phase(), Phase::Draining);
    assert!(matches!(session.step(ScribeInput::AudioClosed), ScribeAction::Nothing));
    assert!(matches!(session.step(ScribeInput::Samples(vec![1])), ScribeAction::Nothing));
    assert!(matches!(session.step(committed("tail")), ScribeAction::Emit(
        PipelineEvent::Flushed { track, text, .. }) if track == TRACK && text == "tail"));
    let late = ScribeInput::Frame(text_frame("{\"message_type\":\"late\"}"));
    assert!(matches!(session.step(late), ScribeAction::Note(Note::UnknownKind(k)) if k == "late"));
    let bad = ScribeInput::Frame(text_frame("{"));
    assert!(matches!(session.step(bad), ScribeAction::Nothing));
    assert!(matches!(session.step(ScribeInput::StreamError), ScribeAction::Nothing));
    assert_eq!(session.phase(), Phase::Ended);
    assert!(matches!(session.step(committed("late")), ScribeAction::Nothing));
}

#[test]
fn scribe_session_ends_with_the_connection() {
    let mut session = ScribeSession::new(TRACK);
    assert!(matches!(session.step(ScribeInput::StreamEnded), ScribeAction::Nothing));
    assert_eq!(session.phase(), Phase::Draining);
    session.step(ScribeInput::StreamEnded);
    assert_eq!(session.phase(), Phase::Ended);
    let mut session = ScribeSession::new(TRACK);
    assert!(matches!(session.step(ScribeInput::StreamError), ScribeAction::Fail));
    assert_eq!(session.phase(), Phase::Ended);
}

#[test]
fn texts_compare_by_characters() {
    assert!(has_prefix("audio/pcm", "audio/"));
    assert!(has_prefix("x", ""));
    assert!(!has_prefix("audio", "audio/"));
    assert!(!has_prefix("Audio/", "audio/"));
    assert!(same_text("gr\u{FC}n", "gr\u{FC}n"));
    assert!(!same_text("a", "ab"));
    assert!(!same_text("ab", "a"));
    assert!(same_text("", ""));
}
