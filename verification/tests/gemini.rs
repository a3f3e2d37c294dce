use base64::Engine;
use pipeline::events::{PipelineEvent, TaskEnd, TrackId};
use pipeline::frame::{frame_text, FrameText, WsFrame};
use pipeline::gemini::session::{GeminiSession, SessionInput, SessionNext, SessionOutput};
use pipeline::gemini::setup::{message_step, reply_step, setup_step, SetupInput, SetupStep};
use pipeline::gemini::task::{GeminiTask, TaskAction, TaskInput, TaskPhase};
use pipeline::gemini::wire::{
    audio_message, GeminiError, GeminiResponse, InlineData, ModelTurn, Part, RealtimeInputMessage,
    ServerContent, SetupComplete, Transcription,
};
use pipeline::gemini::{
    bcp47_from_deepl, bcp47_from_lowercase, GeminiClient, GeminiConfig, GeminiHandle,
    DEFAULT_MODEL, INPUT_CHUNK_SAMPLES, INPUT_SAMPLE_RATE, OUTPUT_SAMPLE_RATE,
};
use pipeline::json::{quote, quote_list};
use pipeline::pcm::{decode_pcm, encode_pcm};
use pipeline::queue::PushReport;
use serde_json::Value;

const TRACK: TrackId = TrackId(1);

fn amplitude(sample: i16) -> f32 {
    sample as f32 / 32768.0
}

#[test]
fn decode_pcm_silence() {
    let raw = vec![0u8, 0, 0, 0, 0, 0];
    let b64 = base64::engine::general_purpose::STANDARD.encode(&raw);
    let samples = decode_pcm(&b64).unwrap();
    assert_eq!(samples.len(), 3);
    assert!(samples.iter().all(|&s| amplitude(s).abs() < 0.001));
}

#[test]
fn decode_pcm_max() {
    let raw = vec![0xFF, 0x7F]; // i16 max
    let b64 = base64::engine::general_purpose::STANDARD.encode(&raw);
    let samples = decode_pcm(&b64).unwrap();
    assert_eq!(samples.len(), 1);
    assert!((amplitude(samples[0]) - 1.0).abs() < 0.001);
}

#[test]
fn setup_message_serializes() {
    let cfg = GeminiConfig::new("key", "de");
    let json = cfg.setup_message().to_json();
    assert!(json.contains("setup"));
    assert!(json.contains("AUDIO"));
    assert!(json.contains("translationConfig"));
    assert!(json.contains("de"));
}

#[test]
fn setup_message_has_the_wire_shape() {
    let mut cfg = GeminiConfig::new("key", "de");
    cfg.echo_target_language = true;
    assert_eq!(
        cfg.setup_message().to_json(),
        "{\"setup\":{\"model\":\"models/gemini-3.5-live-translate-preview\",\
         \"generationConfig\":{\"responseModalities\":[\"AUDIO\"],\
         \"translationConfig\":{\"targetLanguageCode\":\"de\",\"echoTargetLanguage\":true}},\
         \"inputAudioTranscription\":{},\"outputAudioTranscription\":{}}}"
    );
    cfg.model = "a\"b\\\n".to_string();
    cfg.echo_target_language = false;
    let v: Value = serde_json::from_str(&cfg.setup_message().to_json()).unwrap();
    assert_eq!(v["setup"]["model"], "models/a\"b\\\n");
    let generation = &v["setup"]["generationConfig"];
    assert_eq!(generation["responseModalities"][0], "AUDIO");
    assert_eq!(generation["translationConfig"]["targetLanguageCode"], "de");
    assert_eq!(generation["translationConfig"]["echoTargetLanguage"], false);
    assert!(v["setup"]["inputAudioTranscription"].is_object());
    assert!(v["setup"]["outputAudioTranscription"].is_object());
}

#[test]
fn json_lists_are_quoted() {
    assert_eq!(quote("a\"\u{1}\u{FC}"), "\"a\\\"\\u0001\u{FC}\"");
    assert_eq!(quote_list(&vec![]), "[]");
    assert_eq!(quote_list(&vec!["x".to_string()]), "[\"x\"]");
    assert_eq!(quote_list(&vec!["x".to_string(), "y".to_string()]), "[\"x\",\"y\"]");
}

#[test]
fn setup_message_follows_config() {
    let mut cfg = GeminiConfig::new("key", "de");
    cfg.model = "other".to_string();
    cfg.echo_target_language = true;
    let setup = cfg.setup_message().setup;
    assert_eq!(setup.model, "models/other");
    assert_eq!(setup.generation_config.response_modalities, vec!["AUDIO".to_string()]);
    assert_eq!(setup.generation_config.translation_config.target_language_code, "de");
    assert!(setup.generation_config.translation_config.echo_target_language);
}

#[test]
fn bcp47_mapping_from_deepl_codes() {
    assert_eq!(bcp47_from_deepl("DE"), "de");
    assert_eq!(bcp47_from_deepl("EN"), "en");
    assert_eq!(bcp47_from_deepl("PT-PT"), "pt-PT");
    assert_eq!(bcp47_from_deepl("ZH"), "zh-Hans");
    assert_eq!(bcp47_from_deepl("et"), "et");
}

#[test]
fn bcp47_every_known_code() {
    for (code, expected) in [
        ("en", "en"),
        ("de", "de"),
        ("nl", "nl"),
        ("et", "et"),
        ("it", "it"),
        ("es", "es"),
        ("fr", "fr"),
        ("pl", "pl"),
        ("pt", "pt-PT"),
        ("pt-pt", "pt-PT"),
        ("PT-BR", "pt-BR"),
        ("ru", "ru"),
        ("zh-Hans", "zh-Hans"),
        ("ZH-HANT", "zh-Hant"),
        ("ja", "ja"),
        ("ko", "ko"),
        ("SV-se", "sv-se"),
        ("", ""),
    ] {
        assert_eq!(bcp47_from_deepl(code), expected);
        assert_eq!(bcp47_from_deepl(expected), expected);
    }
}

#[test]
fn bcp47_folds_case_beyond_ascii() {
    // The Kelvin sign is a capital k.
    assert_eq!(bcp47_from_deepl("\u{212A}O"), "ko");
    assert_eq!(bcp47_from_deepl("\u{C4}"), "\u{E4}");
    assert_eq!(bcp47_from_lowercase("PT".to_string()), "PT");
    // Codes beyond ASCII are merged by case alone.
    assert_eq!(bcp47_from_deepl("Z\u{C4}"), bcp47_from_deepl("z\u{E4}"));
    assert_ne!(bcp47_from_deepl("z\u{E4}"), bcp47_from_deepl("za"));
    // Lowercase text holds no ASCII capital, whatever it was made from.
    for c in '\u{0}'..=char::MAX {
        assert!(!bcp47_from_deepl(&c.to_string()).contains(|l: char| l.is_ascii_uppercase()));
    }
    assert_eq!(bcp47_from_lowercase("pt".to_string()), "pt-PT");
}

#[test]
fn bcp47_merges_only_case_and_two_defaults() {
    let codes = ["en", "de", "pt", "pt-pt", "pt-br", "zh", "zh-hans", "zh-hant", "ja", "x-y", ""];
    for a in codes {
        assert_eq!(bcp47_from_deepl(a), bcp47_from_deepl(&a.to_uppercase()));
        for b in codes {
            let merged = a == b
                || (["pt", "pt-pt"].contains(&a) && ["pt", "pt-pt"].contains(&b))
                || (["zh", "zh-hans"].contains(&a) && ["zh", "zh-hans"].contains(&b));
            assert_eq!(bcp47_from_deepl(a) == bcp47_from_deepl(b), merged, "{a} and {b}");
        }
    }
}

#[test]
fn config_defaults_and_url() {
    let cfg = GeminiConfig::new("k-123".to_string(), "pl");
    assert_eq!(cfg.api_key, "k-123");
    assert_eq!(cfg.model, DEFAULT_MODEL);
    assert_eq!(cfg.target_language_code, "pl");
    assert!(!cfg.echo_target_language);
    assert_eq!(
        cfg.ws_url(),
        "wss://generativelanguage.googleapis.com/ws/google.ai.generativelanguage.v1beta.GenerativeService.BidiGenerateContent?key=k-123"
    );
    let copy = cfg.clone();
    assert_eq!(copy.ws_url(), cfg.ws_url());
    assert_eq!(INPUT_SAMPLE_RATE, 16_000);
    assert_eq!(OUTPUT_SAMPLE_RATE, 24_000);
    assert_eq!(INPUT_CHUNK_SAMPLES, 1600);
}

#[test]
fn handle_reports_pushes() {
    let (tx, mut rx) = tokio::sync::mpsc::channel::<Vec<i16>>(1);
    let handle = GeminiHandle::new(tx);
    let other = handle.clone();
    assert!(!handle.is_closed());
    assert_eq!(handle.push_pcm(vec![]), PushReport::Ignored);
    assert_eq!(handle.push_pcm(vec![1, -2]), PushReport::Queued);
    assert_eq!(handle.push_pcm(vec![3]), PushReport::DroppedFull);
    assert_eq!(rx.try_recv().unwrap(), vec![1, -2]);
    assert!(rx.try_recv().is_err());
    assert_eq!(other.push_pcm(vec![4]), PushReport::Queued);
    drop(rx);
    assert!(handle.is_closed());
    assert!(other.is_closed());
    assert_eq!(handle.push_pcm(vec![]), PushReport::Ignored);
    assert_eq!(handle.push_pcm(vec![5]), PushReport::DroppedClosed { first: true });
    assert_eq!(handle.push_pcm(vec![6]), PushReport::DroppedClosed { first: false });
    assert_eq!(other.push_pcm(vec![7]), PushReport::DroppedClosed { first: false });
}

#[test]
fn task_end_is_reported() {
    assert!(GeminiClient::end_event(TRACK, TaskEnd::Finished).is_none());
    for (end, text) in [
        (TaskEnd::Failed("no route".to_string()), "no route"),
        (TaskEnd::Panicked("boom".to_string()), "Gemini client task panicked: boom"),
        (TaskEnd::PanickedOpaquely, "Gemini client task panicked: <non-string panic>"),
    ] {
        match GeminiClient::end_event(TRACK, end) {
            Some(PipelineEvent::Error { track, error }) => {
                assert_eq!(track, TRACK);
                assert_eq!(error, text);
            }
            _ => panic!("expected an error event"),
        }
    }
}

#[test]
fn frames_hold_text() {
    assert!(matches!(frame_text(WsFrame::Text("a".to_string())), FrameText::Text(t) if t == "a"));
    let bytes = "gr\u{FC}n".as_bytes().to_vec();
    assert!(matches!(frame_text(WsFrame::Binary(bytes)), FrameText::Text(t) if t == "gr\u{FC}n"));
    assert!(matches!(frame_text(WsFrame::Binary(vec![0xFF, 0x41])), FrameText::Skip));
    assert!(matches!(frame_text(WsFrame::Ping), FrameText::Skip));
    assert!(matches!(frame_text(WsFrame::Pong), FrameText::Skip));
    assert!(matches!(frame_text(WsFrame::Raw), FrameText::Skip));
    assert!(matches!(frame_text(WsFrame::Close), FrameText::Close));
}

fn failed(step: SetupStep) -> String {
    match step {
        SetupStep::Failed(message) => message,
        _ => panic!("expected a failure"),
    }
}

#[test]
fn setup_waits_for_completion() {
    let frame = |text: &str| SetupInput::Frame(WsFrame::Text(text.to_string()));
    assert!(matches!(setup_step(frame("{\"setupComplete\":{}}")), SetupStep::Ready));
    let binary = WsFrame::Binary(b"{\"setupComplete\":null}".to_vec());
    assert!(matches!(setup_step(SetupInput::Frame(binary)), SetupStep::Ready));
    assert!(matches!(setup_step(frame("{\"other\":1}")), SetupStep::Wait));
    assert!(matches!(setup_step(frame("[\"setupComplete\"]")), SetupStep::Wait));
    assert!(matches!(setup_step(frame("not json")), SetupStep::Wait));
    assert!(matches!(setup_step(SetupInput::Frame(WsFrame::Binary(vec![0xFF]))), SetupStep::Wait));
    assert!(matches!(setup_step(SetupInput::Frame(WsFrame::Ping)), SetupStep::Wait));
    assert!(matches!(setup_step(SetupInput::StreamError), SetupStep::StreamFailed));
}

#[test]
fn setup_failures_are_named() {
    assert_eq!(
        failed(message_step("{\"error\": {\"message\": \"bad key\", \"code\": 7}}")),
        "Gemini setup error: {\"code\":7,\"message\":\"bad key\"}"
    );
    // An error fails the session even beside a completed setup.
    assert_eq!(
        failed(message_step("{\"setupComplete\":{},\"error\":\"late\"}")),
        "Gemini setup error: \"late\""
    );
    assert_eq!(failed(reply_step(true, Some("x".to_string()))), "Gemini setup error: x");
    assert!(matches!(reply_step(true, None), SetupStep::Ready));
    assert!(matches!(reply_step(false, None), SetupStep::Wait));
    assert_eq!(
        failed(setup_step(SetupInput::Frame(WsFrame::Close))),
        "server closed WebSocket before setupComplete"
    );
    assert_eq!(
        failed(setup_step(SetupInput::StreamEnded)),
        "Gemini: ws stream ended before setupComplete"
    );
    assert_eq!(
        failed(setup_step(SetupInput::TimedOut)),
        "Gemini: timeout waiting for setupComplete"
    );
}

fn carried(message: &RealtimeInputMessage) -> Vec<i16> {
    let audio = &message.realtime_input.audio;
    assert_eq!(audio.mime_type, "audio/pcm;rate=16000");
    decode_pcm(&audio.data).unwrap()
}

#[test]
fn audio_message_is_base64_pcm() {
    let message = audio_message(&[1, -1]);
    assert_eq!(message.realtime_input.audio.data, "AQD//w==");
    assert_eq!(message.realtime_input.audio.mime_type, "audio/pcm;rate=16000");
    assert_eq!(carried(&message), vec![1, -1]);
    assert_eq!(
        message.to_json(),
        "{\"realtimeInput\":{\"audio\":{\"data\":\"AQD//w==\",\"mimeType\":\"audio/pcm;rate=16000\"}}}"
    );
}

#[test]
fn audio_message_reads_back() {
    let mut message = audio_message(&[7]);
    message.realtime_input.audio.data = "a\"\\\n\u{1F600}".to_string();
    let v: Value = serde_json::from_str(&message.to_json()).unwrap();
    assert_eq!(v.as_object().unwrap().len(), 1);
    assert_eq!(v["realtimeInput"].as_object().unwrap().len(), 1);
    let audio = v["realtimeInput"]["audio"].as_object().unwrap();
    assert_eq!(audio.len(), 2);
    assert_eq!(audio["data"], "a\"\\\n\u{1F600}");
    assert_eq!(audio["mimeType"], "audio/pcm;rate=16000");
}

#[test]
fn only_canonical_base64_decodes() {
    assert_eq!(decode_pcm("AQD//w==").unwrap(), vec![1, -1]);
    for text in [
        "AQD//w", "AQD//w=", "AQD//w===", "AQD//x==", "AQD//w==\n", " AQD//w==", "AQD__w==",
        "AQ==AQ==", "AQA", "AQB=", "A", "=", "====", "\u{FC}AAA",
    ] {
        assert!(decode_pcm(text).is_none(), "{text:?}");
    }
}

#[test]
fn base64_pads_the_last_group() {
    assert_eq!(encode_pcm(&[0]), "AAA=");
    assert_eq!(encode_pcm(&[-5, -1]), "+////w==");
    assert_eq!(encode_pcm(&[1, 2, 3]), "AQACAAMA");
}

#[test]
fn pcm_reads_back() {
    let samples = vec![0, 1, -1, 255, 256, -256, i16::MAX, i16::MIN];
    assert_eq!(decode_pcm(&encode_pcm(&samples)).unwrap(), samples);
    assert_eq!(encode_pcm(&[]), "");
    assert!(decode_pcm("").is_none());
    assert!(decode_pcm("!!").is_none());
    assert!(decode_pcm("AA==").is_none()); // one byte
    assert_eq!(decode_pcm("AQD/").unwrap(), vec![1]); // an odd byte at the end
}

fn samples(n: usize, from: usize) -> Vec<i16> {
    (from..from + n).map(|i| (i % 30_000) as i16).collect()
}

#[test]
fn session_sends_whole_chunks_and_loses_nothing() {
    let mut session = GeminiSession::new(TRACK);
    let mut sent: Vec<i16> = Vec::new();
    let mut fed: Vec<i16> = Vec::new();
    for n in [1599, 1, 1600, 5000, 0, 37] {
        let new = samples(n, fed.len());
        fed.extend_from_slice(&new);
        let out = session.step(SessionInput::Samples(new));
        assert!(out.sends_required);
        assert!(matches!(out.next, SessionNext::Continue));
        for message in &out.sends {
            let chunk = carried(message);
            assert_eq!(chunk.len(), 1600);
            sent.extend_from_slice(&chunk);
        }
        assert!(fed.len() - sent.len() < 1600);
        assert!(fed.starts_with(&sent));
    }
    let out = session.step(SessionInput::FlushTick);
    assert_eq!(out.sends.len(), 1);
    assert!(out.sends_required);
    sent.extend_from_slice(&carried(&out.sends[0]));
    assert_eq!(sent, fed);
    assert!(session.step(SessionInput::FlushTick).sends.is_empty());

    session.step(SessionInput::Samples(vec![8, 9]));
    let out = session.step(SessionInput::AudioClosed);
    assert!(!out.sends_required);
    assert_eq!(carried(&out.sends[0]), vec![8, 9]);
    assert!(matches!(out.next, SessionNext::Finish));
    let out = GeminiSession::new(TRACK).step(SessionInput::AudioClosed);
    assert!(out.sends.is_empty());
    assert!(matches!(out.next, SessionNext::Finish));
}

fn silent(out: &SessionOutput) -> bool {
    out.sends.is_empty() && out.events.is_empty() && out.audio.is_empty()
}

fn text_input(text: &str) -> TaskInput {
    TaskInput::Frame(WsFrame::Text(text.to_string()))
}

fn sent_by(action: TaskAction) -> Vec<i16> {
    match action {
        TaskAction::Stream(out) => out.sends.iter().flat_map(|m| carried(m)).collect(),
        _ => panic!("expected the session"),
    }
}

#[test]
fn task_streams_only_after_setup() {
    let mut cfg = GeminiConfig::new("key", "de");
    cfg.model = "other".to_string();
    let mut task = GeminiTask::new(cfg, TRACK);
    assert_eq!(task.phase(), TaskPhase::Opening);
    // Before the connection is open nothing is done, even on a completed setup.
    assert!(matches!(task.step(text_input("{\"setupComplete\":{}}")), TaskAction::Nothing));
    assert_eq!(task.phase(), TaskPhase::Opening);
    match task.step(TaskInput::Connected) {
        TaskAction::SendSetup(message) => assert_eq!(message.setup.model, "models/other"),
        _ => panic!("expected the setup message"),
    }
    assert_eq!(task.phase(), TaskPhase::Setup);
    for input in [
        TaskInput::Connected,
        TaskInput::Samples(samples(1600, 0)),
        TaskInput::FlushTick,
        TaskInput::BadResponse,
        TaskInput::AudioClosed,
        text_input("not json"),
        text_input("{\"other\":1}"),
        TaskInput::Frame(WsFrame::Pong),
    ] {
        assert!(matches!(task.step(input), TaskAction::Nothing));
        assert_eq!(task.phase(), TaskPhase::Setup);
    }
    let complete = TaskInput::Frame(WsFrame::Binary(b"{\"setupComplete\":{}}".to_vec()));
    assert!(matches!(task.step(complete), TaskAction::Start));
    assert_eq!(task.phase(), TaskPhase::Streaming);
    assert!(matches!(task.step(TaskInput::Connected), TaskAction::Nothing));
    assert!(matches!(task.step(TaskInput::SetupTimedOut), TaskAction::Nothing));
    assert_eq!(sent_by(task.step(TaskInput::Samples(samples(1600, 0)))), samples(1600, 0));
    assert!(sent_by(task.step(TaskInput::Samples(vec![5]))).is_empty());
    assert_eq!(sent_by(task.step(TaskInput::FlushTick)), vec![5]);
    match task.step(text_input("{}")) {
        TaskAction::Stream(out) => assert!(matches!(out.next, SessionNext::Read(t) if t == "{}")),
        _ => panic!("expected the session"),
    }
    task.step(TaskInput::Samples(vec![6, 7]));
    assert_eq!(sent_by(task.step(TaskInput::AudioClosed)), vec![6, 7]);
    assert_eq!(task.phase(), TaskPhase::Ended);
    assert!(matches!(task.step(TaskInput::Connected), TaskAction::Nothing));
    assert!(matches!(task.step(TaskInput::Samples(vec![1])), TaskAction::Nothing));
}

#[test]
fn task_fails_in_its_phases() {
    let opened = || {
        let mut task = GeminiTask::new(GeminiConfig::new("key", "de"), TRACK);
        task.step(TaskInput::Connected);
        task
    };
    for (input, text) in [
        (TaskInput::SetupTimedOut, "Gemini: timeout waiting for setupComplete"),
        (TaskInput::StreamEnded, "Gemini: ws stream ended before setupComplete"),
        (TaskInput::Frame(WsFrame::Close), "server closed WebSocket before setupComplete"),
        (text_input("{\"setupComplete\":{},\"error\":7}"), "Gemini setup error: 7"),
    ] {
        let mut task = opened();
        assert!(matches!(task.step(input), TaskAction::Fail(message) if message == text));
        assert_eq!(task.phase(), TaskPhase::Ended);
    }
    let mut task = opened();
    assert!(matches!(task.step(TaskInput::StreamError), TaskAction::FailStream));
    assert_eq!(task.phase(), TaskPhase::Ended);
    let mut task = opened();
    task.step(text_input("{\"setupComplete\":{}}"));
    match task.step(TaskInput::StreamError) {
        TaskAction::Stream(out) => assert!(matches!(out.next, SessionNext::Fail)),
        _ => panic!("expected the session"),
    }
    assert_eq!(task.phase(), TaskPhase::Ended);
}

#[test]
fn session_reads_frames() {
    let mut session = GeminiSession::new(TRACK);
    let out = session.step(SessionInput::Frame(WsFrame::Binary(b"{}".to_vec())));
    assert!(silent(&out));
    assert!(matches!(out.next, SessionNext::Read(text) if text == "{}"));
    let out = session.step(SessionInput::Frame(WsFrame::Pong));
    assert!(silent(&out) && matches!(out.next, SessionNext::Continue));
    let out = session.step(SessionInput::Frame(WsFrame::Close));
    assert!(silent(&out) && matches!(out.next, SessionNext::Finish));
    let out = session.step(SessionInput::BadResponse);
    assert!(silent(&out) && matches!(out.next, SessionNext::Continue));
    let out = session.step(SessionInput::StreamEnded);
    assert!(silent(&out) && matches!(out.next, SessionNext::Finish));
    let out = session.step(SessionInput::StreamError);
    assert!(silent(&out) && matches!(out.next, SessionNext::Fail));
}

fn transcript(text: &str) -> Option<Transcription> {
    Some(Transcription { text: text.to_string(), language_code: None })
}

fn response(
    input: Option<Transcription>,
    output: Option<Transcription>,
    parts: Vec<(&str, &str)>,
) -> SessionInput {
    let parts = parts
        .into_iter()
        .map(|(mime_type, data)| Part {
            inline_data: Some(InlineData {
                mime_type: mime_type.to_string(),
                data: data.to_string(),
            }),
        })
        .collect();
    SessionInput::Response(GeminiResponse {
        setup_complete: None,
        server_content: Some(ServerContent {
            input_transcription: input,
            output_transcription: output,
            model_turn: Some(ModelTurn { parts }),
        }),
        error: None,
    })
}

fn translated(event: &PipelineEvent) -> (String, String) {
    match event {
        PipelineEvent::Translated { track, source_text, translated } => {
            assert_eq!(*track, TRACK);
            (source_text.clone(), translated.clone())
        }
        _ => panic!("expected a translation"),
    }
}

fn pair(a: &str, b: &str) -> (String, String) {
    (a.to_string(), b.to_string())
}

#[test]
fn session_reports_transcripts() {
    let mut session = GeminiSession::new(TRACK);
    // A translation before any input transcript has no source.
    let out = session.step(response(None, transcript(" hallo\n"), vec![]));
    assert_eq!(out.events.len(), 1);
    assert_eq!(translated(&out.events[0]), pair("...", "hallo"));

    // The transcript of the same response comes first and is the source.
    let out = session.step(response(transcript("\u{3000}good day "), transcript("guten Tag"), vec![]));
    assert_eq!(out.events.len(), 2);
    assert!(matches!(&out.events[0], PipelineEvent::Partial { track, text }
        if *track == TRACK && text == "good day"));
    assert_eq!(translated(&out.events[1]), pair("good day", "guten Tag"));

    // A blank transcript is not reported and not remembered.
    let out = session.step(response(transcript(" \t"), transcript("bis bald"), vec![]));
    assert_eq!(out.events.len(), 1);
    assert_eq!(translated(&out.events[0]), pair("good day", "bis bald"));
    assert!(session.step(response(None, transcript("  "), vec![])).events.is_empty());
    let empty = GeminiResponse {
        setup_complete: Some(SetupComplete {}),
        server_content: None,
        error: None,
    };
    let out = session.step(SessionInput::Response(empty));
    assert!(silent(&out) && matches!(out.next, SessionNext::Continue));
}

#[test]
fn session_plays_audio_parts_in_order() {
    let mut session = GeminiSession::new(TRACK);
    let out = session.step(response(
        None,
        None,
        vec![
            ("audio/pcm;rate=24000", "AQD//w=="),
            ("text/plain", "AQD//w=="),
            ("audio/pcm", "not base64"),
            ("audio/", "AgA="),
            ("audio", "AgA="),
        ],
    ));
    assert!(out.events.is_empty());
    assert_eq!(out.audio, vec![vec![1, -1], vec![2]]);
    // What decodes to no sample is not played.
    let out = session.step(response(None, None, vec![("audio/pcm", ""), ("audio/pcm", "AA==")]));
    assert!(out.audio.is_empty());
    let no_data = SessionInput::Response(GeminiResponse {
        setup_complete: None,
        server_content: Some(ServerContent {
            input_transcription: None,
            output_transcription: None,
            model_turn: Some(ModelTurn { parts: vec![Part { inline_data: None }] }),
        }),
        error: None,
    });
    assert!(silent(&session.step(no_data)));
}

#[test]
fn session_ends_on_server_error() {
    for (code, text) in [
        (Some(404), "Gemini API error: gone (code Some(404))"),
        (Some(-3), "Gemini API error: gone (code Some(-3))"),
        (Some(i32::MIN), "Gemini API error: gone (code Some(-2147483648))"),
        (None, "Gemini API error: gone (code None)"),
    ] {
        let mut session = GeminiSession::new(TRACK);
        let out = session.step(SessionInput::Response(GeminiResponse {
            setup_complete: None,
            server_content: Some(ServerContent {
                input_transcription: transcript("ignored"),
                output_transcription: transcript("ignored"),
                model_turn: None,
            }),
            error: Some(GeminiError { message: "gone".to_string(), code }),
        }));
        assert_eq!(out.events.len(), 1);
        assert!(matches!(&out.events[0], PipelineEvent::Error { track, error }
            if *track == TRACK && error == text));
        assert!(out.audio.is_empty());
        assert!(matches!(out.next, SessionNext::Finish));
    }
}
