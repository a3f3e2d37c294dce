//! ElevenLabs Scribe v2 Realtime: streaming speech-to-text over one WebSocket
//! for each track. Audio goes in as base64 JSON chunks, JSON events come out,
//! and the server commits an utterance when its voice activity detection (VAD)
//! finds silence.
pub mod conduct;
pub mod message;
pub mod session;
pub mod url;

use crate::decimal::padded;
use crate::decimal::Decimal;
use crate::events::task_end_event;
use crate::events::PipelineEvent;
use crate::events::TaskEnd;
use crate::events::TrackId;
use crate::queue::AudioQueue;
use crate::queue::PushReport;
use crate::queue::SendOutcome;
use vstd::prelude::*;

verus! {

/// Tuning of the VAD by which Scribe commits utterances. A preset sets all four
/// values together.
#[derive(Clone, Copy, Debug, PartialEq, Eq, Structural)]
pub struct VadPreset {
    /// Seconds of silence before an utterance is committed (0.3 to 3.0).
    pub silence_threshold_secs: Decimal,
    /// Sensitivity of speech detection (0.1 to 0.9). Lower is more sensitive.
    pub threshold: Decimal,
    /// Shorter bursts of speech are ignored (50 to 2000 ms).
    pub min_speech_duration_ms: u32,
    /// Shorter gaps of silence are ignored (50 to 2000 ms).
    pub min_silence_duration_ms: u32,
}

impl Default for VadPreset {
    /// The ElevenLabs defaults: complete sentences, at a higher latency.
    fn default() -> (preset: Self)
        ensures
            preset.silence_threshold_secs == (Decimal { units: 15, scale: 1 }),
            preset.threshold == (Decimal { units: 4, scale: 1 }),
            preset.min_speech_duration_ms == 100,
            preset.min_silence_duration_ms == 100,
    {
        VadPreset {
            silence_threshold_secs: Decimal::new(15, 1),
            threshold: Decimal::new(4, 1),
            min_speech_duration_ms: 100,
            min_silence_duration_ms: 100,
        }
    }
}

impl VadPreset {
    /// Regular conversation: commits on the natural pauses between sentences.
    pub fn slow_speech() -> (preset: Self)
        ensures
            preset.silence_threshold_secs == (Decimal { units: 1, scale: 0 }),
            preset.threshold == (Decimal { units: 4, scale: 1 }),
            preset.min_speech_duration_ms == 100,
            preset.min_silence_duration_ms == 100,
    {
        let mut preset = VadPreset::default();
        preset.silence_threshold_secs = Decimal::new(1, 0);
        preset
    }

    /// Rapid speech and news: short pauses count as silence, so that fast
    /// speakers do not pile up sentences.
    pub fn fast_speech() -> (preset: Self)
        ensures
            preset.silence_threshold_secs == (Decimal { units: 5, scale: 1 }),
            preset.threshold == (Decimal { units: 4, scale: 1 }),
            preset.min_speech_duration_ms == 50,
            preset.min_silence_duration_ms == 50,
    {
        let mut preset = VadPreset::default();
        preset.silence_threshold_secs = Decimal::new(5, 1);
        preset.min_speech_duration_ms = 50;
        preset.min_silence_duration_ms = 50;
        preset
    }
}

/// Configuration of a Scribe session.
#[derive(Debug)]
pub struct ScribeConfig {
    pub api_key: String,
    pub model: String,
    /// ISO 639-1 or 639-3 language code, such as `"en"` or `"zho"`; `None` lets
    /// the server detect the language.
    pub language_code: Option<String>,
    /// Tuning of the VAD.
    pub vad: VadPreset,
    pub endpoint: String,
}

impl Clone for ScribeConfig {
    fn clone(&self) -> (copy: Self)
        ensures
            copy == *self,
    {
        Self {
            api_key: self.api_key.clone(),
            model: self.model.clone(),
            language_code: match &self.language_code {
                Some(code) => Some(code.clone()),
                None => None,
            },
            vad: self.vad,
            endpoint: self.endpoint.clone(),
        }
    }
}

/// Whether `cfg` has the model, the endpoint and the VAD tuning of a new
/// configuration.
pub open spec fn has_defaults(cfg: ScribeConfig) -> bool {
    &&& cfg.model@ == "scribe_v2_realtime"@
    &&& cfg.endpoint@ == "wss://api.elevenlabs.io/v1/speech-to-text/realtime"@
    &&& cfg.vad.silence_threshold_secs == (Decimal { units: 15, scale: 1 })
    &&& cfg.vad.threshold == (Decimal { units: 4, scale: 1 })
    &&& cfg.vad.min_speech_duration_ms == 100
    &&& cfg.vad.min_silence_duration_ms == 100
}

impl ScribeConfig {
    /// The defaults, with automatic language detection.
    pub fn new(api_key: String) -> (cfg: Self)
        ensures
            cfg.api_key == api_key,
            cfg.language_code is None,
            has_defaults(cfg),
    {
        Self {
            api_key,
            model: String::from("scribe_v2_realtime"),
            language_code: None,
            vad: VadPreset::default(),
            endpoint: String::from("wss://api.elevenlabs.io/v1/speech-to-text/realtime"),
        }
    }

    /// The defaults, with the given language.
    pub fn with_language<Code: Into<String>>(api_key: String, language: Code) -> (cfg: Self)
        ensures
            cfg.api_key == api_key,
            cfg.language_code matches Some(code) && call_ensures(
                <Code as Into<String>>::into,
                (language,),
                code,
            ),
            has_defaults(cfg),
    {
        let mut cfg = Self::new(api_key);
        cfg.language_code = Some(language.into());
        cfg
    }
}

/// The handle through which a caller feeds audio into a session. It can be
/// cloned; when the last clone is dropped, the audio closes and the session
/// commits and ends.
pub struct ScribeHandle {
    queue: AudioQueue,
}

impl Clone for ScribeHandle {
    fn clone(&self) -> (copy: Self)
        ensures
            copy == *self,
    {
        ScribeHandle { queue: self.queue.clone() }
    }
}

impl ScribeHandle {
    /// The queue that the handle feeds.
    pub closed spec fn queue(&self) -> AudioQueue {
        self.queue
    }

    /// A handle that feeds the given channel.
    pub fn new(audio_tx: tokio::sync::mpsc::Sender<Vec<i16>>) -> (handle: Self)
        ensures
            handle.queue().channel() == audio_tx,
            handle.queue().unflagged(),
    {
        ScribeHandle { queue: AudioQueue::new(audio_tx) }
    }

    /// Pushes 16-bit PCM samples (16 kHz mono) without blocking. An empty push
    /// is ignored; whether others are queued depends on the channel.
    pub fn push_pcm(&self, samples: Vec<i16>) -> (report: PushReport)
        ensures
            exists|outcome: SendOutcome, earlier: bool|
                self.queue().answered(samples, outcome, earlier, report),
    {
        let report = self.queue.push(samples);
        assert(self.queue() == self.queue);
        report
    }

    /// Whether the client task has ended, which depends on the channel at that
    /// moment.
    pub fn is_closed(&self) -> (closed: bool)
        ensures
            self.queue().asked(closed),
    {
        self.queue.is_closed()
    }
}

/// The Scribe client, which runs one session in a background task.
pub struct ScribeClient;

impl ScribeClient {
    /// The event that reports how the background task ended: none where it
    /// finished, else an error with the text of the failure or of the panic.
    pub fn end_event(track: TrackId, end: TaskEnd) -> (event: Option<PipelineEvent>)
        ensures
            match event {
                Some(e) => crate::events::task_end_view(track, end, "client task panicked: "@)
                    == Some(e@),
                None => crate::events::task_end_view(track, end, "client task panicked: "@) is None,
            },
    {
        task_end_event(track, end, "client task panicked: ")
    }
}

/// The time of day at `unix_ms` milliseconds after the epoch, in UTC, as
/// `HH:MM:SS.mmm`.
pub open spec fn time_text(unix_ms: nat) -> Seq<char> {
    let s = (unix_ms / 1000) % 86400;
    crate::decimal::padded_text(s / 3600, 2) + ":"@ + crate::decimal::padded_text(
        (s % 3600) / 60,
        2,
    ) + ":"@ + crate::decimal::padded_text(s % 60, 2) + "."@ + crate::decimal::padded_text(
        unix_ms % 1000,
        3,
    )
}

/// The time of day at `unix_ms` milliseconds after the epoch, in UTC, as
/// `HH:MM:SS.mmm`.
pub fn ts(unix_ms: u128) -> (text: String)
    ensures
        text@ == time_text(unix_ms as nat),
{
    let s: u64 = ((unix_ms / 1000) % 86400) as u64;
    let ms: u64 = (unix_ms % 1000) as u64;
    let mut text = padded(s / 3600, 2);
    text.append(":");
    text.append(padded((s % 3600) / 60, 2).as_str());
    text.append(":");
    text.append(padded(s % 60, 2).as_str());
    text.append(".");
    text.append(padded(ms, 3).as_str());
    text
}

/// A time stamp is twelve characters wide, and its digits read back as the time
/// of day.
pub proof fn law_time_reads_back(unix_ms: nat)
    ensures
        time_text(unix_ms).len() == 12,
        time_text(unix_ms)[2] == ':' && time_text(unix_ms)[5] == ':' && time_text(unix_ms)[8]
            == '.',
        ({
            let text = time_text(unix_ms);
            let h = crate::decimal::digits_value(text.subrange(0, 2));
            let m = crate::decimal::digits_value(text.subrange(3, 5));
            let s = crate::decimal::digits_value(text.subrange(6, 8));
            let ms = crate::decimal::digits_value(text.subrange(9, 12));
            &&& h < 24 && m < 60 && s < 60 && ms < 1000
            &&& ((h * 60 + m) * 60 + s) * 1000 + ms == unix_ms % 86400000
        }),
{
    reveal_strlit(":");
    reveal_strlit(".");
    let day = (unix_ms / 1000) % 86400;
    let h = day / 3600;
    let m = (day % 3600) / 60;
    let s = day % 60;
    let ms = unix_ms % 1000;
    crate::decimal::lemma_padded_len(h);
    crate::decimal::lemma_padded_len(m);
    crate::decimal::lemma_padded_len(s);
    crate::decimal::lemma_padded_len(ms);
    crate::decimal::law_padded_reads_back(h, 2);
    crate::decimal::law_padded_reads_back(m, 2);
    crate::decimal::law_padded_reads_back(s, 2);
    crate::decimal::law_padded_reads_back(ms, 3);
    let text = time_text(unix_ms);
    assert(text.subrange(0, 2) =~= crate::decimal::padded_text(h, 2));
    assert(text.subrange(3, 5) =~= crate::decimal::padded_text(m, 2));
    assert(text.subrange(6, 8) =~= crate::decimal::padded_text(s, 2));
    assert(text.subrange(9, 12) =~= crate::decimal::padded_text(ms, 3));
}

proof fn lemma_day_later(unix_ms: nat)
    ensures
        ((unix_ms + 86400000) / 1000) % 86400 == (unix_ms / 1000) % 86400,
        (unix_ms + 86400000) % 1000 == unix_ms % 1000,
{
    assert((unix_ms + 86400000) / 1000 == unix_ms / 1000 + 86400);
}

/// Time stamps repeat from day to day.
pub proof fn law_time_repeats_daily(unix_ms: nat)
    ensures
        time_text(unix_ms + 86400000) == time_text(unix_ms),
{
    lemma_day_later(unix_ms);
}

/// The end of a Scribe task is reported as it came about.
pub proof fn law_scribe_end_reported(track: TrackId, end: TaskEnd, event: Option<PipelineEvent>)
    requires
        call_ensures(ScribeClient::end_event, (track, end), event),
    ensures
        crate::events::reports_end(event, track, end, "client task panicked: "@),
{
}

/// A time stamp tells the time of day in hours, minutes, seconds and
/// milliseconds, two digits each and three for the last.
pub proof fn law_time_stamp(unix_ms: u128, text: String)
    requires
        call_ensures(ts, (unix_ms,), text),
    ensures
        text@.len() == 12,
        text@[2] == ':' && text@[5] == ':' && text@[8] == '.',
        ({
            let h = crate::decimal::digits_value(text@.subrange(0, 2));
            let m = crate::decimal::digits_value(text@.subrange(3, 5));
            let s = crate::decimal::digits_value(text@.subrange(6, 8));
            let ms = crate::decimal::digits_value(text@.subrange(9, 12));
            &&& h < 24 && m < 60 && s < 60 && ms < 1000
            &&& ((h * 60 + m) * 60 + s) * 1000 + ms == unix_ms % 86400000
        }),
        forall|i: int|
            0 <= i < 12 && i != 2 && i != 5 && i != 8 ==> '0' <= #[trigger] text@[i] <= '9',
{
    law_time_reads_back(unix_ms as nat);
    lemma_time_digits(unix_ms as nat);
}

proof fn lemma_time_digits(unix_ms: nat)
    ensures
        forall|i: int|
            0 <= i < 12 && i != 2 && i != 5 && i != 8 ==> '0' <= #[trigger] time_text(unix_ms)[i]
                <= '9',
{
    reveal_strlit(":");
    reveal_strlit(".");
    let day = (unix_ms / 1000) % 86400;
    crate::decimal::lemma_padded_len(day / 3600);
    crate::decimal::lemma_padded_len((day % 3600) / 60);
    crate::decimal::lemma_padded_len(day % 60);
    crate::decimal::lemma_padded_len(unix_ms % 1000);
    crate::decimal::lemma_decimal_digits(day / 3600);
    crate::decimal::lemma_decimal_digits((day % 3600) / 60);
    crate::decimal::lemma_decimal_digits(day % 60);
    crate::decimal::lemma_decimal_digits(unix_ms % 1000);
}

/// A push through a handle is reported as what came of it.
pub proof fn law_handle_push_told(handle: &ScribeHandle, samples: Vec<i16>, report: PushReport)
    requires
        call_ensures(ScribeHandle::push_pcm, (handle, samples), report),
    ensures
        crate::queue::tells_push(handle.queue(), samples, report),
{
    crate::queue::lemma_answer_told(handle.queue(), samples, report);
}

} // verus!
