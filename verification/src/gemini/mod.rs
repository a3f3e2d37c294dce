//! Gemini Live Translate: one WebSocket takes 16 kHz PCM in and gives 24 kHz
//! translated PCM out, with transcripts of both sides.
pub mod conduct;
pub mod laws;
pub mod session;
pub mod setup;
pub mod task;
pub mod wire;

use crate::events::task_end_event;
use crate::events::PipelineEvent;
use crate::events::TaskEnd;
use crate::events::TrackId;
use crate::queue::AudioQueue;
use crate::queue::PushReport;
use crate::queue::SendOutcome;
use crate::text::same_text;
use vstd::prelude::*;

verus! {

/// The Gemini Live Translate model that Google recommends.
pub const DEFAULT_MODEL: &'static str = "gemini-3.5-live-translate-preview";

/// Input audio: 16-bit PCM, 16 kHz, mono, little-endian.
pub const INPUT_SAMPLE_RATE: u32 = 16_000;

/// Output audio: 16-bit PCM, 24 kHz, mono, little-endian.
pub const OUTPUT_SAMPLE_RATE: u32 = 24_000;

/// The input chunk that the API recommends: 100 ms of samples.
pub const INPUT_CHUNK_SAMPLES: usize = INPUT_SAMPLE_RATE as usize / 10;

/// How long buffered input waits before it is sent, in milliseconds.
pub const FLUSH_INTERVAL_MS: u64 = 100;

/// How long the server has to complete the setup, in seconds.
pub const SETUP_TIMEOUT_SECS: u64 = 10;

/// The BCP-47 code for a lowercase DeepL code: Portuguese and Chinese get the
/// region or script that the API asks for, every other code stands as it is.
pub open spec fn bcp47(lowered: Seq<char>) -> Seq<char> {
    if lowered == "pt"@ || lowered == "pt-pt"@ {
        "pt-PT"@
    } else if lowered == "pt-br"@ {
        "pt-BR"@
    } else if lowered == "zh"@ || lowered == "zh-hans"@ {
        "zh-Hans"@
    } else if lowered == "zh-hant"@ {
        "zh-Hant"@
    } else {
        lowered
    }
}

/// The BCP-47 code for a lowercase DeepL code.
pub fn bcp47_from_lowercase(lowered: String) -> (r: String)
    ensures
        r@ == bcp47(lowered@),
{
    let code = lowered.as_str();
    if same_text(code, "pt") || same_text(code, "pt-pt") {
        String::from("pt-PT")
    } else if same_text(code, "pt-br") {
        String::from("pt-BR")
    } else if same_text(code, "zh") || same_text(code, "zh-hans") {
        String::from("zh-Hans")
    } else if same_text(code, "zh-hant") {
        String::from("zh-Hant")
    } else {
        lowered
    }
}

/// Maps the DeepL language codes in use elsewhere, in any case, to the BCP-47
/// codes that Gemini Live Translate asks for.
pub fn bcp47_from_deepl(code: &str) -> (r: String)
    ensures
        r@ == bcp47(crate::text::lowercase(code@)),
        crate::text::no_capitals(crate::text::lowercase(code@)),
        vstd::utf8::is_ascii_chars(code@) ==> r@ == bcp47(crate::text::ascii_lowercase(code@)),
{
    bcp47_from_lowercase(code.to_lowercase())
}

/// Configuration of a Gemini Live Translate session.
#[derive(Debug)]
pub struct GeminiConfig {
    pub api_key: String,
    pub model: String,
    /// BCP-47 target language code, such as `"de"` or `"pl"`.
    pub target_language_code: String,
    /// Whether input that is already in the target language is echoed.
    pub echo_target_language: bool,
}

impl Clone for GeminiConfig {
    fn clone(&self) -> (copy: Self)
        ensures
            copy == *self,
    {
        Self {
            api_key: self.api_key.clone(),
            model: self.model.clone(),
            target_language_code: self.target_language_code.clone(),
            echo_target_language: self.echo_target_language,
        }
    }
}

impl GeminiConfig {
    /// The default model, without echo, for the given key and target language.
    pub fn new<Key: Into<String>, Code: Into<String>>(
        api_key: Key,
        target_language_code: Code,
    ) -> (cfg: Self)
        ensures
            call_ensures(<Key as Into<String>>::into, (api_key,), cfg.api_key),
            call_ensures(
                <Code as Into<String>>::into,
                (target_language_code,),
                cfg.target_language_code,
            ),
            cfg.model@ == DEFAULT_MODEL@,
            !cfg.echo_target_language,
    {
        Self {
            api_key: api_key.into(),
            model: String::from(DEFAULT_MODEL),
            target_language_code: target_language_code.into(),
            echo_target_language: false,
        }
    }

    /// The address of the session, which carries the API key.
    pub fn ws_url(&self) -> (url: String)
        ensures
            url@
                == "wss://generativelanguage.googleapis.com/ws/google.ai.generativelanguage.v1beta.GenerativeService.BidiGenerateContent?key="@
                + self.api_key@,
    {
        let mut url = String::from(
            "wss://generativelanguage.googleapis.com/ws/google.ai.generativelanguage.v1beta.GenerativeService.BidiGenerateContent?key=",
        );
        url.append(self.api_key.as_str());
        url
    }
}

/// The handle through which a caller feeds microphone PCM into a session. It
/// can be cloned; when the last clone is dropped, the audio closes and the
/// session ends gracefully.
pub struct GeminiHandle {
    queue: AudioQueue,
}

impl Clone for GeminiHandle {
    fn clone(&self) -> (copy: Self)
        ensures
            copy == *self,
    {
        GeminiHandle { queue: self.queue.clone() }
    }
}

impl GeminiHandle {
    /// The queue that the handle feeds.
    pub closed spec fn queue(&self) -> AudioQueue {
        self.queue
    }

    /// A handle that feeds the given channel.
    pub fn new(audio_tx: tokio::sync::mpsc::Sender<Vec<i16>>) -> (handle: Self)
        ensures
            handle.queue().channel() == audio_tx,
            handle.queue().unflagged(),
    {
        GeminiHandle { queue: AudioQueue::new(audio_tx) }
    }

    /// Pushes 16-bit PCM mono samples (16 kHz) without blocking. An empty push
    /// is ignored; whether others are queued depends on the channel.
    pub fn push_pcm(&self, samples: Vec<i16>) -> (report: PushReport)
        ensures
            exists|outcome: SendOutcome, earlier: bool|
                self.queue().answered(samples, outcome, earlier, report),
    {
        let report = self.queue.push(samples);
        assert(self.queue() == self.queue);
        report
    }

    /// Whether the client task has ended, which depends on the channel at that
    /// moment.
    pub fn is_closed(&self) -> (closed: bool)
        ensures
            self.queue().asked(closed),
    {
        self.queue.is_closed()
    }
}

/// The Gemini client, which runs one session in a background task.
pub struct GeminiClient;

impl GeminiClient {
    /// The event that reports how the background task ended: none where it
    /// finished, else an error with the text of the failure or of the panic.
    pub fn end_event(track: TrackId, end: TaskEnd) -> (event: Option<PipelineEvent>)
        ensures
            match event {
                Some(e) => crate::events::task_end_view(
                    track,
                    end,
                    "Gemini client task panicked: "@,
                ) == Some(e@),
                None => crate::events::task_end_view(
                    track,
                    end,
                    "Gemini client task panicked: "@,
                ) is None,
            },
    {
        task_end_event(track, end, "Gemini client task panicked: ")
    }
}

/// On ASCII codes the mapping settles at once: mapping its result again, in
/// whatever case, changes nothing.
pub proof fn law_bcp47_idempotent(code: Seq<char>)
    ensures
        bcp47(crate::text::ascii_lowercase(bcp47(crate::text::ascii_lowercase(code)))) == bcp47(
            crate::text::ascii_lowercase(code),
        ),
{
    reveal_strlit("pt");
    reveal_strlit("pt-pt");
    reveal_strlit("pt-PT");
    reveal_strlit("pt-br");
    reveal_strlit("pt-BR");
    reveal_strlit("zh");
    reveal_strlit("zh-hans");
    reveal_strlit("zh-Hans");
    reveal_strlit("zh-hant");
    reveal_strlit("zh-Hant");
    let lowered = crate::text::ascii_lowercase(code);
    assert(crate::text::ascii_lowercase(lowered) =~= lowered);
    assert(crate::text::ascii_lowercase("pt-PT"@) =~= "pt-pt"@);
    assert(crate::text::ascii_lowercase("pt-BR"@) =~= "pt-br"@);
    assert(crate::text::ascii_lowercase("zh-Hans"@) =~= "zh-hans"@);
    assert(crate::text::ascii_lowercase("zh-Hant"@) =~= "zh-hant"@);
}

/// The case of an ASCII code does not matter.
pub proof fn law_bcp47_ignores_case(a: Seq<char>, b: Seq<char>)
    requires
        a.len() == b.len(),
        forall|i: int|
            0 <= i < a.len() ==> crate::text::ascii_lower(#[trigger] a[i])
                == crate::text::ascii_lower(b[i]),
    ensures
        bcp47(crate::text::ascii_lowercase(a)) == bcp47(crate::text::ascii_lowercase(b)),
{
    assert(crate::text::ascii_lowercase(a) =~= crate::text::ascii_lowercase(b));
}

/// Whether two lowercase codes name one language: they are equal, both European
/// Portuguese, or both Simplified Chinese.
pub open spec fn same_language(a: Seq<char>, b: Seq<char>) -> bool {
    ||| a == b
    ||| (a == "pt"@ || a == "pt-pt"@) && (b == "pt"@ || b == "pt-pt"@)
    ||| (a == "zh"@ || a == "zh-hans"@) && (b == "zh"@ || b == "zh-hans"@)
}

/// Two lowercase codes are mapped to one exactly where they name one language;
/// no others are merged.
pub proof fn law_bcp47_merges_lowercase(a: Seq<char>, b: Seq<char>)
    requires
        crate::text::no_capitals(a),
        crate::text::no_capitals(b),
    ensures
        bcp47(a) == bcp47(b) <==> same_language(a, b),
{
    reveal_strlit("pt-PT");
    reveal_strlit("pt-BR");
    reveal_strlit("zh-Hans");
    reveal_strlit("zh-Hant");
    assert("pt-PT"@[3] == 'P' && "pt-BR"@[3] == 'B');
    assert("zh-Hans"@[3] == 'H' && "zh-Hant"@[3] == 'H');
    assert("zh-Hans"@[6] != "zh-Hant"@[6]);
    assert("pt-PT"@.len() != "zh-Hans"@.len());
    assert("pt-PT"@.len() != "zh-Hant"@.len());
    assert("pt-BR"@.len() != "zh-Hans"@.len());
    assert("pt-BR"@.len() != "zh-Hant"@.len());
    assert(a != "pt-PT"@ && a != "pt-BR"@ && a != "zh-Hans"@ && a != "zh-Hant"@);
    assert(b != "pt-PT"@ && b != "pt-BR"@ && b != "zh-Hans"@ && b != "zh-Hant"@);
    lemma_special_codes_differ();
}

/// The codes that are mapped are different texts.
proof fn lemma_special_codes_differ()
    ensures
        "pt-br"@ != "pt"@ && "pt-br"@ != "pt-pt"@ && "pt-br"@ != "zh"@ && "pt-br"@ != "zh-hans"@
            && "pt-br"@ != "zh-hant"@,
        "zh-hant"@ != "pt"@ && "zh-hant"@ != "pt-pt"@ && "zh-hant"@ != "zh"@ && "zh-hant"@
            != "zh-hans"@,
        "pt"@ != "zh"@ && "pt"@ != "zh-hans"@ && "pt-pt"@ != "zh"@ && "pt-pt"@ != "zh-hans"@,
{
    reveal_strlit("pt");
    reveal_strlit("pt-pt");
    reveal_strlit("pt-br");
    reveal_strlit("zh");
    reveal_strlit("zh-hans");
    reveal_strlit("zh-hant");
    assert("pt"@[0] == 'p' && "pt-pt"@[0] == 'p' && "pt-br"@[0] == 'p');
    assert("zh"@[0] == 'z' && "zh-hans"@[0] == 'z' && "zh-hant"@[0] == 'z');
    assert("pt-br"@[3] != "pt-pt"@[3]);
    assert("zh-hant"@[6] != "zh-hans"@[6]);
    assert("pt-br"@.len() != "pt"@.len());
    assert("zh-hant"@.len() != "zh"@.len());
}

/// Two codes, whatever they hold, are mapped to one exactly where their
/// lowercase forms name one language: letter case does not matter, and no other
/// two codes are merged. `from_a` and `from_b` are what `bcp47_from_deepl`
/// returns for them.
pub proof fn law_bcp47_merges(a: &str, b: &str, from_a: String, from_b: String)
    requires
        call_ensures(bcp47_from_deepl, (a,), from_a),
        call_ensures(bcp47_from_deepl, (b,), from_b),
    ensures
        from_a@ == from_b@ <==> same_language(
            crate::text::lowercase(a@),
            crate::text::lowercase(b@),
        ),
{
    law_bcp47_merges_lowercase(crate::text::lowercase(a@), crate::text::lowercase(b@));
}

/// The end of a Gemini task is reported as it came about.
pub proof fn law_gemini_end_reported(track: TrackId, end: TaskEnd, event: Option<PipelineEvent>)
    requires
        call_ensures(GeminiClient::end_event, (track, end), event),
    ensures
        crate::events::reports_end(event, track, end, "Gemini client task panicked: "@),
{
}

/// A lowercase code is kept as it is, except that Portuguese gets its region and
/// Chinese its script.
pub proof fn law_codes_kept(lowered: String, code: String)
    requires
        call_ensures(bcp47_from_lowercase, (lowered,), code),
    ensures
        lowered@ == "pt"@ || lowered@ == "pt-pt"@ ==> code@ == "pt-PT"@,
        lowered@ == "pt-br"@ ==> code@ == "pt-BR"@,
        lowered@ == "zh"@ || lowered@ == "zh-hans"@ ==> code@ == "zh-Hans"@,
        lowered@ == "zh-hant"@ ==> code@ == "zh-Hant"@,
        !(lowered@ == "pt"@ || lowered@ == "pt-pt"@ || lowered@ == "pt-br"@ || lowered@ == "zh"@
            || lowered@ == "zh-hans"@ || lowered@ == "zh-hant"@) ==> code@ == lowered@,
{
    lemma_special_codes_differ();
}

/// A code in any case is mapped as its lowercase form is.
pub proof fn law_codes_mapped(code: &str, mapped: String, lowered: String, expected: String)
    requires
        call_ensures(bcp47_from_deepl, (code,), mapped),
        lowered@ == crate::text::lowercase(code@),
        call_ensures(bcp47_from_lowercase, (lowered,), expected),
    ensures
        mapped@ == expected@,
{
}

/// The address ends in the API key, and two addresses are the same exactly where
/// the keys are.
pub proof fn law_address_carries_key(
    a: &GeminiConfig,
    b: &GeminiConfig,
    from_a: String,
    from_b: String,
)
    requires
        call_ensures(GeminiConfig::ws_url, (a,), from_a),
        call_ensures(GeminiConfig::ws_url, (b,), from_b),
    ensures
        exists|server: Seq<char>| from_a@ == #[trigger] (server + a.api_key@) && from_b@ == server
            + b.api_key@,
        from_a@ == from_b@ <==> a.api_key@ == b.api_key@,
{
    let server =
        "wss://generativelanguage.googleapis.com/ws/google.ai.generativelanguage.v1beta.GenerativeService.BidiGenerateContent?key="@;
    assert(from_a@ == server + a.api_key@);
    assert(from_a@.skip(server.len() as int) =~= a.api_key@);
    assert(from_b@.skip(server.len() as int) =~= b.api_key@);
}

/// A push through a handle is reported as what came of it.
pub proof fn law_handle_push_told(handle: &GeminiHandle, samples: Vec<i16>, report: PushReport)
    requires
        call_ensures(GeminiHandle::push_pcm, (handle, samples), report),
    ensures
        crate::queue::tells_push(handle.queue(), samples, report),
{
    crate::queue::lemma_answer_told(handle.queue(), samples, report);
}

} // verus!
