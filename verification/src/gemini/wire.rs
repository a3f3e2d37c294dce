//! The messages of the Gemini Live protocol.
use super::GeminiConfig;
use super::INPUT_SAMPLE_RATE;
use crate::decimal::decimal;
use crate::json::object_value;
use crate::json::quote;
use crate::json::quote_list;
use crate::json::text_value;
use crate::json::value_text;
use crate::json::Json;
use crate::pcm::encode_pcm;
use vstd::prelude::*;

verus! {

/// The first message of a session.
#[derive(Debug)]
pub struct SetupMessage {
    pub setup: Setup,
}

#[derive(Debug)]
pub struct Setup {
    pub model: String,
    pub generation_config: GenerationConfig,
    /// Asks for transcripts of the input.
    pub input_audio_transcription: Empty,
    /// Asks for transcripts of the output.
    pub output_audio_transcription: Empty,
}

#[derive(Debug)]
pub struct GenerationConfig {
    pub response_modalities: Vec<String>,
    pub translation_config: TranslationConfig,
}

#[derive(Debug)]
pub struct Empty {}

#[derive(Debug)]
pub struct TranslationConfig {
    pub target_language_code: String,
    pub echo_target_language: bool,
}

/// One chunk of input audio.
#[derive(Debug)]
pub struct RealtimeInputMessage {
    pub realtime_input: RealtimeInput,
}

#[derive(Debug)]
pub struct RealtimeInput {
    pub audio: AudioBlob,
}

#[derive(Debug)]
pub struct AudioBlob {
    /// Base64 of little-endian 16-bit PCM.
    pub data: String,
    pub mime_type: String,
}

/// One message of the server.
#[derive(Debug)]
pub struct GeminiResponse {
    pub setup_complete: Option<SetupComplete>,
    pub server_content: Option<ServerContent>,
    pub error: Option<GeminiError>,
}

#[derive(Debug)]
pub struct SetupComplete {}

#[derive(Debug)]
pub struct ServerContent {
    pub input_transcription: Option<Transcription>,
    pub output_transcription: Option<Transcription>,
    pub model_turn: Option<ModelTurn>,
}

#[derive(Debug)]
pub struct Transcription {
    pub text: String,
    pub language_code: Option<String>,
}

#[derive(Debug)]
pub struct ModelTurn {
    pub parts: Vec<Part>,
}

#[derive(Debug)]
pub struct Part {
    pub inline_data: Option<InlineData>,
}

#[derive(Debug)]
pub struct InlineData {
    pub mime_type: String,
    pub data: String,
}

#[derive(Debug)]
pub struct GeminiError {
    pub message: String,
    pub code: Option<i32>,
}

/// Whether `message` sets up a session as `cfg` asks: its model by resource
/// name, audio as the one response modality, and its translation settings.
pub open spec fn sets_up(message: SetupMessage, cfg: GeminiConfig) -> bool {
    let generation = message.setup.generation_config;
    &&& message.setup.model@ == "models/"@ + cfg.model@
    &&& generation.response_modalities@.len() == 1
    &&& generation.response_modalities@[0]@ == "AUDIO"@
    &&& generation.translation_config.target_language_code@ == cfg.target_language_code@
    &&& generation.translation_config.echo_target_language == cfg.echo_target_language
}

/// Whether `message` carries exactly `samples`: as their base64 text, which
/// decodes to their bytes, under the MIME type of input audio.
pub open spec fn carries(message: RealtimeInputMessage, samples: Seq<i16>) -> bool {
    let audio = message.realtime_input.audio;
    &&& audio.data@ == crate::pcm::base64_text(crate::pcm::pcm_bytes(samples))
    &&& crate::pcm::base64_bytes(audio.data@) == Some(crate::pcm::pcm_bytes(samples))
    &&& audio.mime_type@ == "audio/pcm;rate=16000"@
}

impl GeminiConfig {
    /// The first message of a session with this configuration.
    pub fn setup_message(&self) -> (message: SetupMessage)
        ensures
            sets_up(message, *self),
    {
        let mut model = String::from("models/");
        model.append(self.model.as_str());
        let mut response_modalities: Vec<String> = Vec::new();
        response_modalities.push(String::from("AUDIO"));
        SetupMessage {
            setup: Setup {
                model,
                generation_config: GenerationConfig {
                    response_modalities,
                    translation_config: TranslationConfig {
                        target_language_code: self.target_language_code.clone(),
                        echo_target_language: self.echo_target_language,
                    },
                },
                input_audio_transcription: Empty {  },
                output_audio_transcription: Empty {  },
            },
        }
    }
}

/// The JSON text of a setup message. The transcription settings stand at the
/// level of `setup`, the translation settings inside `generationConfig`.
pub open spec fn setup_json(message: SetupMessage) -> Seq<char> {
    let generation = message.setup.generation_config;
    "{\"setup\":{\"model\":"@ + crate::json::quoted(message.setup.model@)
        + ",\"generationConfig\":{\"responseModalities\":"@ + crate::json::quoted_list(
        crate::json::texts_view(generation.response_modalities@),
    ) + ",\"translationConfig\":{\"targetLanguageCode\":"@ + crate::json::quoted(
        generation.translation_config.target_language_code@,
    ) + ",\"echoTargetLanguage\":"@ + crate::json::bool_text(
        generation.translation_config.echo_target_language,
    ) + "}},\"inputAudioTranscription\":{},\"outputAudioTranscription\":{}}}"@
}

/// The JSON object of a chunk of input audio.
pub open spec fn audio_record(message: RealtimeInputMessage) -> Json {
    let audio = message.realtime_input.audio;
    Json::Object(
        Map::empty().insert(
            "realtimeInput"@,
            Json::Object(
                Map::empty().insert(
                    "audio"@,
                    Json::Object(
                        Map::empty().insert("data"@, Json::Str(audio.data@)).insert(
                            "mimeType"@,
                            Json::Str(audio.mime_type@),
                        ),
                    ),
                ),
            ),
        ),
    )
}

impl SetupMessage {
    /// The message as JSON text, its members in the order of the fields. What a
    /// reader makes of the whole text is not stated.
    pub fn to_json(&self) -> (json: String)
        ensures
            json@ == setup_json(*self),
    {
        let generation = &self.setup.generation_config;
        let translation = &generation.translation_config;
        let mut json = String::from("{\"setup\":{\"model\":");
        json.append(quote(self.setup.model.as_str()).as_str());
        json.append(",\"generationConfig\":{\"responseModalities\":");
        json.append(quote_list(&generation.response_modalities).as_str());
        json.append(",\"translationConfig\":{\"targetLanguageCode\":");
        json.append(quote(translation.target_language_code.as_str()).as_str());
        json.append(",\"echoTargetLanguage\":");
        json.append(
            if translation.echo_target_language {
                "true"
            } else {
                "false"
            },
        );
        json.append("}},\"inputAudioTranscription\":{},\"outputAudioTranscription\":{}}}");
        json
    }
}

impl RealtimeInputMessage {
    /// The message as JSON text, which reads back as the message.
    pub fn to_json(&self) -> (json: String)
        ensures
            json@ == crate::json::json_text(audio_record(*self)),
            crate::json::parsed_json(json@) == Some(audio_record(*self)),
    {
        let audio = &self.realtime_input.audio;
        let mut blob: Vec<(String, serde_json::Value)> = Vec::new();
        blob.push((String::from("data"), text_value(audio.data.as_str())));
        blob.push((String::from("mimeType"), text_value(audio.mime_type.as_str())));
        proof {
            lemma_blob_keys();
        }
        let input = single_member("audio", object_value(blob));
        let message = single_member("realtimeInput", input);
        proof {
            reveal_with_fuel(crate::json::members_of, 3);
            reveal_with_fuel(crate::json::is_record, 4);
        }
        assert(crate::json::json_of(message) == audio_record(*self));
        value_text(&message)
    }
}

/// The JSON object with one member.
fn single_member(key: &str, value: serde_json::Value) -> (r: serde_json::Value)
    ensures
        crate::json::json_of(r) == Json::Object(
            Map::empty().insert(key@, crate::json::json_of(value)),
        ),
{
    let mut entries: Vec<(String, serde_json::Value)> = Vec::new();
    entries.push((String::from(key), value));
    proof {
        reveal_with_fuel(crate::json::members_of, 2);
    }
    object_value(entries)
}

/// The two keys of an audio blob are of different lengths.
proof fn lemma_blob_keys()
    ensures
        "data"@.len() == 4,
        "mimeType"@.len() == 8,
{
    reveal_strlit("data");
    reveal_strlit("mimeType");
}

/// The message that carries one chunk of input audio.
pub fn audio_message(samples: &[i16]) -> (message: RealtimeInputMessage)
    requires
        crate::pcm::pcm_fits(samples@.len()),
    ensures
        carries(message, samples@),
{
    let data = encode_pcm(samples);
    let mut mime_type = String::from("audio/pcm;rate=");
    mime_type.append(decimal(INPUT_SAMPLE_RATE as u64).as_str());
    proof {
        lemma_input_mime_type();
    }
    RealtimeInputMessage { realtime_input: RealtimeInput { audio: AudioBlob { data, mime_type } } }
}

/// The sample rate of input audio in its MIME type.
proof fn lemma_input_mime_type()
    ensures
        "audio/pcm;rate="@ + crate::decimal::decimal_text(INPUT_SAMPLE_RATE as nat)
            == "audio/pcm;rate=16000"@,
{
    reveal_strlit("audio/pcm;rate=");
    reveal_strlit("audio/pcm;rate=16000");
    reveal_with_fuel(crate::decimal::decimal_text, 6);
    assert("audio/pcm;rate="@ + crate::decimal::decimal_text(INPUT_SAMPLE_RATE as nat)
        =~= "audio/pcm;rate=16000"@);
}

/// No two different chunks of audio have one message.
pub proof fn law_message_tells_samples(message: RealtimeInputMessage, a: Seq<i16>, b: Seq<i16>)
    requires
        carries(message, a),
        carries(message, b),
    ensures
        a == b,
{
    crate::pcm::law_pcm_reads_back(a);
    crate::pcm::law_pcm_reads_back(b);
}

/// A session is set up for what the configuration asks for: its model by resource
/// name, audio and nothing else in response, its target language, and the echo
/// as it says.
pub proof fn law_setup_follows_config(cfg: &GeminiConfig, message: SetupMessage)
    requires
        call_ensures(GeminiConfig::setup_message, (cfg,), message),
    ensures
        message.setup.model@ == "models/"@ + cfg.model@,
        message.setup.generation_config.response_modalities@.len() == 1,
        message.setup.generation_config.response_modalities@[0]@ == "AUDIO"@,
        message.setup.generation_config.translation_config.target_language_code@
            == cfg.target_language_code@,
        message.setup.generation_config.translation_config.echo_target_language
            == cfg.echo_target_language,
{
}

/// The text of a setup message holds all its fields in full, each under its name
/// and in its place; `list` is the text of the response modalities.
pub proof fn law_setup_text(message: &SetupMessage, json: String, list: String)
    requires
        call_ensures(SetupMessage::to_json, (message,), json),
        call_ensures(
            quote_list,
            (&message.setup.generation_config.response_modalities,),
            list,
        ),
    ensures
        json@ == "{\"setup\":{\"model\":"@ + crate::json::json_text(
            Json::Str(message.setup.model@),
        ) + ",\"generationConfig\":{\"responseModalities\":"@ + list@
            + ",\"translationConfig\":{\"targetLanguageCode\":"@ + crate::json::json_text(
            Json::Str(
                message.setup.generation_config.translation_config.target_language_code@,
            ),
        ) + ",\"echoTargetLanguage\":"@ + (if message.setup.generation_config.translation_config.echo_target_language {
            "true"@
        } else {
            "false"@
        }) + "}},\"inputAudioTranscription\":{},\"outputAudioTranscription\":{}}}"@,
{
}

/// The text of a chunk of audio reads back as an object that holds its data and
/// its MIME type in full.
pub proof fn law_audio_text(message: &RealtimeInputMessage, json: String)
    requires
        call_ensures(RealtimeInputMessage::to_json, (message,), json),
    ensures
        crate::json::parsed_json(json@) matches Some(value) && (crate::json::json_member(
            value,
            "realtimeInput"@,
        ) matches Some(input) && (crate::json::json_member(input, "audio"@) matches Some(audio)
            && crate::json::text_member(audio, "data"@) == Some(
            message.realtime_input.audio.data@,
        ) && crate::json::text_member(audio, "mimeType"@) == Some(
            message.realtime_input.audio.mime_type@,
        ))),
{
    lemma_blob_keys();
}

/// The message of a chunk of audio holds its samples in full, under the MIME type
/// of input audio.
pub proof fn law_chunk_message(samples: &[i16], message: RealtimeInputMessage)
    requires
        call_ensures(audio_message, (samples,), message),
        samples@.len() > 0,
    ensures
        crate::pcm::text_holds(message.realtime_input.audio.data@, samples@),
        message.realtime_input.audio.mime_type@ == "audio/pcm;rate=16000"@,
{
    crate::pcm::law_pcm_reads_back(samples@);
    crate::pcm::law_base64_reads_back(crate::pcm::pcm_bytes(samples@));
    crate::pcm::law_text_holds(message.realtime_input.audio.data@, samples@);
}

} // verus!
