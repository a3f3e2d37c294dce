//! The JSON texts of outgoing messages, against serde's own struct serializer.
use pipeline::gemini::wire::{
    AudioBlob, Empty, GenerationConfig, RealtimeInput, RealtimeInputMessage, Setup, SetupMessage,
    TranslationConfig,
};
use serde::ser::{Serialize, SerializeStruct, Serializer};

struct Wire<'a, M>(&'a M);

impl<'a> Serialize for Wire<'a, SetupMessage> {
    fn serialize<S: Serializer>(&self, serializer: S) -> Result<S::Ok, S::Error> {
        let mut s = serializer.serialize_struct("SetupMessage", 1)?;
        s.serialize_field("setup", &Wire(&self.0.setup))?;
        s.end()
    }
}

impl<'a> Serialize for Wire<'a, Setup> {
    fn serialize<S: Serializer>(&self, serializer: S) -> Result<S::Ok, S::Error> {
        let mut s = serializer.serialize_struct("Setup", 4)?;
        s.serialize_field("model", &self.0.model)?;
        s.serialize_field("generationConfig", &Wire(&self.0.generation_config))?;
        s.serialize_field("inputAudioTranscription", &Wire(&self.0.input_audio_transcription))?;
        s.serialize_field("outputAudioTranscription", &Wire(&self.0.output_audio_transcription))?;
        s.end()
    }
}

impl<'a> Serialize for Wire<'a, Empty> {
    fn serialize<S: Serializer>(&self, serializer: S) -> Result<S::Ok, S::Error> {
        serializer.serialize_struct("Empty", 0)?.end()
    }
}

impl<'a> Serialize for Wire<'a, GenerationConfig> {
    fn serialize<S: Serializer>(&self, serializer: S) -> Result<S::Ok, S::Error> {
        let mut s = serializer.serialize_struct("GenerationConfig", 2)?;
        s.serialize_field("responseModalities", &self.0.response_modalities)?;
        s.serialize_field("translationConfig", &Wire(&self.0.translation_config))?;
        s.end()
    }
}

impl<'a> Serialize for Wire<'a, TranslationConfig> {
    fn serialize<S: Serializer>(&self, serializer: S) -> Result<S::Ok, S::Error> {
        let mut s = serializer.serialize_struct("TranslationConfig", 2)?;
        s.serialize_field("targetLanguageCode", &self.0.target_language_code)?;
        s.serialize_field("echoTargetLanguage", &self.0.echo_target_language)?;
        s.end()
    }
}

impl<'a> Serialize for Wire<'a, RealtimeInputMessage> {
    fn serialize<S: Serializer>(&self, serializer: S) -> Result<S::Ok, S::Error> {
        let mut s = serializer.serialize_struct("RealtimeInputMessage", 1)?;
        s.serialize_field("realtimeInput", &Wire(&self.0.realtime_input))?;
        s.end()
    }
}

impl<'a> Serialize for Wire<'a, RealtimeInput> {
    fn serialize<S: Serializer>(&self, serializer: S) -> Result<S::Ok, S::Error> {
        let mut s = serializer.serialize_struct("RealtimeInput", 1)?;
        s.serialize_field("audio", &Wire(&self.0.audio))?;
        s.end()
    }
}

impl<'a> Serialize for Wire<'a, AudioBlob> {
    fn serialize<S: Serializer>(&self, serializer: S) -> Result<S::Ok, S::Error> {
        let mut s = serializer.serialize_struct("AudioBlob", 2)?;
        s.serialize_field("data", &self.0.data)?;
        s.serialize_field("mimeType", &self.0.mime_type)?;
        s.end()
    }
}

const TEXTS: [&str; 5] = ["", "de", "a\"b\\c/d", "\u{0}\u{8}\n\r\t\u{1F}\u{7F}", "\u{FC}\u{1F600}"];

#[test]
fn setup_json_is_what_serde_writes() {
    for model in TEXTS {
        for code in TEXTS {
            for echo in [false, true] {
                for n in 0..3 {
                    let message = SetupMessage {
                        setup: Setup {
                            model: model.to_string(),
                            generation_config: GenerationConfig {
                                response_modalities: vec![code.to_string(); n],
                                translation_config: TranslationConfig {
                                    target_language_code: code.to_string(),
                                    echo_target_language: echo,
                                },
                            },
                            input_audio_transcription: Empty {},
                            output_audio_transcription: Empty {},
                        },
                    };
                    let expected = serde_json::to_string(&Wire(&message)).unwrap();
                    assert_eq!(message.to_json(), expected);
                }
            }
        }
    }
}

#[test]
fn audio_json_is_what_serde_writes() {
    for data in TEXTS {
        for mime_type in TEXTS {
            let message = RealtimeInputMessage {
                realtime_input: RealtimeInput {
                    audio: AudioBlob { data: data.to_string(), mime_type: mime_type.to_string() },
                },
            };
            let expected = serde_json::to_string(&Wire(&message)).unwrap();
            assert_eq!(message.to_json(), expected);
        }
    }
}
