//! Speech clients of a realtime translation pipeline: Gemini Live Translate,
//! which translates speech to speech over one WebSocket, and ElevenLabs Scribe,
//! which transcribes speech. The crate holds what the clients decide and
//! compute: messages, sessions, addresses and audio. Connections and tasks are
//! left to the program around it.
pub mod decimal;
pub mod events;
pub mod frame;
pub mod gemini;
pub mod json;
pub mod pcm;
pub mod queue;
pub mod scribe;
pub mod text;
