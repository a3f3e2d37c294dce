# pipeline

Speech clients of a realtime translation pipeline, verified with Verus.

- `src/gemini`: Gemini Live Translate. Configuration and language codes, the
  messages of the protocol, the setup phase, the streaming session with the laws
  of a whole session, and the task that leads from the one to the other.
- `src/scribe`: ElevenLabs Scribe v2 Realtime. Configuration and VAD presets,
  the address and key header, the messages, and the session.
- `src/queue.rs`: the audio queue behind the handles of both clients.
- `src/pcm.rs`, `src/json.rs`, `src/frame.rs`, `src/text.rs`, `src/decimal.rs`,
  `src/events.rs`: audio bytes, JSON, WebSocket frames, text, numbers and events.
- `app`: the connections and background tasks around the library.

A session is a state machine: the program hands in what happened and does what
the step returns. What the library relies on without proof is stated on the items
that call `base64`, `serde_json`, `tokio`, `http` and the standard library.
