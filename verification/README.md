# context_switch

Conversations with speech services: dialogs, transcription, synthesis, translation and playback.

`src/` is the verified library. It holds the decisions: how conversations start, go on and end, what
each service sends to its server and puts out for a server's answers, which parameters are accepted,
and what is billed. Contracts are stated over sequences of characters, samples and emissions.

- `conversation`, `context_switch`, `conversation_controller`, `registry`, `protocol`, `api`: the life
  of conversations.
- `openai_dialog`, `google_dialog`: realtime dialogs.
- `azure`, `aristech`, `deepgram_transcribe`, `elevenlabs`, `google_transcribe`,
  `microsoft_voice_live`: transcription, synthesis and translation.
- `playback`: playback of texts, files and downloads.
- `audio`, `audio_tracer`, `base64_codec`, `error`, `input`, `json`, `language`, `modality`, `output`,
  `table`, `text`, `urls`: what they share.

Each service decides one step at a time: a function takes the state and what has happened, and gives
the next state, what is to be sent and what is put out.

`app/` is the asynchronous side: channels, sockets, remote calls, files and JSON around the library.
