# kick_adapter

Connects the chat of a Kick channel with the Cockatiel engine: chat messages go to the engine,
moderator commands (`!ban`, `!timeout`) become queries, and the engine's texts go into the chat.

The library in `src/` holds every decision and is verified with Verus:

- `text`, `decimal`: trimming, words, command words and decimal numbers.
- `json`: JSON documents as plain values; `serde_json` reads and writes them.
- `moderation`: moderator commands and what the engine is told of them.
- `config`: where the settings come from and where they are kept.
- `messages`, `prompt`, `engine`: messages to and from the engine, questions to the operator.
- `kick_api`: requests to Kick and what its replies say.
- `setup`: the search for credentials, as a state machine.
- `pusher`: the frames of the chat stream and what is done about them.

`app/` holds the connections, the files and the environment, and carries out what the library
decides. `tests/` runs the library with the real outside crates.
