# stoat

A library for writing bots for the Stoat chat platform, with its logic proved
correct by Verus.

`src/` is the verified library: the models and the cache that follows the
events of the websocket (`events`, `cache`, `partial`, `reactions`), the
command framework (`words`, `commands`, `converter`, `handler`, `help`,
`checks`, `context`), the permission query (`permissions`, `ranking`), the
request and message builders (`builders`, `embed`, `http`, `webhook`, `ext`),
identifiers (`ulid`, `ident`, `tag`, `mention`), the session decisions
(`session`) and the audio and video arithmetic and `ffmpeg` arguments
(`voice`, `sources`, `file`). Each public function states what it returns or
changes; the laws that tie functions together are public proof functions.

The cache keeps its models in `KeyedStore`, a map of string keys verified in
`store`, where a concurrent `dashmap::DashMap` would serve a shared cache: the
library's cache is an owned value, changed through `&mut`, and a map whose
contents each value type would have to name anew could not be held to one
contract. The command tables use the same store in place of a `HashMap`.

`app/` is the runtime around it: the asynchronous event and command handlers
that a bot implements, the waiters for events, the reconnect loop, the
`ffmpeg` processes, the WAV sink and the choice of the closest voice node by
ping. `tests/` runs the library on concrete values.
