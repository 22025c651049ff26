# gst_player_backend

The decisions of a media player that plays through GStreamer, written in Rust
and proved with Verus.

The library in `src/` keeps the state of a player and decides what to ask of
the pipeline, what to tell observers and how to answer clients. It makes no
call into GStreamer. The crate in `app/` owns the pipeline: it does what the
library asks for and hands back what came of it.

- `time`, `metadata`, `frame`, `event`, `error`, `command`: values and how they
  are made of what the pipeline reports.
- `cast`: casts between signed and unsigned numbers.
- `observers`, `renderers`: who is told of events and who gets frames.
- `inner`: a player that is set up, and its answers to requests.
- `setup`: the steps of the set-up.
- `player`: the player as a whole.
- `laws`: what holds across requests, signals and set-ups.

Playback rates and volumes pass through the library as bit patterns. Handles of
the pipeline, of observers and of renderers are type parameters.
