# opennow_streamer — verified liveness logic of the native video streamer

`src/` is a Verus library holding the decisions of the streamer's video
liveness watchdog, each with a contract and proved:

- `stall`, `startup`, `watchdog`: the stall-recovery ladder, the startup
  recovery timeline and codec downgrade, and one watchdog tick (network
  buffers, stall escalation, transition flushes, decoder fallback).
- `network`, `adaptive`: the pre-decode and RTP playout buffer ramps, the
  ADJB quantile and convergence, the network verdict and its emission.
- `pairing`, `order`: decode→present latency pairing and its median.
- `present`: the present limiter's slot grid, hold/drop rules and step.
- `liveness`, `hud`: the per-session state and the HUD text.
- `rtcp`, `caps`, `frame`, `values`, `text`: byte and text parsing helpers.

Times are milliseconds of the watchdog clock (present pacing uses
nanoseconds); packet loss is carried in units of 1e-5.

`app/` is ordinary Rust around the library: GStreamer pad probes, the
watchdog and pacer threads, and the reading of element statistics.
`tests/` exercises the library at run time.
