//! Liveness, pacing and network-adaptation logic of the native video
//! streamer: the stall-recovery ladder, the adaptive jitter-buffer ramps, the
//! decode→present latency bookkeeping, RTCP/RTP header classification and the
//! caps/label helpers used by the HUD.

pub mod adaptive;
pub mod caps;
pub mod frame;
pub mod hud;
pub mod liveness;
pub mod network;
pub mod order;
pub mod pairing;
pub mod present;
pub mod rtcp;
pub mod stall;
pub mod startup;
pub mod text;
pub mod values;
pub mod watchdog;

