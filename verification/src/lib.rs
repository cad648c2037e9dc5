//! Correlation core for a two-stream media pipeline: a video elementary
//! stream and an out-of-band binary metadata stream are interleaved into one
//! container, split apart again, and re-correlated by presentation timestamp.
//! The library holds the pure decision logic — frame-interval classification,
//! metadata packetization, the latest-value cache, the container round trip,
//! dynamic-output wiring, the lifecycle state machine and the overlay text —
//! while the surrounding streaming runtime performs capture, codec and
//! rendering work.

pub mod container;
pub mod error;
pub mod lifecycle;
pub mod overlay;
pub mod packetizer;
pub mod probe;
pub mod store;
pub mod timestamp;
pub mod wiring;
