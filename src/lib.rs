//! Verified core of a camera-to-WebRTC video pipeline: capture stream
//! selection, VP8 encoder configuration and image layout, the encode loop's
//! per-frame decisions, RTCP picture-loss handling, signaling routes and the
//! peer-connection handshake.

pub mod codec;
pub mod encoder;
pub mod fourcc;
pub mod frame;
pub mod image;
pub mod pipeline;
pub mod rtcp;
pub mod session;
pub mod signaling;
pub mod stream;
