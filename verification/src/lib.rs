//! The core of a desktop streaming gateway: from a viewer's capture request to
//! the candidate media graphs that may serve it, the ladder that tries them,
//! the relay that carries their samples, and the life of each peer's session.
//!
//! What the media engine, the transport library, the capture broker and the
//! tools of the system do is done outside this library; here it is decided
//! what to ask of them and what their answers mean.
pub mod audio_detection;
pub mod config;
pub mod ladder;
pub mod media;
pub mod monitors;
pub mod registry;
pub mod relay;
pub mod session;
pub mod text;
pub mod virtual_audio;
