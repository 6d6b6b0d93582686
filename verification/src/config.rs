//! The values that travel between a viewer and the gateway: the capture
//! request, the signaling messages, and the source lists sent on connect.
use vstd::prelude::*;
use vstd::string::*;

verus! {

/// The identity of a connected peer.
pub type PeerId = u128;

/// What a viewer asks to have captured and how.
#[derive(Debug)]
pub struct PipelineConfig {
    /// The source to capture: `x11-N` or `screen-N` for a screen, `camera-N`
    /// for a camera, `wayland-portal` for a portal surface; anything else
    /// selects the test pattern.
    pub source_type: String,
    /// The audio input to capture, where one is chosen.
    pub audio_source: Option<String>,
    pub enable_audio: bool,
    /// Whether the viewer sends its microphone.
    pub enable_microphone_input: bool,
    pub audio_bitrate: u32,
    pub audio_sample_rate: u32,
    pub resolution: (u32, u32),
    pub framerate: u32,
    pub use_hardware_encoding: bool,
}

/// A capture request as a mathematical value.
pub struct PipelineRequest {
    pub source_type: Seq<char>,
    pub audio_source: Option<Seq<char>>,
    pub enable_audio: bool,
    pub enable_microphone_input: bool,
    pub audio_bitrate: u32,
    pub audio_sample_rate: u32,
    pub resolution: (u32, u32),
    pub framerate: u32,
    pub use_hardware_encoding: bool,
}

/// The text that an optional string holds.
pub open spec fn option_text(s: Option<String>) -> Option<Seq<char>> {
    match s {
        Some(t) => Some(t@),
        None => None,
    }
}

impl View for PipelineConfig {
    type V = PipelineRequest;

    open spec fn view(&self) -> PipelineRequest {
        PipelineRequest {
            source_type: self.source_type@,
            audio_source: option_text(self.audio_source),
            enable_audio: self.enable_audio,
            enable_microphone_input: self.enable_microphone_input,
            audio_bitrate: self.audio_bitrate,
            audio_sample_rate: self.audio_sample_rate,
            resolution: self.resolution,
            framerate: self.framerate,
            use_hardware_encoding: self.use_hardware_encoding,
        }
    }
}

/// The request for the first screen, without audio, at 1920x1080 and 30 frames
/// a second, with hardware encoding preferred.
pub open spec fn default_request() -> PipelineRequest {
    PipelineRequest {
        source_type: "x11-0"@,
        audio_source: None,
        enable_audio: false,
        enable_microphone_input: false,
        audio_bitrate: 128000,
        audio_sample_rate: 48000,
        resolution: (1920u32, 1080u32),
        framerate: 30,
        use_hardware_encoding: true,
    }
}

impl Clone for PipelineConfig {
    fn clone(&self) -> (copy: Self)
        ensures
            copy@ == self@,
    {
        PipelineConfig {
            source_type: self.source_type.clone(),
            audio_source: match &self.audio_source {
                Some(s) => Some(s.clone()),
                None => None,
            },
            enable_audio: self.enable_audio,
            enable_microphone_input: self.enable_microphone_input,
            audio_bitrate: self.audio_bitrate,
            audio_sample_rate: self.audio_sample_rate,
            resolution: self.resolution,
            framerate: self.framerate,
            use_hardware_encoding: self.use_hardware_encoding,
        }
    }
}

impl Default for PipelineConfig {
    fn default() -> (config: Self)
        ensures
            config@ == default_request(),
    {
        PipelineConfig {
            source_type: String::from_str("x11-0"),
            audio_source: None,
            enable_audio: false,
            enable_microphone_input: false,
            audio_bitrate: 128000,
            audio_sample_rate: 48000,
            resolution: (1920, 1080),
            framerate: 30,
            use_hardware_encoding: true,
        }
    }
}

/// A video source that a viewer can choose.
#[derive(Debug)]
pub struct MonitorInfo {
    pub id: String,
    pub name: String,
    pub primary: bool,
    pub resolution: String,
    /// `screen` or `camera`.
    pub source_type: String,
}

/// An audio source that a viewer can choose.
#[derive(Debug)]
pub struct AudioDeviceInfo {
    pub id: String,
    pub name: String,
    /// `microphone`, `system` or `application`.
    pub device_type: String,
    pub description: String,
}

impl Clone for MonitorInfo {
    fn clone(&self) -> (copy: Self)
        ensures
            copy.id@ == self.id@,
            copy.name@ == self.name@,
            copy.primary == self.primary,
            copy.resolution@ == self.resolution@,
            copy.source_type@ == self.source_type@,
    {
        MonitorInfo {
            id: self.id.clone(),
            name: self.name.clone(),
            primary: self.primary,
            resolution: self.resolution.clone(),
            source_type: self.source_type.clone(),
        }
    }
}

impl Clone for AudioDeviceInfo {
    fn clone(&self) -> (copy: Self)
        ensures
            copy.id@ == self.id@,
            copy.name@ == self.name@,
            copy.device_type@ == self.device_type@,
            copy.description@ == self.description@,
    {
        AudioDeviceInfo {
            id: self.id.clone(),
            name: self.name.clone(),
            device_type: self.device_type.clone(),
            description: self.description.clone(),
        }
    }
}

/// A message on the signaling channel.
#[derive(Debug)]
pub enum SignalMessage {
    Offer { sdp: String, config: PipelineConfig },
    Answer { sdp: String },
    IceCandidate { candidate: String },
    Error { message: String },
    Monitors { monitors: Vec<MonitorInfo> },
    AudioDevices { devices: Vec<AudioDeviceInfo> },
    PortalRequest { request_id: String },
    PortalResponse { request_id: String, node_id: Option<u32> },
}

} // verus!
