//! From a capture request to the graphs that may serve it: the hardware
//! encoders of the machine, and the candidate graph descriptions for a request,
//! richest first.
use vstd::prelude::*;
use vstd::string::*;
use crate::config::{PipelineConfig, PipelineRequest};
use crate::text::{
    chars_of, contains, contains_text, decimal, join, join_strings, parse_i32, parse_i32_text,
    push_decimal, push_signed_decimal, push_string, push_word, signed_decimal, slice_of,
    starts_with, str_eq, string_of, strings, matches_at,
};
use crate::virtual_audio::VirtualAudioDevice;

verus! {

/// Which hardware encoders the machine offers.
#[derive(Debug, Clone, Copy)]
pub struct HardwareInfo {
    /// The NVIDIA encoder together with its converter element.
    pub has_nvenc: bool,
    /// The NVIDIA encoder element, with or without its converter.
    pub has_nvh264enc_basic: bool,
    pub has_vaapi: bool,
    pub has_v4l2h264enc: bool,
    pub has_intel_gpu: bool,
}

impl HardwareInfo {
    /// The full NVIDIA path is offered only where the encoder element is.
    pub open spec fn consistent(self) -> bool {
        self.has_nvenc ==> self.has_nvh264enc_basic
    }
}

/// What a look at the media engine and the machine found.
#[derive(Debug, Clone, Copy)]
pub struct ElementProbe {
    /// The element `nvh264enc` is installed.
    pub nvh264enc: bool,
    /// The element `nvvidconv` is installed.
    pub nvvidconv: bool,
    /// The element `vaapivp8enc` is installed.
    pub vaapivp8enc: bool,
    /// The element `vaapih264enc` is installed.
    pub vaapih264enc: bool,
    /// The element `v4l2h264enc` is installed.
    pub v4l2h264enc: bool,
    /// The render node `/dev/dri/renderD128` exists.
    pub render_node: bool,
}

/// The hardware encoders that the probed elements make up.
pub fn detect_hardware_capabilities(probe: &ElementProbe) -> (info: HardwareInfo)
    ensures
        info.has_nvenc == (probe.nvh264enc && probe.nvvidconv),
        info.has_nvh264enc_basic == probe.nvh264enc,
        info.has_vaapi == (probe.vaapivp8enc || probe.vaapih264enc),
        info.has_v4l2h264enc == probe.v4l2h264enc,
        info.has_intel_gpu == probe.render_node,
        info.consistent(),
{
    HardwareInfo {
        has_nvenc: probe.nvh264enc && probe.nvvidconv,
        has_nvh264enc_basic: probe.nvh264enc,
        has_vaapi: probe.vaapivp8enc || probe.vaapih264enc,
        has_v4l2h264enc: probe.v4l2h264enc,
        has_intel_gpu: probe.render_node,
    }
}

/// How a candidate graph encodes video.
#[derive(Debug, Clone, Copy, PartialEq, Eq, Structural)]
pub enum EncoderPath {
    /// The NVIDIA encoder fed by its own converter.
    NvencFull,
    /// The NVIDIA encoder alone, with its full set of options.
    NvencBasic,
    /// The NVIDIA encoder alone, with no option but the bitrate.
    NvencMinimal,
    /// The VAAPI encoder.
    Vaapi,
    /// The software encoder.
    Software,
}

/// Where a candidate graph takes its video from, as a mathematical value.
pub enum SourceModel {
    /// The portal surface behind a PipeWire node.
    Portal { node_id: u32 },
    /// The camera `/dev/video` followed by `device`.
    Camera { device: Seq<char> },
    /// The screen with this number.
    Screen { number: int },
    /// The built-in test pattern.
    TestPattern,
}

/// Where a candidate graph takes its video from.
#[derive(Debug)]
pub enum VideoSource {
    Portal { node_id: u32 },
    Camera { device: String },
    Screen { number: i32 },
    TestPattern,
}

impl View for VideoSource {
    type V = SourceModel;

    open spec fn view(&self) -> SourceModel {
        match self {
            VideoSource::Portal { node_id } => SourceModel::Portal { node_id: *node_id },
            VideoSource::Camera { device } => SourceModel::Camera { device: device@ },
            VideoSource::Screen { number } => SourceModel::Screen { number: *number as int },
            VideoSource::TestPattern => SourceModel::TestPattern,
        }
    }
}

/// What stands in `s` behind its first `n` characters.
pub open spec fn after_prefix(s: Seq<char>, n: nat) -> Seq<char> {
    s.skip(n as int)
}

/// The request asks for the portal surface.
pub open spec fn is_portal_source(source_type: Seq<char>) -> bool {
    source_type == "wayland-portal"@
}

/// The request asks for the portal surface and the session can provide one: it
/// is a Wayland session with the capture broker at hand.
pub open spec fn wants_portal(source_type: Seq<char>, session_type: Seq<char>, has_portal: bool)
    -> bool {
    is_portal_source(source_type) && session_type == "wayland"@ && has_portal
}

/// The screen number that follows the prefix of a screen source; zero where
/// what follows is no number.
pub open spec fn screen_number(rest: Seq<char>) -> int {
    match parse_i32(rest) {
        Some(n) => n as int,
        None => 0,
    }
}

/// The source that a request names, or `None` where it asks for the portal
/// surface and no surface handle is at hand. A source type that names neither
/// the portal, a camera nor a screen selects the test pattern.
pub open spec fn requested_source(source_type: Seq<char>, node_id: Option<u32>) -> Option<
    SourceModel,
> {
    if is_portal_source(source_type) {
        match node_id {
            Some(id) => Some(SourceModel::Portal { node_id: id }),
            None => None,
        }
    } else if starts_with(source_type, "camera-"@) {
        Some(SourceModel::Camera { device: after_prefix(source_type, "camera-"@.len()) })
    } else if starts_with(source_type, "x11-"@) {
        Some(
            SourceModel::Screen {
                number: screen_number(after_prefix(source_type, "x11-"@.len())),
            },
        )
    } else if starts_with(source_type, "screen-"@) {
        Some(
            SourceModel::Screen {
                number: screen_number(after_prefix(source_type, "screen-"@.len())),
            },
        )
    } else {
        Some(SourceModel::TestPattern)
    }
}

/// The rest of `s` behind `prefix`, where `s` begins with it.
fn strip_prefix(s: &Vec<char>, prefix: &str) -> (rest: Option<Vec<char>>)
    ensures
        match rest {
            Some(r) => starts_with(s@, prefix@) && r@ == after_prefix(s@, prefix@.len()),
            None => !starts_with(s@, prefix@),
        },
{
    let p = chars_of(prefix);
    if matches_at(s, &p, 0) {
        Some(slice_of(s, p.len(), s.len()))
    } else {
        None
    }
}

/// The screen number in `rest`; zero where `rest` is no number.
fn read_screen_number(rest: &Vec<char>) -> (number: i32)
    ensures
        number as int == screen_number(rest@),
{
    match parse_i32_text(rest) {
        Some(n) => n,
        None => 0,
    }
}

/// The source that a request names; see [`requested_source`].
pub fn select_source(source_type: &str, node_id: Option<u32>) -> (source: Option<VideoSource>)
    ensures
        match source {
            Some(s) => requested_source(source_type@, node_id) == Some(s@),
            None => requested_source(source_type@, node_id) is None,
        },
{
    if str_eq(source_type, "wayland-portal") {
        return match node_id {
            Some(id) => Some(VideoSource::Portal { node_id: id }),
            None => None,
        };
    }
    let name = chars_of(source_type);
    match strip_prefix(&name, "camera-") {
        Some(rest) => {
            return Some(VideoSource::Camera { device: string_of(&rest) });
        },
        None => {},
    }
    match strip_prefix(&name, "x11-") {
        Some(rest) => {
            return Some(VideoSource::Screen { number: read_screen_number(&rest) });
        },
        None => {},
    }
    match strip_prefix(&name, "screen-") {
        Some(rest) => {
            return Some(VideoSource::Screen { number: read_screen_number(&rest) });
        },
        None => {},
    }
    Some(VideoSource::TestPattern)
}

/// The terms that open a graph: the capture element with its settings and,
/// where the source needs one, the format it is asked to deliver.
pub open spec fn source_terms(source: SourceModel) -> Seq<Seq<char>> {
    match source {
        SourceModel::Screen { number } => seq![
            "ximagesrc"@,
            "display-name=:0"@,
            "screen-num="@ + signed_decimal(number),
            "show-pointer=true"@,
            "use-damage=false"@,
            "!"@,
            "video/x-raw,framerate=30/1"@,
            "!"@,
        ],
        SourceModel::Portal { node_id } => seq![
            "pipewiresrc"@,
            "path="@ + decimal(node_id as nat),
            "do-timestamp=true"@,
            "!"@,
        ],
        SourceModel::Camera { device } => seq![
            "v4l2src"@,
            "device=/dev/video"@ + device,
            "!"@,
            "video/x-raw,width=1280,height=720,framerate=30/1"@,
            "!"@,
        ],
        SourceModel::TestPattern => seq![
            "videotestsrc"@,
            "pattern=smpte"@,
            "!"@,
            "video/x-raw,width=1920,height=1080,framerate=30/1,format=I420"@,
            "!"@,
        ],
    }
}

/// The bitrate handed to a hardware encoder, in kilobits a second.
pub open spec fn hardware_bitrate_term(source: SourceModel) -> Seq<char> {
    if source is Camera {
        "bitrate=4000"@
    } else {
        "bitrate=8000"@
    }
}

/// The bitrate handed to the software encoder, in bits a second.
pub open spec fn software_bitrate_term(source: SourceModel) -> Seq<char> {
    if source is Camera {
        "target-bitrate=4000000"@
    } else {
        "target-bitrate=8000000"@
    }
}

/// The terms that bring raw video into the form that the encoder takes.
pub open spec fn conversion_terms(source: SourceModel, path: EncoderPath) -> Seq<Seq<char>> {
    match path {
        EncoderPath::NvencFull => seq![
            "videoconvert"@,
            "!"@,
            "nvvidconv"@,
            "!"@,
            "'video/x-raw(memory:NVMM)'"@,
            "!"@,
        ],
        EncoderPath::NvencBasic | EncoderPath::NvencMinimal => seq![
            "videoconvert"@,
            "!"@,
            "video/x-raw,format=NV12"@,
            "!"@,
        ],
        EncoderPath::Vaapi => seq![
            "videoconvert"@,
            "!"@,
            "vaapipostproc"@,
            "!"@,
            "'video/x-raw(memory:VASurface)'"@,
            "!"@,
        ],
        EncoderPath::Software => if source is TestPattern {
            seq![
                "videoconvert"@,
                "!"@,
                "queue"@,
                "max-size-buffers=2"@,
                "leaky=downstream"@,
                "!"@,
            ]
        } else {
            seq![
                "videoconvert"@,
                "!"@,
                "videoscale"@,
                "!"@,
                "video/x-raw,format=I420"@,
                "!"@,
                "queue"@,
                "max-size-buffers=2"@,
                "leaky=downstream"@,
                "!"@,
            ]
        },
    }
}

/// The encoder with its settings, and what packs its output for transport.
pub open spec fn encoder_terms(source: SourceModel, path: EncoderPath, threads: nat) -> Seq<
    Seq<char>,
> {
    match path {
        EncoderPath::NvencFull | EncoderPath::NvencBasic => seq![
            "nvh264enc"@,
            "preset=low-latency-hq"@,
            "rc-mode=cbr"@,
            "gop-size=60"@,
            hardware_bitrate_term(source),
            "!"@,
            "h264parse"@,
            "!"@,
            "rtph264pay"@,
            "pt=96"@,
            "mtu=1200"@,
            "!"@,
        ],
        EncoderPath::NvencMinimal => seq![
            "nvh264enc"@,
            hardware_bitrate_term(source),
            "!"@,
            "h264parse"@,
            "!"@,
            "rtph264pay"@,
            "pt=96"@,
            "mtu=1200"@,
            "!"@,
        ],
        EncoderPath::Vaapi => seq![
            "vaapivp8enc"@,
            "rate-control=cbr"@,
            "quality-level=5"@,
            hardware_bitrate_term(source),
            "!"@,
            "rtpvp8pay"@,
            "pt=96"@,
            "mtu=1200"@,
            "!"@,
        ],
        EncoderPath::Software => seq![
            "vp8enc"@,
            "deadline=1"@,
            "cpu-used=8"@,
            "threads="@ + decimal(threads),
            "error-resilient=1"@,
            "keyframe-max-dist=60"@,
            software_bitrate_term(source),
            "end-usage=1"@,
            "min-quantizer=4"@,
            "max-quantizer=56"@,
            "!"@,
            "rtpvp8pay"@,
            "pt=96"@,
            "mtu=1200"@,
            "!"@,
        ],
    }
}

/// The tap from which encoded samples named `name` are pulled.
pub open spec fn tap_terms(name: Seq<char>) -> Seq<Seq<char>> {
    seq!["appsink"@, "name="@ + name, "sync=false"@, "drop=true"@, "max-buffers=2"@]
}

/// The terms of the video stage of a graph, from capture to tap.
pub open spec fn video_terms(source: SourceModel, path: EncoderPath, threads: nat) -> Seq<
    Seq<char>,
> {
    source_terms(source) + conversion_terms(source, path) + encoder_terms(source, path, threads)
        + tap_terms("videosink"@)
}

/// The audio input that a request names, as the graph is to address it, and
/// the gain applied to it. `monitor` is the monitor source of the virtual
/// output sink, where that sink exists.
pub open spec fn audio_input(audio_source: Option<Seq<char>>, monitor: Option<Seq<char>>) -> (
    Seq<char>,
    Seq<char>,
) {
    match audio_source {
        Some(id) => if id == "desktop_streamer_virtual"@ {
            match monitor {
                Some(name) => (name, "volume=2.0"@),
                None => ("@DEFAULT_MONITOR@"@, "volume=2.0"@),
            }
        } else if contains(id, ".monitor"@) {
            (id, "volume=2.0"@)
        } else {
            (id, "volume=1.5"@)
        },
        None => ("@DEFAULT_MONITOR@"@, "volume=2.0"@),
    }
}

/// The format asked of the audio input: two channels of 16-bit samples at the
/// sample rate of the request.
pub open spec fn sample_format_term(sample_rate: u32) -> Seq<char> {
    "audio/x-raw,rate="@ + decimal(sample_rate as nat) + ",channels=2,format=S16LE"@
}

/// The terms of the audio stage of a graph; none where audio is off.
pub open spec fn audio_terms(request: PipelineRequest, monitor: Option<Seq<char>>) -> Seq<
    Seq<char>,
> {
    if !request.enable_audio {
        Seq::empty()
    } else {
        let (device, gain) = audio_input(request.audio_source, monitor);
        seq![
            "pulsesrc"@,
            "device="@ + device,
            "!"@,
            "audioconvert"@,
            "!"@,
            "audioresample"@,
            "!"@,
            sample_format_term(request.audio_sample_rate),
            "!"@,
            "volume"@,
            gain,
            "!"@,
            "opusenc"@,
            "bitrate="@ + decimal(request.audio_bitrate as nat),
            "!"@,
            "rtpopuspay"@,
            "pt=111"@,
            "!"@,
        ] + tap_terms("audiosink"@)
    }
}

/// A stage description: its terms with one space between each two.
pub open spec fn stage_text(terms: Seq<Seq<char>>) -> Seq<char> {
    join(terms, " "@)
}

/// A video stage and an audio stage as one description: the video stage alone
/// where there is no audio stage, else the two with one space between them.
pub open spec fn combined_text(video: Seq<char>, audio: Seq<char>) -> Seq<char> {
    if audio.len() == 0 {
        video
    } else {
        video + " "@ + audio
    }
}

fn push_source_terms(terms: &mut Vec<String>, source: &VideoSource)
    ensures
        strings(final(terms)@) == strings(old(terms)@) + source_terms(source@),
{
    let ghost before = strings(terms@);
    match source {
        VideoSource::Screen { number } => {
            push_word(terms, "ximagesrc");
            push_word(terms, "display-name=:0");
            let mut screen = String::from_str("screen-num=");
            push_signed_decimal(&mut screen, *number as i64);
            push_string(terms, screen);
            push_word(terms, "show-pointer=true");
            push_word(terms, "use-damage=false");
            push_word(terms, "!");
            push_word(terms, "video/x-raw,framerate=30/1");
            push_word(terms, "!");
        },
        VideoSource::Portal { node_id } => {
            push_word(terms, "pipewiresrc");
            let mut path = String::from_str("path=");
            push_decimal(&mut path, *node_id as u64);
            push_string(terms, path);
            push_word(terms, "do-timestamp=true");
            push_word(terms, "!");
        },
        VideoSource::Camera { device } => {
            push_word(terms, "v4l2src");
            let mut node = String::from_str("device=/dev/video");
            node.append(device.as_str());
            push_string(terms, node);
            push_word(terms, "!");
            push_word(terms, "video/x-raw,width=1280,height=720,framerate=30/1");
            push_word(terms, "!");
        },
        VideoSource::TestPattern => {
            push_word(terms, "videotestsrc");
            push_word(terms, "pattern=smpte");
            push_word(terms, "!");
            push_word(terms, "video/x-raw,width=1920,height=1080,framerate=30/1,format=I420");
            push_word(terms, "!");
        },
    }
    assert(strings(terms@) =~= before + source_terms(source@));
}

fn push_conversion_terms(terms: &mut Vec<String>, source: &VideoSource, path: EncoderPath)
    ensures
        strings(final(terms)@) == strings(old(terms)@) + conversion_terms(source@, path),
{
    let ghost before = strings(terms@);
    push_word(terms, "videoconvert");
    push_word(terms, "!");
    match path {
        EncoderPath::NvencFull => {
            push_word(terms, "nvvidconv");
            push_word(terms, "!");
            push_word(terms, "'video/x-raw(memory:NVMM)'");
            push_word(terms, "!");
        },
        EncoderPath::NvencBasic | EncoderPath::NvencMinimal => {
            push_word(terms, "video/x-raw,format=NV12");
            push_word(terms, "!");
        },
        EncoderPath::Vaapi => {
            push_word(terms, "vaapipostproc");
            push_word(terms, "!");
            push_word(terms, "'video/x-raw(memory:VASurface)'");
            push_word(terms, "!");
        },
        EncoderPath::Software => {
            match source {
                VideoSource::TestPattern => {},
                _ => {
                    push_word(terms, "videoscale");
                    push_word(terms, "!");
                    push_word(terms, "video/x-raw,format=I420");
                    push_word(terms, "!");
                },
            }
            push_word(terms, "queue");
            push_word(terms, "max-size-buffers=2");
            push_word(terms, "leaky=downstream");
            push_word(terms, "!");
        },
    }
    assert(strings(terms@) =~= before + conversion_terms(source@, path));
}

fn push_hardware_bitrate(terms: &mut Vec<String>, source: &VideoSource)
    ensures
        strings(final(terms)@) == strings(old(terms)@).push(hardware_bitrate_term(source@)),
{
    match source {
        VideoSource::Camera { .. } => push_word(terms, "bitrate=4000"),
        _ => push_word(terms, "bitrate=8000"),
    }
}

fn push_payloader(terms: &mut Vec<String>, payloader: &str)
    ensures
        strings(final(terms)@) == strings(old(terms)@) + seq![
            "!"@,
            payloader@,
            "pt=96"@,
            "mtu=1200"@,
            "!"@,
        ],
{
    let ghost before = strings(terms@);
    push_word(terms, "!");
    push_word(terms, payloader);
    push_word(terms, "pt=96");
    push_word(terms, "mtu=1200");
    push_word(terms, "!");
    assert(strings(terms@) =~= before + seq!["!"@, payloader@, "pt=96"@, "mtu=1200"@, "!"@]);
}

fn push_encoder_terms(
    terms: &mut Vec<String>,
    source: &VideoSource,
    path: EncoderPath,
    threads: usize,
)
    ensures
        strings(final(terms)@) == strings(old(terms)@) + encoder_terms(
            source@,
            path,
            threads as nat,
        ),
{
    let ghost before = strings(terms@);
    match path {
        EncoderPath::NvencFull | EncoderPath::NvencBasic => {
            push_word(terms, "nvh264enc");
            push_word(terms, "preset=low-latency-hq");
            push_word(terms, "rc-mode=cbr");
            push_word(terms, "gop-size=60");
            push_hardware_bitrate(terms, source);
            push_word(terms, "!");
            push_word(terms, "h264parse");
            push_payloader(terms, "rtph264pay");
        },
        EncoderPath::NvencMinimal => {
            push_word(terms, "nvh264enc");
            push_hardware_bitrate(terms, source);
            push_word(terms, "!");
            push_word(terms, "h264parse");
            push_payloader(terms, "rtph264pay");
        },
        EncoderPath::Vaapi => {
            push_word(terms, "vaapivp8enc");
            push_word(terms, "rate-control=cbr");
            push_word(terms, "quality-level=5");
            push_hardware_bitrate(terms, source);
            push_payloader(terms, "rtpvp8pay");
        },
        EncoderPath::Software => {
            push_word(terms, "vp8enc");
            push_word(terms, "deadline=1");
            push_word(terms, "cpu-used=8");
            let mut count = String::from_str("threads=");
            push_decimal(&mut count, threads as u64);
            push_string(terms, count);
            push_word(terms, "error-resilient=1");
            push_word(terms, "keyframe-max-dist=60");
            match source {
                VideoSource::Camera { .. } => push_word(terms, "target-bitrate=4000000"),
                _ => push_word(terms, "target-bitrate=8000000"),
            }
            push_word(terms, "end-usage=1");
            push_word(terms, "min-quantizer=4");
            push_word(terms, "max-quantizer=56");
            push_payloader(terms, "rtpvp8pay");
        },
    }
    assert(strings(terms@) =~= before + encoder_terms(source@, path, threads as nat));
}

fn push_tap_terms(terms: &mut Vec<String>, name: &str)
    ensures
        strings(final(terms)@) == strings(old(terms)@) + tap_terms(name@),
{
    let ghost before = strings(terms@);
    push_word(terms, "appsink");
    let mut label = String::from_str("name=");
    label.append(name);
    push_string(terms, label);
    push_word(terms, "sync=false");
    push_word(terms, "drop=true");
    push_word(terms, "max-buffers=2");
    assert(strings(terms@) =~= before + tap_terms(name@));
}

/// One way to serve a request: a label for diagnostics and the description of
/// the graph, as the media engine reads it.
#[derive(Debug)]
pub struct CandidateGraph {
    pub label: String,
    pub description: String,
    /// How this graph encodes video.
    pub encoder: EncoderPath,
}

/// A candidate graph as a mathematical value.
pub struct CandidateModel {
    pub label: Seq<char>,
    pub description: Seq<char>,
    pub encoder: EncoderPath,
}

impl View for CandidateGraph {
    type V = CandidateModel;

    open spec fn view(&self) -> CandidateModel {
        CandidateModel {
            label: self.label@,
            description: self.description@,
            encoder: self.encoder,
        }
    }
}

/// The candidates that a list holds.
pub open spec fn candidates(list: Seq<CandidateGraph>) -> Seq<CandidateModel> {
    Seq::new(list.len(), |i: int| list[i]@)
}

/// The name of a source in a label.
pub open spec fn source_label(source: SourceModel) -> Seq<char> {
    match source {
        SourceModel::Portal { .. } => "Wayland Portal"@,
        SourceModel::Camera { .. } => "Camera"@,
        SourceModel::Screen { .. } => "X11"@,
        SourceModel::TestPattern => "Test Pattern"@,
    }
}

/// What a label says of the encoder.
pub open spec fn encoder_label(path: EncoderPath) -> Seq<char> {
    match path {
        EncoderPath::NvencFull => " + NVIDIA NVENC (Full)"@,
        EncoderPath::NvencBasic => " + NVIDIA NVENC (Basic)"@,
        EncoderPath::NvencMinimal => " + NVIDIA NVENC (Minimal)"@,
        EncoderPath::Vaapi => " + VAAPI"@,
        EncoderPath::Software => " + Software VP8"@,
    }
}

/// The label of a candidate: source and encoder, or the source alone for the
/// test pattern.
pub open spec fn candidate_label(source: SourceModel, path: EncoderPath) -> Seq<char> {
    if source is TestPattern {
        source_label(source)
    } else {
        source_label(source) + encoder_label(path)
    }
}

/// The candidate that takes video from `source` and encodes it along `path`.
pub open spec fn candidate(
    source: SourceModel,
    path: EncoderPath,
    request: PipelineRequest,
    monitor: Option<Seq<char>>,
    threads: nat,
) -> CandidateModel {
    CandidateModel {
        label: candidate_label(source, path),
        description: combined_text(
            stage_text(video_terms(source, path, threads)),
            stage_text(audio_terms(request, monitor)),
        ),
        encoder: path,
    }
}

/// The encoders to try, richest first: the full NVIDIA path where encoder and
/// converter are present, the encoder alone with all and then with the fewest
/// options where the encoder is present, VAAPI where present, and always the
/// software encoder last. Without a preference for hardware, software alone.
pub open spec fn encoder_ladder(hw: HardwareInfo, use_hardware: bool) -> Seq<EncoderPath> {
    let full = if use_hardware && hw.has_nvenc {
        seq![EncoderPath::NvencFull]
    } else {
        Seq::empty()
    };
    let basic = if use_hardware && hw.has_nvh264enc_basic {
        seq![EncoderPath::NvencBasic, EncoderPath::NvencMinimal]
    } else {
        Seq::empty()
    };
    let vaapi = if use_hardware && hw.has_vaapi {
        seq![EncoderPath::Vaapi]
    } else {
        Seq::empty()
    };
    full + basic + vaapi + seq![EncoderPath::Software]
}

/// The encoders to try for a source: the ladder for a real source, software
/// alone for the test pattern.
pub open spec fn encoder_paths(source: SourceModel, hw: HardwareInfo, use_hardware: bool) -> Seq<
    EncoderPath,
> {
    if source is TestPattern {
        seq![EncoderPath::Software]
    } else {
        encoder_ladder(hw, use_hardware)
    }
}

/// The candidate graphs for a request, in the order in which they are to be
/// tried. There is none where the request asks for the portal surface and no
/// surface handle is at hand.
pub open spec fn candidate_graphs(
    request: PipelineRequest,
    hw: HardwareInfo,
    node_id: Option<u32>,
    monitor: Option<Seq<char>>,
    threads: nat,
) -> Seq<CandidateModel> {
    match requested_source(request.source_type, node_id) {
        Some(source) => {
            let paths = encoder_paths(source, hw, request.use_hardware_encoding);
            Seq::new(paths.len(), |i: int| candidate(source, paths[i], request, monitor, threads))
        },
        None => Seq::empty(),
    }
}

/// The monitor source of the virtual output sink, where the endpoints are on
/// record and the sink was loaded.
pub open spec fn monitor_of(virtual_audio: Option<&VirtualAudioDevice>) -> Option<Seq<char>> {
    match virtual_audio {
        Some(device) => device@.loaded_monitor(),
        None => None,
    }
}

/// `num_cpus::get` reports how many processors this process may use; its
/// documentation promises at least one.
#[verifier::external_body]
fn cpu_count() -> (n: usize)
    ensures
        n >= 1,
{
    num_cpus::get()
}

/// Builds the candidate graphs for capture requests.
#[derive(Debug)]
pub struct PipelineFactory {
    /// The number of threads given to the software encoder.
    pub threads: usize,
}

impl PipelineFactory {
    /// A factory whose software encoder uses as many threads as this process
    /// has processors.
    pub fn new() -> (factory: Self)
        ensures
            factory.threads >= 1,
    {
        PipelineFactory { threads: cpu_count() }
    }

    /// A factory whose software encoder uses `threads` threads.
    pub fn with_threads(threads: usize) -> (factory: Self)
        ensures
            factory.threads == threads,
    {
        PipelineFactory { threads }
    }

    /// The video stage that takes video from `source` and encodes it along
    /// `path`.
    pub fn build_video_pipeline_str(&self, source: &VideoSource, path: EncoderPath) -> (stage:
        String)
        ensures
            stage@ == stage_text(video_terms(source@, path, self.threads as nat)),
    {
        let mut terms: Vec<String> = Vec::new();
        assert(strings(terms@) =~= Seq::<Seq<char>>::empty());
        push_source_terms(&mut terms, source);
        push_conversion_terms(&mut terms, source, path);
        push_encoder_terms(&mut terms, source, path, self.threads);
        push_tap_terms(&mut terms, "videosink");
        assert(strings(terms@) =~= video_terms(source@, path, self.threads as nat));
        join_strings(&terms, " ")
    }

    /// The audio stage for a request; empty where audio is off.
    pub fn build_audio_pipeline_str(
        &self,
        config: &PipelineConfig,
        virtual_audio: Option<&VirtualAudioDevice>,
    ) -> (stage: String)
        ensures
            stage@ == stage_text(audio_terms(config@, monitor_of(virtual_audio))),
    {
        let mut terms: Vec<String> = Vec::new();
        assert(strings(terms@) =~= Seq::<Seq<char>>::empty());
        if !config.enable_audio {
            return join_strings(&terms, " ");
        }
        let mut device = String::from_str("device=");
        let mut monitor_gain = true;
        match &config.audio_source {
            Some(id) => {
                if str_eq(id.as_str(), "desktop_streamer_virtual") {
                    match virtual_audio {
                        Some(endpoints) => {
                            if endpoints.sink_module_id.is_some() {
                                let name = endpoints.get_monitor_source_name();
                                device.append(name.as_str());
                            } else {
                                device.append("@DEFAULT_MONITOR@");
                            }
                        },
                        None => {
                            device.append("@DEFAULT_MONITOR@");
                        },
                    }
                } else {
                    monitor_gain = str_contains_monitor(id.as_str());
                    device.append(id.as_str());
                }
            },
            None => {
                device.append("@DEFAULT_MONITOR@");
            },
        }
        push_word(&mut terms, "pulsesrc");
        push_string(&mut terms, device);
        push_word(&mut terms, "!");
        push_word(&mut terms, "audioconvert");
        push_word(&mut terms, "!");
        push_word(&mut terms, "audioresample");
        push_word(&mut terms, "!");
        let mut format = String::from_str("audio/x-raw,rate=");
        push_decimal(&mut format, config.audio_sample_rate as u64);
        format.append(",channels=2,format=S16LE");
        push_string(&mut terms, format);
        push_word(&mut terms, "!");
        push_word(&mut terms, "volume");
        if monitor_gain {
            push_word(&mut terms, "volume=2.0");
        } else {
            push_word(&mut terms, "volume=1.5");
        }
        push_word(&mut terms, "!");
        push_word(&mut terms, "opusenc");
        let mut bitrate = String::from_str("bitrate=");
        push_decimal(&mut bitrate, config.audio_bitrate as u64);
        push_string(&mut terms, bitrate);
        push_word(&mut terms, "!");
        push_word(&mut terms, "rtpopuspay");
        push_word(&mut terms, "pt=111");
        push_word(&mut terms, "!");
        push_tap_terms(&mut terms, "audiosink");
        assert(strings(terms@) =~= audio_terms(config@, monitor_of(virtual_audio)));
        join_strings(&terms, " ")
    }

    /// A video stage and an audio stage as one description.
    pub fn build_combined_pipeline_str(&self, video_pipeline: &str, audio_pipeline: &str) -> (
        combined: String
    )
        ensures
            combined@ == combined_text(video_pipeline@, audio_pipeline@),
    {
        let mut combined = String::from_str(video_pipeline);
        if !audio_pipeline.is_empty() {
            combined.append(" ");
            combined.append(audio_pipeline);
        }
        combined
    }
}

/// Whether the audio input `id` is a monitor source.
fn str_contains_monitor(id: &str) -> (yes: bool)
    ensures
        yes == contains(id@, ".monitor"@),
{
    let hay = chars_of(id);
    let mark = chars_of(".monitor");
    contains_text(&hay, &mark)
}

/// The encoders to try for `source`; see [`encoder_paths`].
pub fn encoder_paths_for(source: &VideoSource, hw: &HardwareInfo, use_hardware: bool) -> (paths:
    Vec<EncoderPath>)
    ensures
        paths@ == encoder_paths(source@, *hw, use_hardware),
{
    let mut paths: Vec<EncoderPath> = Vec::new();
    match source {
        VideoSource::TestPattern => {
            paths.push(EncoderPath::Software);
            assert(paths@ =~= encoder_paths(source@, *hw, use_hardware));
            return paths;
        },
        _ => {},
    }
    if use_hardware && hw.has_nvenc {
        paths.push(EncoderPath::NvencFull);
    }
    if use_hardware && hw.has_nvh264enc_basic {
        paths.push(EncoderPath::NvencBasic);
        paths.push(EncoderPath::NvencMinimal);
    }
    if use_hardware && hw.has_vaapi {
        paths.push(EncoderPath::Vaapi);
    }
    paths.push(EncoderPath::Software);
    assert(paths@ =~= encoder_ladder(*hw, use_hardware));
    paths
}

/// The label of the candidate that takes video from `source` and encodes it
/// along `path`.
pub fn label_for(source: &VideoSource, path: EncoderPath) -> (label: String)
    ensures
        label@ == candidate_label(source@, path),
{
    let mut label = match source {
        VideoSource::Portal { .. } => String::from_str("Wayland Portal"),
        VideoSource::Camera { .. } => String::from_str("Camera"),
        VideoSource::Screen { .. } => String::from_str("X11"),
        VideoSource::TestPattern => {
            return String::from_str("Test Pattern");
        },
    };
    match path {
        EncoderPath::NvencFull => label.append(" + NVIDIA NVENC (Full)"),
        EncoderPath::NvencBasic => label.append(" + NVIDIA NVENC (Basic)"),
        EncoderPath::NvencMinimal => label.append(" + NVIDIA NVENC (Minimal)"),
        EncoderPath::Vaapi => label.append(" + VAAPI"),
        EncoderPath::Software => label.append(" + Software VP8"),
    }
    label
}

impl PipelineFactory {
    /// The candidate graphs for a request, in the order in which they are to
    /// be tried: hardware encoders first, as far as `hw_info` offers them and
    /// the request prefers hardware, and the software encoder last.
    ///
    /// `pipewire_node_id` is the surface handle that the capture broker gave,
    /// `virtual_audio` the virtual endpoints where they exist. The list is
    /// empty exactly where the request asks for the portal surface and there is
    /// no surface handle.
    pub fn get_pipeline_configurations(
        &self,
        config: &PipelineConfig,
        hw_info: &HardwareInfo,
        pipewire_node_id: Option<u32>,
        virtual_audio: Option<&VirtualAudioDevice>,
    ) -> (graphs: Vec<CandidateGraph>)
        ensures
            candidates(graphs@) == candidate_graphs(
                config@,
                *hw_info,
                pipewire_node_id,
                monitor_of(virtual_audio),
                self.threads as nat,
            ),
            graphs.len() == 0 <==> requested_source(
                config@.source_type,
                pipewire_node_id,
            ) is None,
            graphs.len() > 0 ==> graphs@.last().encoder == EncoderPath::Software,
    {
        let mut graphs: Vec<CandidateGraph> = Vec::new();
        let ghost wanted = candidate_graphs(
            config@,
            *hw_info,
            pipewire_node_id,
            monitor_of(virtual_audio),
            self.threads as nat,
        );
        proof {
            lemma_software_is_last(
                config@,
                *hw_info,
                pipewire_node_id,
                monitor_of(virtual_audio),
                self.threads as nat,
            );
        }
        let source = match select_source(
            config.source_type.as_str(),
            pipewire_node_id,
        ) {
            Some(source) => source,
            None => {
                assert(candidates(graphs@) =~= wanted);
                return graphs;
            },
        };
        let paths = encoder_paths_for(&source, hw_info, config.use_hardware_encoding);
        let audio = self.build_audio_pipeline_str(config, virtual_audio);
        let mut i: usize = 0;
        while i < paths.len()
            invariant
                i <= paths.len(),
                paths@ == encoder_paths(source@, *hw_info, config@.use_hardware_encoding),
                wanted.len() == paths.len(),
                forall|k: int|
                    0 <= k < paths.len() ==> #[trigger] wanted[k] == candidate(
                        source@,
                        paths@[k],
                        config@,
                        monitor_of(virtual_audio),
                        self.threads as nat,
                    ),
                audio@ == stage_text(audio_terms(config@, monitor_of(virtual_audio))),
                graphs.len() == i,
                forall|k: int| 0 <= k < i ==> #[trigger] graphs@[k]@ == wanted[k],
            decreases paths.len() - i,
        {
            let path = paths[i];
            let video = self.build_video_pipeline_str(&source, path);
            let description = self.build_combined_pipeline_str(video.as_str(), audio.as_str());
            let label = label_for(&source, path);
            graphs.push(CandidateGraph { label, description, encoder: path });
            i += 1;
        }
        assert(candidates(graphs@) =~= wanted);
        graphs
    }
}

/// Every request whose source can be served has at least one candidate, and
/// the last candidate uses the software encoder. A request has no candidate
/// only where it asks for the portal surface and no surface handle is at hand.
pub proof fn lemma_software_is_last(
    request: PipelineRequest,
    hw: HardwareInfo,
    node_id: Option<u32>,
    monitor: Option<Seq<char>>,
    threads: nat,
)
    ensures
        ({
            let graphs = candidate_graphs(
                request,
                hw,
                node_id,
                monitor,
                threads,
            );
            match requested_source(request.source_type, node_id) {
                Some(source) => graphs.len() >= 1 && graphs.last().encoder
                    == EncoderPath::Software,
                None => graphs.len() == 0 && is_portal_source(request.source_type) && node_id
                    is None,
            }
        }),
{
}

/// All the terms of a candidate, video stage first.
pub open spec fn candidate_terms(
    source: SourceModel,
    path: EncoderPath,
    request: PipelineRequest,
    monitor: Option<Seq<char>>,
    threads: nat,
) -> Seq<Seq<char>> {
    video_terms(source, path, threads) + audio_terms(request, monitor)
}

/// A joined list is at least as long as its first piece.
pub proof fn lemma_join_covers_first(pieces: Seq<Seq<char>>, sep: Seq<char>)
    requires
        pieces.len() >= 1,
    ensures
        join(pieces, sep).len() >= pieces[0].len(),
    decreases pieces.len(),
{
    if pieces.len() >= 2 {
        lemma_join_covers_first(pieces.drop_last(), sep);
        assert(pieces.drop_last()[0] == pieces[0]);
    }
}

/// Joining two lists end to end is joining each and putting a separator
/// between the two.
pub proof fn lemma_join_concat(a: Seq<Seq<char>>, b: Seq<Seq<char>>, sep: Seq<char>)
    requires
        a.len() >= 1,
    ensures
        join(a + b, sep) == if b.len() == 0 {
            join(a, sep)
        } else {
            join(a, sep) + sep + join(b, sep)
        },
    decreases b.len(),
{
    if b.len() == 0 {
        assert(a + b =~= a);
    } else {
        let whole = a + b;
        assert(whole.drop_last() =~= a + b.drop_last());
        assert(whole.last() == b.last());
        lemma_join_concat(a, b.drop_last(), sep);
        assert(join(whole, sep) =~= join(a, sep) + sep + join(b, sep));
    }
}

/// The description of a candidate is its terms with one space between each
/// two.
pub proof fn lemma_description_joins_terms(
    source: SourceModel,
    path: EncoderPath,
    request: PipelineRequest,
    monitor: Option<Seq<char>>,
    threads: nat,
)
    ensures
        candidate(source, path, request, monitor, threads).description == stage_text(
            candidate_terms(source, path, request, monitor, threads),
        ),
{
    let video = video_terms(source, path, threads);
    let audio = audio_terms(request, monitor);
    assert(video.len() >= 1) by {
        assert(tap_terms("videosink"@).len() == 5);
    }
    lemma_join_concat(video, audio, " "@);
    if audio.len() > 0 {
        reveal_strlit("pulsesrc");
        assert(audio[0] == "pulsesrc"@);
        lemma_join_covers_first(audio, " "@);
    }
}

/// `terms` names the element `element`.
pub open spec fn names_element(terms: Seq<Seq<char>>, element: Seq<char>) -> bool {
    exists|i: int| 0 <= i < terms.len() && terms[i] == element
}

/// The term stands for none of the hardware elements: it begins like none of
/// them.
pub open spec fn plain_term(term: Seq<char>) -> bool {
    term.len() < 3 || !((term[0] == 'n' && term[1] == 'v') || (term[0] == 'v' && term[1] == 'a'
        && term[2] == 'a'))
}

/// The elements of the two hardware encoders are no plain terms.
proof fn lemma_hardware_elements()
    ensures
        !plain_term("nvh264enc"@),
        !plain_term("nvvidconv"@),
        !plain_term("vaapipostproc"@),
        !plain_term("vaapivp8enc"@),
        "nvh264enc"@ != "nvvidconv"@,
        "vaapipostproc"@ != "vaapivp8enc"@,
        "nvh264enc"@ != "vaapivp8enc"@,
        "nvh264enc"@ != "vaapipostproc"@,
        "nvvidconv"@ != "vaapivp8enc"@,
        "nvvidconv"@ != "vaapipostproc"@,
{
    reveal_strlit("nvh264enc");
    reveal_strlit("nvvidconv");
    reveal_strlit("vaapipostproc");
    reveal_strlit("vaapivp8enc");
    assert("nvh264enc"@[2] != "nvvidconv"@[2]);
}

/// Every term of the source stage is plain.
proof fn lemma_source_terms_plain(source: SourceModel)
    ensures
        forall|i: int|
            0 <= i < source_terms(source).len() ==> plain_term(#[trigger] source_terms(source)[i]),
{
    reveal_strlit("ximagesrc");
    reveal_strlit("display-name=:0");
    reveal_strlit("screen-num=");
    reveal_strlit("show-pointer=true");
    reveal_strlit("use-damage=false");
    reveal_strlit("!");
    reveal_strlit("video/x-raw,framerate=30/1");
    reveal_strlit("pipewiresrc");
    reveal_strlit("path=");
    reveal_strlit("do-timestamp=true");
    reveal_strlit("v4l2src");
    reveal_strlit("device=/dev/video");
    reveal_strlit("video/x-raw,width=1280,height=720,framerate=30/1");
    reveal_strlit("videotestsrc");
    reveal_strlit("pattern=smpte");
    reveal_strlit("video/x-raw,width=1920,height=1080,framerate=30/1,format=I420");
}

/// The tap's terms are plain.
proof fn lemma_tap_terms_plain(name: Seq<char>)
    ensures
        forall|i: int|
            0 <= i < tap_terms(name).len() ==> plain_term(#[trigger] tap_terms(name)[i]),
{
    reveal_strlit("appsink");
    reveal_strlit("name=");
    reveal_strlit("sync=false");
    reveal_strlit("drop=true");
    reveal_strlit("max-buffers=2");
}

/// Every term of the audio stage is plain.
proof fn lemma_audio_terms_plain(request: PipelineRequest, monitor: Option<Seq<char>>)
    ensures
        forall|i: int|
            0 <= i < audio_terms(request, monitor).len() ==> plain_term(
                #[trigger] audio_terms(request, monitor)[i],
            ),
{
    reveal_strlit("pulsesrc");
    reveal_strlit("device=");
    reveal_strlit("!");
    reveal_strlit("audioconvert");
    reveal_strlit("audioresample");
    reveal_strlit("audio/x-raw,rate=");
    reveal_strlit("volume");
    reveal_strlit("volume=2.0");
    reveal_strlit("volume=1.5");
    reveal_strlit("opusenc");
    reveal_strlit("bitrate=");
    reveal_strlit("rtpopuspay");
    reveal_strlit("pt=111");
    lemma_tap_terms_plain("audiosink"@);
    if request.enable_audio {
        let (device, gain) = audio_input(request.audio_source, monitor);
        let head = seq![
            "pulsesrc"@,
            "device="@ + device,
            "!"@,
            "audioconvert"@,
            "!"@,
            "audioresample"@,
            "!"@,
            sample_format_term(request.audio_sample_rate),
            "!"@,
            "volume"@,
            gain,
            "!"@,
            "opusenc"@,
            "bitrate="@ + decimal(request.audio_bitrate as nat),
            "!"@,
            "rtpopuspay"@,
            "pt=111"@,
            "!"@,
        ];
        let tap = tap_terms("audiosink"@);
        assert forall|i: int| 0 <= i < (head + tap).len() implies plain_term(
            #[trigger] (head + tap)[i],
        ) by {
            if i >= head.len() {
                assert((head + tap)[i] == tap[i - head.len()]);
            }
        }
    }
}

/// Of the hardware elements, the conversion stage names the NVIDIA converter
/// on the full NVIDIA path and the VAAPI converter on the VAAPI path, and
/// nothing else.
proof fn lemma_conversion_terms(source: SourceModel, path: EncoderPath)
    ensures
        forall|i: int|
            0 <= i < conversion_terms(source, path).len() ==> {
                let term = #[trigger] conversion_terms(source, path)[i];
                ||| plain_term(term)
                ||| (term == "nvvidconv"@ && path == EncoderPath::NvencFull)
                ||| (term == "vaapipostproc"@ && path == EncoderPath::Vaapi)
            },
{
    reveal_strlit("videoconvert");
    reveal_strlit("!");
    reveal_strlit("'video/x-raw(memory:NVMM)'");
    reveal_strlit("video/x-raw,format=NV12");
    reveal_strlit("'video/x-raw(memory:VASurface)'");
    reveal_strlit("queue");
    reveal_strlit("max-size-buffers=2");
    reveal_strlit("leaky=downstream");
    reveal_strlit("videoscale");
    reveal_strlit("video/x-raw,format=I420");
}

/// Of the hardware elements, the encoder stage names the NVIDIA encoder on the
/// three NVIDIA paths and the VAAPI encoder on the VAAPI path, and nothing
/// else.
proof fn lemma_encoder_terms(source: SourceModel, path: EncoderPath, threads: nat)
    ensures
        forall|i: int|
            0 <= i < encoder_terms(source, path, threads).len() ==> {
                let term = #[trigger] encoder_terms(source, path, threads)[i];
                ||| plain_term(term)
                ||| (term == "nvh264enc"@ && path != EncoderPath::Vaapi && path
                    != EncoderPath::Software)
                ||| (term == "vaapivp8enc"@ && path == EncoderPath::Vaapi)
            },
{
    reveal_strlit("preset=low-latency-hq");
    reveal_strlit("rc-mode=cbr");
    reveal_strlit("gop-size=60");
    reveal_strlit("bitrate=4000");
    reveal_strlit("bitrate=8000");
    reveal_strlit("!");
    reveal_strlit("h264parse");
    reveal_strlit("rtph264pay");
    reveal_strlit("pt=96");
    reveal_strlit("mtu=1200");
    reveal_strlit("rate-control=cbr");
    reveal_strlit("quality-level=5");
    reveal_strlit("rtpvp8pay");
    reveal_strlit("vp8enc");
    reveal_strlit("deadline=1");
    reveal_strlit("cpu-used=8");
    reveal_strlit("threads=");
    reveal_strlit("error-resilient=1");
    reveal_strlit("keyframe-max-dist=60");
    reveal_strlit("target-bitrate=4000000");
    reveal_strlit("target-bitrate=8000000");
    reveal_strlit("end-usage=1");
    reveal_strlit("min-quantizer=4");
    reveal_strlit("max-quantizer=56");
}

/// A candidate names no element of an encoder that the machine lacks: not the
/// NVIDIA encoder where that is absent, not the NVIDIA converter where the full
/// NVIDIA path is absent, and neither VAAPI element where VAAPI is absent.
pub proof fn lemma_absent_encoder_not_named(
    source: SourceModel,
    path: EncoderPath,
    request: PipelineRequest,
    hw: HardwareInfo,
    monitor: Option<Seq<char>>,
    threads: nat,
)
    requires
        hw.consistent(),
        encoder_paths(source, hw, request.use_hardware_encoding).contains(path),
    ensures
        ({
            let terms = candidate_terms(source, path, request, monitor, threads);
            &&& !hw.has_nvh264enc_basic ==> !names_element(terms, "nvh264enc"@)
            &&& !hw.has_nvenc ==> !names_element(terms, "nvvidconv"@)
            &&& !hw.has_vaapi ==> !names_element(terms, "vaapipostproc"@) && !names_element(
                terms,
                "vaapivp8enc"@,
            )
        }),
{
    let terms = candidate_terms(source, path, request, monitor, threads);
    let a = source_terms(source);
    let b = conversion_terms(source, path);
    let c = encoder_terms(source, path, threads);
    let d = tap_terms("videosink"@);
    let e = audio_terms(request, monitor);
    lemma_hardware_elements();
    lemma_source_terms_plain(source);
    lemma_conversion_terms(source, path);
    lemma_encoder_terms(source, path, threads);
    lemma_tap_terms_plain("videosink"@);
    lemma_audio_terms_plain(request, monitor);
    let paths = encoder_paths(source, hw, request.use_hardware_encoding);
    let at = choose|k: int| 0 <= k < paths.len() && paths[k] == path;
    assert(0 <= at < paths.len() && paths[at] == path);
    assert(path == EncoderPath::NvencFull ==> hw.has_nvenc);
    assert(path == EncoderPath::NvencBasic || path == EncoderPath::NvencMinimal
        ==> hw.has_nvh264enc_basic);
    assert(path == EncoderPath::Vaapi ==> hw.has_vaapi);
    assert forall|i: int| 0 <= i < terms.len() implies {
        let term = #[trigger] terms[i];
        ||| plain_term(term)
        ||| (term == "nvvidconv"@ && path == EncoderPath::NvencFull)
        ||| (term == "vaapipostproc"@ && path == EncoderPath::Vaapi)
        ||| (term == "nvh264enc"@ && path != EncoderPath::Vaapi && path != EncoderPath::Software)
        ||| (term == "vaapivp8enc"@ && path == EncoderPath::Vaapi)
    } by {
        assert(terms == a + b + c + d + e);
        if i < a.len() {
            assert(terms[i] == a[i]);
        } else if i < a.len() + b.len() {
            assert(terms[i] == b[i - a.len()]);
        } else if i < a.len() + b.len() + c.len() {
            assert(terms[i] == c[i - a.len() - b.len()]);
        } else if i < a.len() + b.len() + c.len() + d.len() {
            assert(terms[i] == d[i - a.len() - b.len() - c.len()]);
        } else {
            assert(terms[i] == e[i - a.len() - b.len() - c.len() - d.len()]);
        }
    }
}

} // verus!
