use desktop_streamer::config::PipelineConfig;
use desktop_streamer::media::{
    detect_hardware_capabilities, select_source, CandidateGraph, ElementProbe, EncoderPath,
    HardwareInfo, PipelineFactory, VideoSource,
};
use desktop_streamer::virtual_audio::{CommandOutput, VirtualAudioDevice};

const VIDEO_TAP: &str = "appsink name=videosink sync=false drop=true max-buffers=2";
const AUDIO_TAP: &str = "appsink name=audiosink sync=false drop=true max-buffers=2";

fn no_hardware() -> HardwareInfo {
    HardwareInfo {
        has_nvenc: false,
        has_nvh264enc_basic: false,
        has_vaapi: false,
        has_v4l2h264enc: false,
        has_intel_gpu: false,
    }
}

fn all_hardware() -> HardwareInfo {
    HardwareInfo {
        has_nvenc: true,
        has_nvh264enc_basic: true,
        has_vaapi: true,
        has_v4l2h264enc: true,
        has_intel_gpu: true,
    }
}

fn request(source: &str) -> PipelineConfig {
    let mut config = PipelineConfig::default();
    config.source_type = source.to_string();
    config
}

fn graphs(config: &PipelineConfig, hw: &HardwareInfo, node: Option<u32>) -> Vec<CandidateGraph> {
    PipelineFactory::with_threads(4).get_pipeline_configurations(config, hw, node, None)
}

fn ran(stdout: &str) -> Option<CommandOutput> {
    Some(CommandOutput { success: true, stdout: stdout.to_string(), stderr: String::new() })
}

/// The virtual endpoints with both modules loaded.
fn loaded_device() -> VirtualAudioDevice {
    let mut device = VirtualAudioDevice::new();
    device.create_virtual_devices(&ran("21\n"), &ran("22\n"));
    device
}

fn software_vp8(bitrate: &str) -> String {
    format!(
        "vp8enc deadline=1 cpu-used=8 threads=4 error-resilient=1 keyframe-max-dist=60 \
         target-bitrate={bitrate} end-usage=1 min-quantizer=4 max-quantizer=56 ! \
         rtpvp8pay pt=96 mtu=1200 ! {VIDEO_TAP}"
    )
}

#[test]
fn default_request_is_first_screen_without_audio() {
    let config = PipelineConfig::default();
    assert_eq!(config.source_type, "x11-0");
    assert_eq!(config.audio_source, None);
    assert!(!config.enable_audio);
    assert!(!config.enable_microphone_input);
    assert_eq!(config.audio_bitrate, 128000);
    assert_eq!(config.audio_sample_rate, 48000);
    assert_eq!(config.resolution, (1920, 1080));
    assert_eq!(config.framerate, 30);
    assert!(config.use_hardware_encoding);
    let copy = config.clone();
    assert_eq!(copy.source_type, "x11-0");
    assert_eq!(copy.resolution, (1920, 1080));
}

#[test]
fn test_pattern_without_hardware_yields_one_software_candidate() {
    let mut config = request("test-pattern");
    config.enable_audio = false;
    let list = graphs(&config, &no_hardware(), None);
    assert_eq!(list.len(), 1);
    assert_eq!(list[0].label, "Test Pattern");
    assert_eq!(list[0].encoder, EncoderPath::Software);
    assert_eq!(
        list[0].description,
        format!(
            "videotestsrc pattern=smpte ! \
             video/x-raw,width=1920,height=1080,framerate=30/1,format=I420 ! \
             videoconvert ! queue max-size-buffers=2 leaky=downstream ! {}",
            software_vp8("8000000")
        )
    );
}

#[test]
fn test_pattern_ignores_hardware() {
    let list = graphs(&request("test"), &all_hardware(), None);
    assert_eq!(list.len(), 1);
    assert_eq!(list[0].label, "Test Pattern");
}

#[test]
fn screen_with_degraded_hardware_yields_three_candidates_with_virtual_audio() {
    let mut hw = no_hardware();
    hw.has_nvh264enc_basic = true;
    let device = loaded_device();
    for source in ["screen-0", "x11-0"] {
        let mut config = request(source);
        config.enable_audio = true;
        config.audio_source = Some("desktop_streamer_virtual".to_string());
        let list = PipelineFactory::with_threads(4).get_pipeline_configurations(
            &config,
            &hw,
            None,
            Some(&device),
        );
        let labels: Vec<&str> = list.iter().map(|g| g.label.as_str()).collect();
        assert_eq!(
            labels,
            vec!["X11 + NVIDIA NVENC (Basic)", "X11 + NVIDIA NVENC (Minimal)", "X11 + Software VP8"]
        );
        let encoders: Vec<EncoderPath> = list.iter().map(|g| g.encoder).collect();
        assert_eq!(
            encoders,
            vec![EncoderPath::NvencBasic, EncoderPath::NvencMinimal, EncoderPath::Software]
        );
        let audio = format!(
            "pulsesrc device=desktop_streamer_output.monitor ! audioconvert ! audioresample ! \
             audio/x-raw,rate=48000,channels=2,format=S16LE ! volume volume=2.0 ! \
             opusenc bitrate=128000 ! rtpopuspay pt=111 ! {AUDIO_TAP}"
        );
        for graph in &list {
            assert!(graph.description.ends_with(&format!(" {audio}")));
        }
        assert_eq!(
            list[0].description,
            format!(
                "ximagesrc display-name=:0 screen-num=0 show-pointer=true use-damage=false ! \
                 video/x-raw,framerate=30/1 ! videoconvert ! video/x-raw,format=NV12 ! \
                 nvh264enc preset=low-latency-hq rc-mode=cbr gop-size=60 bitrate=8000 ! \
                 h264parse ! rtph264pay pt=96 mtu=1200 ! {VIDEO_TAP} {audio}"
            )
        );
        assert_eq!(
            list[1].description,
            format!(
                "ximagesrc display-name=:0 screen-num=0 show-pointer=true use-damage=false ! \
                 video/x-raw,framerate=30/1 ! videoconvert ! video/x-raw,format=NV12 ! \
                 nvh264enc bitrate=8000 ! h264parse ! rtph264pay pt=96 mtu=1200 ! \
                 {VIDEO_TAP} {audio}"
            )
        );
    }
}

#[test]
fn screen_with_all_hardware_yields_the_full_ladder() {
    let list = graphs(&request("x11-2"), &all_hardware(), None);
    let labels: Vec<&str> = list.iter().map(|g| g.label.as_str()).collect();
    assert_eq!(
        labels,
        vec![
            "X11 + NVIDIA NVENC (Full)",
            "X11 + NVIDIA NVENC (Basic)",
            "X11 + NVIDIA NVENC (Minimal)",
            "X11 + VAAPI",
            "X11 + Software VP8",
        ]
    );
    assert_eq!(
        list[0].description,
        format!(
            "ximagesrc display-name=:0 screen-num=2 show-pointer=true use-damage=false ! \
             video/x-raw,framerate=30/1 ! \
             videoconvert ! nvvidconv ! 'video/x-raw(memory:NVMM)' ! \
             nvh264enc preset=low-latency-hq rc-mode=cbr gop-size=60 bitrate=8000 ! \
             h264parse ! rtph264pay pt=96 mtu=1200 ! {VIDEO_TAP}"
        )
    );
    assert_eq!(
        list[3].description,
        format!(
            "ximagesrc display-name=:0 screen-num=2 show-pointer=true use-damage=false ! \
             video/x-raw,framerate=30/1 ! \
             videoconvert ! vaapipostproc ! 'video/x-raw(memory:VASurface)' ! \
             vaapivp8enc rate-control=cbr quality-level=5 bitrate=8000 ! \
             rtpvp8pay pt=96 mtu=1200 ! {VIDEO_TAP}"
        )
    );
    assert_eq!(
        list[4].description,
        format!(
            "ximagesrc display-name=:0 screen-num=2 show-pointer=true use-damage=false ! \
             video/x-raw,framerate=30/1 ! \
             videoconvert ! videoscale ! video/x-raw,format=I420 ! \
             queue max-size-buffers=2 leaky=downstream ! {}",
            software_vp8("8000000")
        )
    );
}

#[test]
fn software_candidate_is_always_last() {
    for source in ["x11-0", "camera-1", "screen-3", "test", "wayland", ""] {
        for bits in 0..8u8 {
            let hw = HardwareInfo {
                has_nvenc: bits & 1 != 0,
                has_nvh264enc_basic: bits & 2 != 0,
                has_vaapi: bits & 4 != 0,
                has_v4l2h264enc: false,
                has_intel_gpu: false,
            };
            for prefer in [true, false] {
                let mut config = request(source);
                config.use_hardware_encoding = prefer;
                let list = graphs(&config, &hw, None);
                assert!(!list.is_empty());
                assert_eq!(list[list.len() - 1].encoder, EncoderPath::Software);
                if !prefer {
                    assert_eq!(list.len(), 1);
                }
            }
        }
    }
}

#[test]
fn absent_encoder_is_not_named() {
    for source in ["x11-0", "camera-0", "test"] {
        let mut hw = all_hardware();
        hw.has_vaapi = false;
        for graph in graphs(&request(source), &hw, None) {
            let words: Vec<&str> = graph.description.split(' ').collect();
            assert!(!words.contains(&"vaapipostproc"));
            assert!(!words.contains(&"vaapivp8enc"));
        }
        let mut hw = all_hardware();
        hw.has_nvenc = false;
        hw.has_nvh264enc_basic = false;
        for graph in graphs(&request(source), &hw, None) {
            let words: Vec<&str> = graph.description.split(' ').collect();
            assert!(!words.contains(&"nvh264enc"));
            assert!(!words.contains(&"nvvidconv"));
        }
        let mut hw = all_hardware();
        hw.has_nvenc = false;
        for graph in graphs(&request(source), &hw, None) {
            let words: Vec<&str> = graph.description.split(' ').collect();
            assert!(!words.contains(&"nvvidconv"));
        }
    }
}

#[test]
fn camera_candidates_use_the_camera_bitrates() {
    let list = graphs(&request("camera-3"), &all_hardware(), None);
    assert_eq!(list.len(), 5);
    assert_eq!(list[0].label, "Camera + NVIDIA NVENC (Full)");
    assert_eq!(
        list[1].description,
        format!(
            "v4l2src device=/dev/video3 ! \
             video/x-raw,width=1280,height=720,framerate=30/1 ! \
             videoconvert ! video/x-raw,format=NV12 ! \
             nvh264enc preset=low-latency-hq rc-mode=cbr gop-size=60 bitrate=4000 ! \
             h264parse ! rtph264pay pt=96 mtu=1200 ! {VIDEO_TAP}"
        )
    );
    assert_eq!(
        list[4].description,
        format!(
            "v4l2src device=/dev/video3 ! \
             video/x-raw,width=1280,height=720,framerate=30/1 ! \
             videoconvert ! videoscale ! video/x-raw,format=I420 ! \
             queue max-size-buffers=2 leaky=downstream ! {}",
            software_vp8("4000000")
        )
    );
    assert_eq!(list[4].label, "Camera + Software VP8");
}

#[test]
fn portal_needs_a_surface_handle() {
    let factory = PipelineFactory::with_threads(2);
    let config = request("wayland-portal");
    for hw in [all_hardware(), no_hardware()] {
        assert!(factory.get_pipeline_configurations(&config, &hw, None, None).is_empty());
    }
    let some = factory.get_pipeline_configurations(&config, &no_hardware(), Some(57), None);
    assert_eq!(some.len(), 1);
    assert_eq!(some[0].label, "Wayland Portal + Software VP8");
    assert!(some[0].description.starts_with(
        "pipewiresrc path=57 do-timestamp=true ! videoconvert ! videoscale ! "
    ));
    let full =
        factory.get_pipeline_configurations(&config, &all_hardware(), Some(4294967295), None);
    assert_eq!(full.len(), 5);
    assert_eq!(full[0].label, "Wayland Portal + NVIDIA NVENC (Full)");
    assert!(full[0].description.starts_with(
        "pipewiresrc path=4294967295 do-timestamp=true ! videoconvert ! nvvidconv ! "
    ));
    // A handle that is not asked for changes nothing.
    let other = factory.get_pipeline_configurations(&request("test"), &no_hardware(), Some(1), None);
    assert_eq!(other.len(), 1);
    assert_eq!(other[0].label, "Test Pattern");
}

#[test]
fn source_names_are_read_as_the_screen_and_camera_they_name() {
    assert!(matches!(
        select_source("x11-7", None),
        Some(VideoSource::Screen { number: 7 })
    ));
    assert!(matches!(
        select_source("x11--3", None),
        Some(VideoSource::Screen { number: -3 })
    ));
    assert!(matches!(
        select_source("x11-+12", None),
        Some(VideoSource::Screen { number: 12 })
    ));
    assert!(matches!(
        select_source("x11-abc", None),
        Some(VideoSource::Screen { number: 0 })
    ));
    assert!(matches!(
        select_source("x11-", None),
        Some(VideoSource::Screen { number: 0 })
    ));
    assert!(matches!(
        select_source("x11-2147483648", None),
        Some(VideoSource::Screen { number: 0 })
    ));
    assert!(matches!(
        select_source("x11--2147483648", None),
        Some(VideoSource::Screen { number: -2147483648 })
    ));
    assert!(matches!(
        select_source("screen-1", None),
        Some(VideoSource::Screen { number: 1 })
    ));
    match select_source("camera-front", None) {
        Some(VideoSource::Camera { device }) => assert_eq!(device, "front"),
        _ => panic!("a camera"),
    }
    match select_source("camera-", None) {
        Some(VideoSource::Camera { device }) => assert_eq!(device, ""),
        _ => panic!("a camera"),
    }
    assert!(matches!(select_source("X11-0", None), Some(VideoSource::TestPattern)));
    assert!(matches!(
        select_source("wayland-portal", Some(9)),
        Some(VideoSource::Portal { node_id: 9 })
    ));
    assert!(select_source("wayland-portal", None).is_none());
}

#[test]
fn audio_stage_follows_the_audio_source() {
    let factory = PipelineFactory::with_threads(1);
    let device = loaded_device();
    let mut config = PipelineConfig::default();
    assert_eq!(factory.build_audio_pipeline_str(&config, Some(&device)), "");
    config.enable_audio = true;
    config.audio_bitrate = 96000;
    let stage = |device: &str, gain: &str| {
        format!(
            "pulsesrc device={device} ! audioconvert ! audioresample ! \
             audio/x-raw,rate=48000,channels=2,format=S16LE ! volume volume={gain} ! \
             opusenc bitrate=96000 ! rtpopuspay pt=111 ! {AUDIO_TAP}"
        )
    };
    assert_eq!(factory.build_audio_pipeline_str(&config, None), stage("@DEFAULT_MONITOR@", "2.0"));
    config.audio_source = Some("desktop_streamer_virtual".to_string());
    assert_eq!(
        factory.build_audio_pipeline_str(&config, Some(&device)),
        stage("desktop_streamer_output.monitor", "2.0")
    );
    assert_eq!(factory.build_audio_pipeline_str(&config, None), stage("@DEFAULT_MONITOR@", "2.0"));
    config.audio_source = Some("alsa_output.pci.monitor".to_string());
    assert_eq!(
        factory.build_audio_pipeline_str(&config, Some(&device)),
        stage("alsa_output.pci.monitor", "2.0")
    );
    config.audio_source = Some("alsa_input.usb-mic".to_string());
    assert_eq!(
        factory.build_audio_pipeline_str(&config, Some(&device)),
        stage("alsa_input.usb-mic", "1.5")
    );
}

#[test]
fn virtual_device_without_a_loaded_sink_falls_back_to_the_default() {
    let factory = PipelineFactory::with_threads(1);
    let mut config = PipelineConfig::default();
    config.enable_audio = true;
    config.audio_source = Some("desktop_streamer_virtual".to_string());
    let fresh = VirtualAudioDevice::new();
    assert!(factory
        .build_audio_pipeline_str(&config, Some(&fresh))
        .starts_with("pulsesrc device=@DEFAULT_MONITOR@ ! "));
    // Only the microphone loopback was loaded: the output sink is still absent.
    let mut partial = VirtualAudioDevice::new();
    partial.create_virtual_devices(&None, &ran("5"));
    assert!(factory
        .build_audio_pipeline_str(&config, Some(&partial))
        .starts_with("pulsesrc device=@DEFAULT_MONITOR@ ! "));
    let mut sink_only = VirtualAudioDevice::new();
    sink_only.create_virtual_devices(&ran("4"), &None);
    assert!(factory
        .build_audio_pipeline_str(&config, Some(&sink_only))
        .starts_with("pulsesrc device=desktop_streamer_output.monitor ! "));
}

#[test]
fn numbers_of_the_request_are_substituted_as_they_are() {
    let factory = PipelineFactory::with_threads(3);
    let mut config = PipelineConfig::default();
    config.enable_audio = true;
    config.audio_sample_rate = 44100;
    config.audio_bitrate = 64000;
    assert_eq!(
        factory.build_audio_pipeline_str(&config, None),
        format!(
            "pulsesrc device=@DEFAULT_MONITOR@ ! audioconvert ! audioresample ! \
             audio/x-raw,rate=44100,channels=2,format=S16LE ! volume volume=2.0 ! \
             opusenc bitrate=64000 ! rtpopuspay pt=111 ! {AUDIO_TAP}"
        )
    );
    for (rate, bitrate) in [(0u32, 0u32), (1, 7), (4294967295, 4294967295)] {
        config.audio_sample_rate = rate;
        config.audio_bitrate = bitrate;
        let stage = factory.build_audio_pipeline_str(&config, None);
        assert!(stage.contains(&format!(" audio/x-raw,rate={rate},channels=2,format=S16LE ! ")));
        assert!(stage.contains(&format!(" opusenc bitrate={bitrate} ! ")));
    }
    let list = factory.get_pipeline_configurations(&config, &no_hardware(), None, None);
    assert!(list[0].description.contains(" threads=3 "));
}

#[test]
fn combined_description_joins_the_stages_with_one_space() {
    let factory = PipelineFactory::with_threads(1);
    assert_eq!(factory.build_combined_pipeline_str("video", ""), "video");
    assert_eq!(factory.build_combined_pipeline_str("video", "audio"), "video audio");
    assert_eq!(factory.build_combined_pipeline_str("", "audio"), " audio");
}

#[test]
fn video_stage_is_built_for_each_source_and_encoder() {
    let factory = PipelineFactory::with_threads(16);
    let stage = factory.build_video_pipeline_str(
        &VideoSource::Portal { node_id: 0 },
        EncoderPath::NvencMinimal,
    );
    assert_eq!(
        stage,
        format!(
            "pipewiresrc path=0 do-timestamp=true ! videoconvert ! video/x-raw,format=NV12 ! \
             nvh264enc bitrate=8000 ! h264parse ! rtph264pay pt=96 mtu=1200 ! {VIDEO_TAP}"
        )
    );
    let stage = factory.build_video_pipeline_str(
        &VideoSource::Camera { device: "0".to_string() },
        EncoderPath::Vaapi,
    );
    assert_eq!(
        stage,
        format!(
            "v4l2src device=/dev/video0 ! video/x-raw,width=1280,height=720,framerate=30/1 ! \
             videoconvert ! vaapipostproc ! 'video/x-raw(memory:VASurface)' ! \
             vaapivp8enc rate-control=cbr quality-level=5 bitrate=4000 ! \
             rtpvp8pay pt=96 mtu=1200 ! {VIDEO_TAP}"
        )
    );
    let stage = factory.build_video_pipeline_str(
        &VideoSource::Screen { number: -1 },
        EncoderPath::Software,
    );
    assert!(stage.contains(" screen-num=-1 "));
    assert!(stage.contains(" threads=16 "));
}

#[test]
fn factory_uses_the_processors_of_the_machine() {
    let factory = PipelineFactory::new();
    assert!(factory.threads >= 1);
    assert_eq!(factory.threads, num_cpus::get());
    let list = factory.get_pipeline_configurations(&request("test"), &no_hardware(), None, None);
    assert!(list[0].description.contains(&format!(" threads={} ", num_cpus::get())));
}

#[test]
fn hardware_capabilities_follow_the_probed_elements() {
    let probe = ElementProbe {
        nvh264enc: true,
        nvvidconv: false,
        vaapivp8enc: false,
        vaapih264enc: true,
        v4l2h264enc: true,
        render_node: false,
    };
    let info = detect_hardware_capabilities(&probe);
    assert!(!info.has_nvenc);
    assert!(info.has_nvh264enc_basic);
    assert!(info.has_vaapi);
    assert!(info.has_v4l2h264enc);
    assert!(!info.has_intel_gpu);
    let full = detect_hardware_capabilities(&ElementProbe {
        nvh264enc: true,
        nvvidconv: true,
        vaapivp8enc: false,
        vaapih264enc: false,
        v4l2h264enc: false,
        render_node: true,
    });
    assert!(full.has_nvenc && full.has_nvh264enc_basic && !full.has_vaapi && full.has_intel_gpu);
    let lone = detect_hardware_capabilities(&ElementProbe {
        nvh264enc: false,
        nvvidconv: true,
        vaapivp8enc: true,
        vaapih264enc: false,
        v4l2h264enc: false,
        render_node: false,
    });
    assert!(!lone.has_nvenc && !lone.has_nvh264enc_basic && lone.has_vaapi);
}
