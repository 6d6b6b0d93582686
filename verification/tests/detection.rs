use desktop_streamer::audio_detection::{
    audio_device_infos, detect_audio_capabilities, detect_audio_devices,
    detect_pulseaudio_devices, get_device_info, is_device_available, AudioDevice,
};
use desktop_streamer::monitors::{check_portal_availability, detect_monitors, CameraProbe};

const SOURCES: &str = "\
0\talsa_output.pci-0000_00_1f.3.analog-stereo.monitor\tmodule-alsa-card.c\ts16le 2ch 44100Hz\tSUSPENDED\n\
1\talsa_input.pci-0000_00_1f.3.analog-stereo\tmodule-alsa-card.c\ts16le 2ch 44100Hz\tRUNNING\n\
2\tdesktop_streamer_output.monitor\tmodule-null-sink.c\ts16le 2ch 48000Hz\tIDLE\n\
3\tusb_mic\tmodule-alsa-card.c\n\
lonely\n\
\n\
4\tbt.monitor\n";

fn triple(device: &AudioDevice) -> (&str, &str, &str) {
    (device.name.as_str(), device.description.as_str(), device.device_type.as_str())
}

#[test]
fn sources_are_sorted_into_microphones_and_monitors() {
    let info = detect_audio_capabilities(true, false, true, Some(SOURCES));
    assert!(info.has_pulseaudio && !info.has_pipewire && info.has_alsa);
    let monitors: Vec<_> = info.monitor_devices.iter().map(triple).collect();
    assert_eq!(
        monitors,
        vec![
            (
                "desktop_streamer_virtual",
                "🔊 Desktop Streamer Virtual (Auto-capture system audio)",
                "virtual"
            ),
            (
                "alsa_output.pci-0000_00_1f.3.analog-stereo.monitor",
                "🎵 Monitor: SUSPENDED",
                "monitor"
            ),
            ("bt.monitor", "🎵 Monitor: Unknown", "monitor"),
        ]
    );
    let microphones: Vec<_> = info.microphone_devices.iter().map(triple).collect();
    assert_eq!(
        microphones,
        vec![
            ("alsa_input.pci-0000_00_1f.3.analog-stereo", "🎤 RUNNING", "source"),
            ("usb_mic", "🎤 Unknown", "source"),
        ]
    );
    assert_eq!(
        info.default_source.as_deref(),
        Some("alsa_input.pci-0000_00_1f.3.analog-stereo")
    );
}

#[test]
fn listing_is_read_only_where_pulseaudio_answers() {
    for info in [
        detect_audio_capabilities(false, true, false, Some(SOURCES)),
        detect_audio_capabilities(true, true, false, None),
        detect_audio_capabilities(true, false, false, Some("")),
    ] {
        assert_eq!(info.monitor_devices.len(), 1);
        assert_eq!(info.monitor_devices[0].name, "desktop_streamer_virtual");
        assert!(info.microphone_devices.is_empty());
        assert_eq!(info.default_source, None);
    }
}

#[test]
fn listed_devices_are_appended_and_the_default_is_kept() {
    let mut microphones = vec![AudioDevice {
        name: "first".into(),
        description: "d".into(),
        device_type: "source".into(),
    }];
    let mut monitors = Vec::new();
    let mut default_source = Some("chosen".to_string());
    detect_pulseaudio_devices(SOURCES, &mut microphones, &mut monitors, &mut default_source);
    assert_eq!(microphones.len(), 3);
    assert_eq!(microphones[0].name, "first");
    assert_eq!(monitors.len(), 2);
    assert_eq!(default_source.as_deref(), Some("chosen"));
    let mut none = None;
    detect_pulseaudio_devices("0\ta.monitor\n", &mut microphones, &mut monitors, &mut none);
    assert_eq!(none, None);
    detect_pulseaudio_devices("0\tmic\n1\tmic2", &mut microphones, &mut monitors, &mut none);
    assert_eq!(none.as_deref(), Some("mic"));
}

#[test]
fn device_is_available_where_the_listing_holds_its_name() {
    assert!(is_device_available("desktop_streamer_virtual", None));
    assert!(is_device_available("usb_mic", Some(SOURCES)));
    assert!(is_device_available("analog-stereo", Some(SOURCES)));
    assert!(is_device_available("", Some(SOURCES)));
    assert!(!is_device_available("", Some("")));
    assert!(!is_device_available("usb_mic", None));
    assert!(!is_device_available("webcam", Some(SOURCES)));
    assert!(!is_device_available("usb_mic\tmodule-alsa-card.c\n", Some(SOURCES)));
}

#[test]
fn device_info_prefers_the_monitors() {
    let mut info = detect_audio_capabilities(true, false, false, Some(SOURCES));
    info.microphone_devices.push(AudioDevice {
        name: "bt.monitor".into(),
        description: "shadowed".into(),
        device_type: "source".into(),
    });
    info.microphone_devices.push(AudioDevice {
        name: "usb_mic".into(),
        description: "second".into(),
        device_type: "source".into(),
    });
    assert_eq!(
        get_device_info("desktop_streamer_virtual", &info).as_ref().map(triple),
        Some((
            "desktop_streamer_virtual",
            "🔊 Desktop Streamer Virtual (Auto-capture system audio)",
            "virtual"
        ))
    );
    assert_eq!(
        get_device_info("bt.monitor", &info).as_ref().map(triple),
        Some(("bt.monitor", "🎵 Monitor: Unknown", "monitor"))
    );
    assert_eq!(
        get_device_info("usb_mic", &info).as_ref().map(triple),
        Some(("usb_mic", "🎤 Unknown", "source"))
    );
    assert!(get_device_info("usb", &info).is_none());
    assert!(get_device_info("", &info).is_none());
}

#[test]
fn offered_devices_are_microphones_then_monitors() {
    let info = detect_audio_capabilities(true, false, false, Some(SOURCES));
    let list = detect_audio_devices(info);
    let names: Vec<&str> = list.iter().map(|d| d.name.as_str()).collect();
    assert_eq!(
        names,
        vec![
            "alsa_input.pci-0000_00_1f.3.analog-stereo",
            "usb_mic",
            "desktop_streamer_virtual",
            "alsa_output.pci-0000_00_1f.3.analog-stereo.monitor",
            "bt.monitor",
        ]
    );
    let infos = audio_device_infos(&list);
    assert_eq!(infos.len(), 5);
    assert_eq!(infos[1].id, "usb_mic");
    assert_eq!(infos[1].name, "🎤 Unknown");
    assert_eq!(infos[1].device_type, "microphone");
    assert_eq!(infos[1].description, "usb_mic");
    assert_eq!(infos[2].device_type, "application");
    assert_eq!(infos[3].device_type, "system");
    assert_eq!(infos[3].name, "🎵 Monitor: SUSPENDED");
}

const XRANDR: &str = "\
Screen 0: minimum 320 x 200, current 4480 x 1440, maximum 16384 x 16384\n\
eDP-1 connected primary 1920x1080+0+0 (normal left inverted right x axis y axis) 344mm x 194mm\n\
   1920x1080     60.01*+  59.97\n\
HDMI-1 disconnected (normal left inverted right x axis y axis)\n\
DP-1 connected 2560x1440+1920+0 (normal left inverted right x axis y axis) 597mm x 336mm\n\
DP-2 connected (normal)\n\
DP-3 connected\n\
VGA-1 connected off now\n";

fn tuple(info: &desktop_streamer::config::MonitorInfo) -> (&str, &str, bool, &str, &str) {
    (
        info.id.as_str(),
        info.name.as_str(),
        info.primary,
        info.resolution.as_str(),
        info.source_type.as_str(),
    )
}

#[test]
fn screens_are_read_off_the_display_listing() {
    let list = detect_monitors("x11", false, Some(XRANDR), &Vec::new());
    let found: Vec<_> = list.iter().map(tuple).collect();
    assert_eq!(
        found,
        vec![
            ("x11-0", "eDP-1 (X11)", true, "1920x1080", "screen"),
            ("x11-1", "DP-1 (X11)", false, "2560x1440", "screen"),
            ("x11-2", "DP-2 (X11)", false, "1920x1080", "screen"),
            ("x11-3", "VGA-1 (X11)", false, "1920x1080", "screen"),
        ]
    );
}

#[test]
fn resolution_is_the_first_word_with_an_x_and_a_number() {
    let one = |line: &str| {
        let list = detect_monitors("x11", false, Some(line), &Vec::new());
        list[0].resolution.clone()
    };
    assert_eq!(one("A connected 800x600"), "800x600");
    assert_eq!(one("A connected x1 800x600+0"), "x1");
    assert_eq!(one("Ax1 connected 800x600+1+2"), "Ax1");
    assert_eq!(one("A connected +800x600+5"), "");
    assert_eq!(one("A connected x ٣x"), "٣x");
    assert_eq!(one("A connected ①x2"), "①x2");
    assert_eq!(one("A connected X800 x"), "1920x1080");
}

#[test]
fn portal_session_offers_the_portal_surface() {
    let cameras = vec![
        CameraProbe { index: 0, info: Some("Driver Info:\n\tCard type      : Integrated Camera: HD \n".into()) },
        CameraProbe { index: 2, info: None },
        CameraProbe { index: 3, info: Some("Card type without colon\nCard type: later".into()) },
        CameraProbe { index: 4, info: Some("nothing here".into()) },
    ];
    let list = detect_monitors("wayland", true, Some(XRANDR), &cameras);
    let found: Vec<_> = list.iter().map(tuple).collect();
    assert_eq!(
        found,
        vec![
            ("wayland-portal", "Tela (via Portal)", true, "Dinâmica", "screen"),
            ("camera-0", "Integrated Camera", true, "1280x720", "camera"),
            ("camera-2", "Câmera 2", false, "1280x720", "camera"),
            ("camera-3", "Câmera 3", false, "1280x720", "camera"),
            ("camera-4", "Câmera 4", false, "1280x720", "camera"),
        ]
    );
}

#[test]
fn fallback_is_offered_where_nothing_is_found() {
    for list in [
        detect_monitors("wayland", false, Some(XRANDR), &Vec::new()),
        detect_monitors("x11", false, None, &Vec::new()),
        detect_monitors("x11", true, Some("HDMI-1 disconnected (normal)\nDP-3 connected\n"), &Vec::new()),
        detect_monitors("tty", true, Some(XRANDR), &Vec::new()),
    ] {
        let found: Vec<_> = list.iter().map(tuple).collect();
        assert_eq!(found, vec![("fallback", "Tela Principal", true, "1920x1080", "screen")]);
    }
    let list = detect_monitors("tty", false, None, &vec![CameraProbe { index: 1, info: None }]);
    assert_eq!(list.len(), 1);
    assert_eq!(list[0].id, "camera-1");
    assert!(!list[0].primary);
}

#[test]
fn portal_is_at_hand_where_the_bus_names_it() {
    assert!(check_portal_availability(Some(
        ":1.42 1234 xdg-desktop-por user :1.42 - -\norg.freedesktop.portal.Desktop 1234\n"
    )));
    assert!(!check_portal_availability(Some("org.freedesktop.portal.Documents")));
    assert!(!check_portal_availability(Some("")));
    assert!(!check_portal_availability(None));
}
