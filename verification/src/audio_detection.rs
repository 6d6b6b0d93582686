//! The audio inputs that a viewer can choose from, read off what the audio
//! subsystem lists.
use vstd::prelude::*;
use vstd::string::*;
use crate::config::AudioDeviceInfo;
use crate::text::{
    Separator, chars_of, contains, contains_text, lines, lines_of, split, split_text, str_eq,
    string_of, texts,
};

verus! {

/// An audio input.
#[derive(Debug)]
pub struct AudioDevice {
    pub name: String,
    pub description: String,
    /// `source`, `monitor` or `virtual`.
    pub device_type: String,
}

/// An audio input as a mathematical value.
pub struct AudioDeviceModel {
    pub name: Seq<char>,
    pub description: Seq<char>,
    pub device_type: Seq<char>,
}

impl View for AudioDevice {
    type V = AudioDeviceModel;

    open spec fn view(&self) -> AudioDeviceModel {
        AudioDeviceModel {
            name: self.name@,
            description: self.description@,
            device_type: self.device_type@,
        }
    }
}

impl Clone for AudioDevice {
    fn clone(&self) -> (copy: Self)
        ensures
            copy@ == self@,
    {
        AudioDevice {
            name: self.name.clone(),
            description: self.description.clone(),
            device_type: self.device_type.clone(),
        }
    }
}

/// The devices that a list holds.
pub open spec fn devices(list: Seq<AudioDevice>) -> Seq<AudioDeviceModel> {
    Seq::new(list.len(), |i: int| list[i]@)
}

/// What is known of the audio subsystem.
#[derive(Debug)]
pub struct AudioInfo {
    pub has_pulseaudio: bool,
    pub has_pipewire: bool,
    pub has_alsa: bool,
    /// The first microphone, where there is one.
    pub default_source: Option<String>,
    pub microphone_devices: Vec<AudioDevice>,
    pub monitor_devices: Vec<AudioDevice>,
}

/// The name under which the virtual endpoints are offered as an input.
pub open spec fn virtual_name() -> Seq<char> {
    "desktop_streamer_virtual"@
}

/// The virtual endpoints as an input.
pub open spec fn virtual_device() -> AudioDeviceModel {
    AudioDeviceModel {
        name: virtual_name(),
        description: "\u{1f50a} Desktop Streamer Virtual (Auto-capture system audio)"@,
        device_type: "virtual"@,
    }
}

/// The name and the description of the source on a line of the source
/// listing: its second and its fifth field, the fields parted by tabs. A line
/// without a second field names no source, and a source without a fifth field
/// goes as `Unknown`.
pub open spec fn listed_source(line: Seq<char>) -> Option<(Seq<char>, Seq<char>)> {
    let fields = split(line, Separator::Char('\t'));
    if fields.len() >= 2 {
        Some(
            (
                fields[1],
                if fields.len() > 4 {
                    fields[4]
                } else {
                    "Unknown"@
                },
            ),
        )
    } else {
        None
    }
}

/// The monitor source on a line of the source listing, if the line names one
/// that is not of the gateway's own making.
pub open spec fn listed_monitor(line: Seq<char>) -> Option<AudioDeviceModel> {
    match listed_source(line) {
        Some((name, description)) => if !contains(name, "desktop_streamer"@) && contains(
            name,
            ".monitor"@,
        ) {
            Some(
                AudioDeviceModel {
                    name,
                    description: "\u{1f3b5} Monitor: "@ + description,
                    device_type: "monitor"@,
                },
            )
        } else {
            None
        },
        None => None,
    }
}

/// The microphone on a line of the source listing, if the line names a source
/// that is neither a monitor nor of the gateway's own making.
pub open spec fn listed_microphone(line: Seq<char>) -> Option<AudioDeviceModel> {
    match listed_source(line) {
        Some((name, description)) => if !contains(name, "desktop_streamer"@) && !contains(
            name,
            ".monitor"@,
        ) {
            Some(
                AudioDeviceModel {
                    name,
                    description: "\u{1f3a4} "@ + description,
                    device_type: "source"@,
                },
            )
        } else {
            None
        },
        None => None,
    }
}

/// The monitor sources of a source listing, in its order.
pub open spec fn listed_monitors(listing: Seq<char>) -> Seq<AudioDeviceModel> {
    lines(listing).filter_map(|line: Seq<char>| listed_monitor(line))
}

/// The microphones of a source listing, in its order.
pub open spec fn listed_microphones(listing: Seq<char>) -> Seq<AudioDeviceModel> {
    lines(listing).filter_map(|line: Seq<char>| listed_microphone(line))
}

/// The text of an optional listing; nothing where there is none.
pub open spec fn listing_text(listing: Option<&str>) -> Seq<char> {
    match listing {
        Some(text) => text@,
        None => Seq::empty(),
    }
}

/// The source on a line of the source listing.
fn read_source(line: &Vec<char>) -> (source: Option<(Vec<char>, Vec<char>)>)
    ensures
        match source {
            Some((name, description)) => listed_source(line@) == Some((name@, description@)),
            None => listed_source(line@) is None,
        },
{
    let mut fields = split_text(line, Separator::Char('\t'));
    if fields.len() < 2 {
        return None;
    }
    let description = if fields.len() > 4 {
        let d = &fields[4];
        crate::text::slice_of(d, 0, d.len())
    } else {
        chars_of("Unknown")
    };
    proof {
        if fields.len() > 4 {
            assert(fields@[4]@.subrange(0, fields@[4]@.len() as int) =~= fields@[4]@);
            assert(texts(fields@)[4] == fields@[4]@);
        }
        assert(texts(fields@)[1] == fields@[1]@);
    }
    let name = fields.swap_remove(1);
    Some((name, description))
}

/// Reads the microphones and monitor sources off `listing`, the short listing
/// of the sources, and appends them to the two lists in its order. The first
/// microphone becomes the default source where there is none yet.
pub fn detect_pulseaudio_devices(
    listing: &str,
    microphone_devices: &mut Vec<AudioDevice>,
    monitor_devices: &mut Vec<AudioDevice>,
    default_source: &mut Option<String>,
)
    ensures
        devices(final(microphone_devices)@) == devices(old(microphone_devices)@)
            + listed_microphones(listing@),
        devices(final(monitor_devices)@) == devices(old(monitor_devices)@) + listed_monitors(
            listing@,
        ),
        crate::config::option_text(*final(default_source)) == (if *old(default_source) is None
            && listed_microphones(listing@).len() > 0 {
            Some(listed_microphones(listing@)[0].name)
        } else {
            crate::config::option_text(*old(default_source))
        }),
{
    let text = chars_of(listing);
    let all = lines_of(&text);
    let own_mark = chars_of("desktop_streamer");
    let monitor_mark = chars_of(".monitor");
    let ghost pick_mic = |line: Seq<char>| listed_microphone(line);
    let ghost pick_monitor = |line: Seq<char>| listed_monitor(line);
    let ghost mics_before = devices(microphone_devices@);
    let ghost monitors_before = devices(monitor_devices@);
    let mut i: usize = 0;
    proof {
        assert(texts(all@).take(0).filter_map(pick_mic) =~= Seq::<AudioDeviceModel>::empty());
        assert(texts(all@).take(0).filter_map(pick_monitor) =~= Seq::<
            AudioDeviceModel,
        >::empty());
        assert(devices(microphone_devices@) =~= mics_before + Seq::<AudioDeviceModel>::empty());
        assert(devices(monitor_devices@) =~= monitors_before + Seq::<AudioDeviceModel>::empty());
    }
    while i < all.len()
        invariant
            i <= all.len(),
            texts(all@) == lines(listing@),
            own_mark@ == "desktop_streamer"@,
            monitor_mark@ == ".monitor"@,
            pick_mic == (|line: Seq<char>| listed_microphone(line)),
            pick_monitor == (|line: Seq<char>| listed_monitor(line)),
            devices(microphone_devices@) == mics_before + texts(all@).take(i as int).filter_map(
                pick_mic,
            ),
            devices(monitor_devices@) == monitors_before + texts(all@).take(i as int).filter_map(
                pick_monitor,
            ),
            crate::config::option_text(*default_source) == (if *old(default_source) is None
                && texts(all@).take(i as int).filter_map(pick_mic).len() > 0 {
                Some(texts(all@).take(i as int).filter_map(pick_mic)[0].name)
            } else {
                crate::config::option_text(*old(default_source))
            }),
        decreases all.len() - i,
    {
        proof {
            texts(all@).lemma_filter_map_take_succ(pick_mic, i as int);
            texts(all@).lemma_filter_map_take_succ(pick_monitor, i as int);
        }
        let ghost mics_now = devices(microphone_devices@);
        let ghost monitors_now = devices(monitor_devices@);
        match read_source(&all[i]) {
            Some((name, description)) => {
                if !contains_text(&name, &own_mark) {
                    if contains_text(&name, &monitor_mark) {
                        let mut text = String::from_str("\u{1f3b5} Monitor: ");
                        let words = string_of(&description);
                        text.append(words.as_str());
                        let device = AudioDevice {
                            name: string_of(&name),
                            description: text,
                            device_type: String::from_str("monitor"),
                        };
                        monitor_devices.push(device);
                        assert(devices(monitor_devices@) =~= monitors_now.push(device@));
                    } else {
                        let mut text = String::from_str("\u{1f3a4} ");
                        let words = string_of(&description);
                        text.append(words.as_str());
                        let device = AudioDevice {
                            name: string_of(&name),
                            description: text,
                            device_type: String::from_str("source"),
                        };
                        if default_source.is_none() {
                            *default_source = Some(string_of(&name));
                        }
                        microphone_devices.push(device);
                        assert(devices(microphone_devices@) =~= mics_now.push(device@));
                    }
                }
            },
            None => {},
        }
        proof {
            assert(devices(microphone_devices@) =~= mics_before + texts(all@).take(
                i + 1,
            ).filter_map(pick_mic));
            assert(devices(monitor_devices@) =~= monitors_before + texts(all@).take(
                i + 1,
            ).filter_map(pick_monitor));
        }
        i += 1;
    }
    assert(texts(all@).take(all.len() as int) =~= texts(all@));
}

/// The virtual endpoints as an input.
fn virtual_input() -> (device: AudioDevice)
    ensures
        device@ == virtual_device(),
{
    AudioDevice {
        name: String::from_str("desktop_streamer_virtual"),
        description: String::from_str(
            "\u{1f50a} Desktop Streamer Virtual (Auto-capture system audio)",
        ),
        device_type: String::from_str("virtual"),
    }
}

/// What is known of the audio subsystem, from what was found on the machine:
/// whether the three audio systems answer, and `sources`, the short listing of
/// the sources, where it could be had. The virtual endpoints are always the
/// first monitor; the listing is read only where PulseAudio answers.
pub fn detect_audio_capabilities(
    has_pulseaudio: bool,
    has_pipewire: bool,
    has_alsa: bool,
    sources: Option<&str>,
) -> (info: AudioInfo)
    ensures
        info.has_pulseaudio == has_pulseaudio,
        info.has_pipewire == has_pipewire,
        info.has_alsa == has_alsa,
        ({
            let listing = if has_pulseaudio {
                listing_text(sources)
            } else {
                Seq::empty()
            };
            &&& devices(info.monitor_devices@) == seq![virtual_device()] + listed_monitors(listing)
            &&& devices(info.microphone_devices@) == listed_microphones(listing)
            &&& crate::config::option_text(info.default_source) == if listed_microphones(
                listing,
            ).len() > 0 {
                Some(listed_microphones(listing)[0].name)
            } else {
                None
            }
        }),
{
    let mut microphone_devices: Vec<AudioDevice> = Vec::new();
    let mut monitor_devices: Vec<AudioDevice> = Vec::new();
    let mut default_source: Option<String> = None;
    monitor_devices.push(virtual_input());
    assert(devices(monitor_devices@) =~= seq![virtual_device()]);
    assert(devices(microphone_devices@) =~= Seq::<AudioDeviceModel>::empty());
    let listing = match sources {
        Some(text) => if has_pulseaudio {
            text
        } else {
            ""
        },
        None => "",
    };
    proof {
        reveal_strlit("");
        assert(""@ =~= Seq::<char>::empty());
    }
    detect_pulseaudio_devices(
        listing,
        &mut microphone_devices,
        &mut monitor_devices,
        &mut default_source,
    );
    assert(devices(microphone_devices@) =~= listed_microphones(listing@));
    AudioInfo {
        has_pulseaudio,
        has_pipewire,
        has_alsa,
        default_source,
        microphone_devices,
        monitor_devices,
    }
}

/// The source `device_name` can be used: it is the virtual input, or a line of
/// the source listing holds its name.
pub open spec fn device_listed(device_name: Seq<char>, listing: Option<&str>) -> bool {
    device_name == virtual_name() || match listing {
        Some(text) => exists|i: int|
            0 <= i < lines(text@).len() && contains(#[trigger] lines(text@)[i], device_name),
        None => false,
    }
}

/// Whether the source `device_name` can be used. `sources` is the short
/// listing of the sources, where the listing succeeded.
pub fn is_device_available(device_name: &str, sources: Option<&str>) -> (available: bool)
    ensures
        available == device_listed(device_name@, sources),
{
    if str_eq(device_name, "desktop_streamer_virtual") {
        return true;
    }
    match sources {
        Some(text) => {
            let name = chars_of(device_name);
            let chars = chars_of(text);
            let all = lines_of(&chars);
            let mut i: usize = 0;
            while i < all.len()
                invariant
                    i <= all.len(),
                    name@ == device_name@,
                    sources == Some(text),
                    texts(all@) == lines(text@),
                    forall|k: int| 0 <= k < i ==> !contains(#[trigger] lines(text@)[k], name@),
                decreases all.len() - i,
            {
                if contains_text(&all[i], &name) {
                    assert(texts(all@)[i as int] == all@[i as int]@);
                    assert(lines(text@).len() == all@.len());
                    assert(contains(lines(text@)[i as int], device_name@));
                    assert(sources->0@ == text@);
                    assert(exists|k: int|
                        0 <= k < lines(text@).len() && contains(
                            #[trigger] lines(text@)[k],
                            device_name@,
                        ));
                    return true;
                }
                assert(texts(all@)[i as int] == all@[i as int]@);
                i += 1;
            }
            false
        },
        None => false,
    }
}

/// The first device of `list` that goes by `name`.
pub open spec fn first_named(list: Seq<AudioDeviceModel>, name: Seq<char>) -> Option<
    AudioDeviceModel,
>
    decreases list.len(),
{
    if list.len() == 0 {
        None
    } else if list[0].name == name {
        Some(list[0])
    } else {
        first_named(list.drop_first(), name)
    }
}

/// The device `device_name` among what is known of the audio subsystem: the
/// virtual input under its own name, else the first monitor of that name, else
/// the first microphone of that name.
pub open spec fn device_info(
    device_name: Seq<char>,
    monitors: Seq<AudioDeviceModel>,
    microphones: Seq<AudioDeviceModel>,
) -> Option<AudioDeviceModel> {
    if device_name == virtual_name() {
        Some(virtual_device())
    } else {
        match first_named(monitors, device_name) {
            Some(device) => Some(device),
            None => first_named(microphones, device_name),
        }
    }
}

/// The device that an optional device holds.
pub open spec fn option_device(device: Option<AudioDevice>) -> Option<AudioDeviceModel> {
    match device {
        Some(d) => Some(d@),
        None => None,
    }
}

fn find_named(list: &Vec<AudioDevice>, name: &str) -> (found: Option<AudioDevice>)
    ensures
        option_device(found) == first_named(devices(list@), name@),
{
    let mut i: usize = 0;
    assert(devices(list@).skip(0) =~= devices(list@));
    while i < list.len()
        invariant
            i <= list.len(),
            first_named(devices(list@), name@) == first_named(devices(list@).skip(i as int), name@),
        decreases list.len() - i,
    {
        let ghost rest = devices(list@).skip(i as int);
        assert(rest[0] == list@[i as int]@);
        if str_eq(list[i].name.as_str(), name) {
            return Some(list[i].clone());
        }
        assert(rest.drop_first() =~= devices(list@).skip(i + 1));
        i += 1;
    }
    assert(devices(list@).skip(i as int).len() == 0);
    None
}

/// The device `device_name` among what is known of the audio subsystem.
pub fn get_device_info(device_name: &str, audio_info: &AudioInfo) -> (device: Option<AudioDevice>)
    ensures
        option_device(device) == device_info(
            device_name@,
            devices(audio_info.monitor_devices@),
            devices(audio_info.microphone_devices@),
        ),
{
    if str_eq(device_name, "desktop_streamer_virtual") {
        return Some(virtual_input());
    }
    match find_named(&audio_info.monitor_devices, device_name) {
        Some(device) => Some(device),
        None => find_named(&audio_info.microphone_devices, device_name),
    }
}

/// The audio inputs on offer: the microphones, then the monitors.
pub fn detect_audio_devices(audio_info: AudioInfo) -> (list: Vec<AudioDevice>)
    ensures
        devices(list@) == devices(audio_info.microphone_devices@) + devices(
            audio_info.monitor_devices@,
        ),
{
    let mut list = audio_info.microphone_devices;
    let mut monitors = audio_info.monitor_devices;
    list.append(&mut monitors);
    assert(devices(list@) =~= devices(audio_info.microphone_devices@) + devices(
        audio_info.monitor_devices@,
    ));
    list
}

/// An audio input as the viewer is told of it.
pub struct AudioDeviceInfoModel {
    pub id: Seq<char>,
    pub name: Seq<char>,
    pub device_type: Seq<char>,
    pub description: Seq<char>,
}

/// What a viewer is told of an input.
pub open spec fn info_view(info: AudioDeviceInfo) -> AudioDeviceInfoModel {
    AudioDeviceInfoModel {
        id: info.id@,
        name: info.name@,
        device_type: info.device_type@,
        description: info.description@,
    }
}

/// The kind of an input in the viewer's words.
pub open spec fn viewer_kind(device_type: Seq<char>) -> Seq<char> {
    if device_type == "source"@ {
        "microphone"@
    } else if device_type == "monitor"@ {
        "system"@
    } else {
        "application"@
    }
}

/// What a viewer is told of the input `device`: its name as identifier and as
/// description, its description as display name, and its kind.
pub open spec fn offered(device: AudioDeviceModel) -> AudioDeviceInfoModel {
    AudioDeviceInfoModel {
        id: device.name,
        name: device.description,
        device_type: viewer_kind(device.device_type),
        description: device.name,
    }
}

/// What a viewer is told of the inputs `list`, in their order.
pub fn audio_device_infos(list: &Vec<AudioDevice>) -> (infos: Vec<AudioDeviceInfo>)
    ensures
        infos@.len() == list@.len(),
        forall|i: int| 0 <= i < list@.len() ==> info_view(#[trigger] infos@[i]) == offered(list@[i]@),
{
    let mut infos: Vec<AudioDeviceInfo> = Vec::new();
    let mut i: usize = 0;
    while i < list.len()
        invariant
            i <= list.len(),
            infos@.len() == i,
            forall|k: int| 0 <= k < i ==> info_view(#[trigger] infos@[k]) == offered(list@[k]@),
        decreases list.len() - i,
    {
        let device = &list[i];
        let kind = if str_eq(device.device_type.as_str(), "source") {
            String::from_str("microphone")
        } else if str_eq(device.device_type.as_str(), "monitor") {
            String::from_str("system")
        } else {
            String::from_str("application")
        };
        infos.push(
            AudioDeviceInfo {
                id: device.name.clone(),
                name: device.description.clone(),
                device_type: kind,
                description: device.name.clone(),
            },
        );
        i += 1;
    }
    infos
}

} // verus!
