//! The video sources that a viewer can choose from, read off what the display
//! system and the camera tools report.
use vstd::prelude::*;
use vstd::string::*;
use crate::config::MonitorInfo;
use crate::text::{
    Separator, chars_of, contains, contains_text, decimal, lines, lines_of, push_decimal,
    split, split_text, split_whitespace, split_whitespace_text, str_contains, str_eq, string_of,
    texts, trim, trim_text, lemma_split_nonempty,
};

verus! {

/// Whether `c` is numeric in the sense of Unicode: a decimal digit, a letter
/// number or another number.
pub uninterp spec fn char_is_numeric(c: char) -> bool;

/// `char::is_numeric` says whether the character has one of the Unicode
/// general categories for numbers.
#[verifier::external_body]
fn is_numeric(c: char) -> (yes: bool)
    ensures
        yes == char_is_numeric(c),
{
    c.is_numeric()
}

/// A video source as a mathematical value.
pub struct MonitorModel {
    pub id: Seq<char>,
    pub name: Seq<char>,
    pub primary: bool,
    pub resolution: Seq<char>,
    pub source_type: Seq<char>,
}

/// What a record of a video source holds.
pub open spec fn monitor_view(info: MonitorInfo) -> MonitorModel {
    MonitorModel {
        id: info.id@,
        name: info.name@,
        primary: info.primary,
        resolution: info.resolution@,
        source_type: info.source_type@,
    }
}

/// The sources that a list holds.
pub open spec fn monitors(list: Seq<MonitorInfo>) -> Seq<MonitorModel> {
    Seq::new(list.len(), |i: int| monitor_view(list[i]))
}

/// The portal surface as a source.
pub open spec fn portal_monitor() -> MonitorModel {
    MonitorModel {
        id: "wayland-portal"@,
        name: "Tela (via Portal)"@,
        primary: true,
        resolution: "Din\u{e2}mica"@,
        source_type: "screen"@,
    }
}

/// The source offered where nothing else was found.
pub open spec fn fallback_monitor() -> MonitorModel {
    MonitorModel {
        id: "fallback"@,
        name: "Tela Principal"@,
        primary: true,
        resolution: "1920x1080"@,
        source_type: "screen"@,
    }
}

/// The word has a numeric character in it.
pub open spec fn has_numeric(word: Seq<char>) -> bool {
    exists|i: int| 0 <= i < word.len() && char_is_numeric(#[trigger] word[i])
}

/// The word reads like a screen mode: it has an `x` and a number in it.
pub open spec fn looks_like_mode(word: Seq<char>) -> bool {
    contains(word, "x"@) && has_numeric(word)
}

/// The first of `words` that reads like a screen mode.
pub open spec fn first_mode(words: Seq<Seq<char>>) -> Option<Seq<char>>
    decreases words.len(),
{
    if words.len() == 0 {
        None
    } else if looks_like_mode(words[0]) {
        Some(words[0])
    } else {
        first_mode(words.drop_first())
    }
}

/// The resolution that the words of an output line give: the first word that
/// reads like a screen mode, up to its first `+`; `1920x1080` where no word
/// does.
pub open spec fn mode_resolution(words: Seq<Seq<char>>) -> Seq<char> {
    match first_mode(words) {
        Some(word) => split(word, Separator::Char('+'))[0],
        None => "1920x1080"@,
    }
}

/// The connected output on a line of the display listing: its name, whether it
/// is the primary one, and its resolution. A line names one where it holds
/// ` connected` and has three words or more.
pub open spec fn connected_output(line: Seq<char>) -> Option<(Seq<char>, bool, Seq<char>)> {
    let words = split_whitespace(line);
    if contains(line, " connected"@) && words.len() >= 3 {
        Some((words[0], contains(line, "primary"@), mode_resolution(words)))
    } else {
        None
    }
}

/// The screen with the running number `index` for a connected output.
pub open spec fn screen_monitor(index: nat, output: (Seq<char>, bool, Seq<char>)) -> MonitorModel {
    MonitorModel {
        id: "x11-"@ + decimal(index),
        name: output.0 + " (X11)"@,
        primary: output.1,
        resolution: output.2,
        source_type: "screen"@,
    }
}

/// The screens that the lines of a display listing name, numbered from zero in
/// their order.
pub open spec fn listed_screens(listing: Seq<Seq<char>>) -> Seq<MonitorModel>
    decreases listing.len(),
{
    if listing.len() == 0 {
        Seq::empty()
    } else {
        let before = listed_screens(listing.drop_last());
        match connected_output(listing.last()) {
            Some(output) => before.push(screen_monitor(before.len(), output)),
            None => before,
        }
    }
}

/// A camera that is present on the machine.
#[derive(Debug)]
pub struct CameraProbe {
    /// The number of the device node.
    pub index: u32,
    /// What the camera tool printed about it, where the tool could be run.
    pub info: Option<String>,
}

/// The first of `listing` that holds `Card type`.
pub open spec fn card_line(listing: Seq<Seq<char>>) -> Option<Seq<char>>
    decreases listing.len(),
{
    if listing.len() == 0 {
        None
    } else if contains(listing[0], "Card type"@) {
        Some(listing[0])
    } else {
        card_line(listing.drop_first())
    }
}

/// The name on a camera when nothing better is known.
pub open spec fn default_camera_name(index: u32) -> Seq<char> {
    "C\u{e2}mera "@ + decimal(index as nat)
}

/// The name of a camera: what stands between the first and the second colon
/// of the first line on its card type, without white space around it; the
/// default name where the tool printed no such thing.
pub open spec fn camera_name(index: u32, info: Option<String>) -> Seq<char> {
    match info {
        Some(text) => match card_line(lines(text@)) {
            Some(line) => {
                let parts = split(line, Separator::Char(':'));
                if parts.len() >= 2 {
                    trim(parts[1])
                } else {
                    default_camera_name(index)
                }
            },
            None => default_camera_name(index),
        },
        None => default_camera_name(index),
    }
}

/// A camera as a source.
pub open spec fn camera_monitor(probe: CameraProbe) -> MonitorModel {
    MonitorModel {
        id: "camera-"@ + decimal(probe.index as nat),
        name: camera_name(probe.index, probe.info),
        primary: probe.index == 0,
        resolution: "1280x720"@,
        source_type: "camera"@,
    }
}

/// The screens on offer: the portal surface in a Wayland session with a
/// portal, the screens of the display listing in an X11 session, none
/// otherwise.
pub open spec fn offered_screens(
    session_type: Seq<char>,
    has_portal: bool,
    display_listing: Option<&str>,
) -> Seq<MonitorModel> {
    if session_type == "wayland"@ && has_portal {
        seq![portal_monitor()]
    } else if session_type == "x11"@ {
        match display_listing {
            Some(text) => listed_screens(lines(text@)),
            None => Seq::empty(),
        }
    } else {
        Seq::empty()
    }
}

/// The sources on offer: the screens, then the cameras, and the fallback
/// source where there is neither.
pub open spec fn offered_monitors(
    session_type: Seq<char>,
    has_portal: bool,
    display_listing: Option<&str>,
    cameras: Seq<CameraProbe>,
) -> Seq<MonitorModel> {
    let found = offered_screens(session_type, has_portal, display_listing) + Seq::new(
        cameras.len(),
        |i: int| camera_monitor(cameras[i]),
    );
    if found.len() == 0 {
        seq![fallback_monitor()]
    } else {
        found
    }
}

fn word_has_numeric(word: &Vec<char>) -> (yes: bool)
    ensures
        yes == has_numeric(word@),
{
    let mut i: usize = 0;
    while i < word.len()
        invariant
            i <= word.len(),
            forall|k: int| 0 <= k < i ==> !char_is_numeric(#[trigger] word@[k]),
        decreases word.len() - i,
    {
        if is_numeric(word[i]) {
            return true;
        }
        i += 1;
    }
    false
}

fn resolution_of(words: &Vec<Vec<char>>) -> (resolution: String)
    ensures
        resolution@ == mode_resolution(texts(words@)),
{
    let x = chars_of("x");
    let mut i: usize = 0;
    assert(texts(words@).skip(0) =~= texts(words@));
    while i < words.len()
        invariant
            i <= words.len(),
            x@ == "x"@,
            first_mode(texts(words@)) == first_mode(texts(words@).skip(i as int)),
        decreases words.len() - i,
    {
        let ghost rest = texts(words@).skip(i as int);
        assert(rest[0] == words@[i as int]@);
        if contains_text(&words[i], &x) && word_has_numeric(&words[i]) {
            let parts = split_text(&words[i], Separator::Char('+'));
            proof {
                lemma_split_nonempty(words@[i as int]@, Separator::Char('+'));
                assert(texts(parts@)[0] == parts@[0]@);
            }
            return string_of(&parts[0]);
        }
        assert(rest.drop_first() =~= texts(words@).skip(i + 1));
        i += 1;
    }
    assert(texts(words@).skip(i as int).len() == 0);
    String::from_str("1920x1080")
}

fn push_monitor(list: &mut Vec<MonitorInfo>, info: MonitorInfo)
    ensures
        monitors(final(list)@) == monitors(old(list)@).push(monitor_view(info)),
        final(list)@.len() == old(list)@.len() + 1,
{
    list.push(info);
    assert(monitors(list@) =~= monitors(old(list)@).push(monitor_view(info)));
}

/// The screens that the display listing names.
fn read_screens(listing: &str) -> (list: Vec<MonitorInfo>)
    ensures
        monitors(list@) == listed_screens(lines(listing@)),
{
    let text = chars_of(listing);
    let all = lines_of(&text);
    let connected = chars_of(" connected");
    let primary = chars_of("primary");
    let mut list: Vec<MonitorInfo> = Vec::new();
    let mut i: usize = 0;
    assert(texts(all@).take(0) =~= Seq::<Seq<char>>::empty());
    assert(monitors(list@) =~= listed_screens(texts(all@).take(0)));
    while i < all.len()
        invariant
            i <= all.len(),
            texts(all@) == lines(listing@),
            connected@ == " connected"@,
            primary@ == "primary"@,
            list.len() <= i,
            monitors(list@) == listed_screens(texts(all@).take(i as int)),
        decreases all.len() - i,
    {
        let line = &all[i];
        proof {
            let next = texts(all@).take(i + 1);
            assert(next.drop_last() =~= texts(all@).take(i as int));
            assert(next.last() == line@);
        }
        if contains_text(line, &connected) {
            let words = split_whitespace_text(line);
            if words.len() >= 3 {
                assert(texts(words@)[0] == words@[0]@);
                let mut id = String::from_str("x11-");
                push_decimal(&mut id, list.len() as u64);
                let mut name = string_of(&words[0]);
                name.append(" (X11)");
                let info = MonitorInfo {
                    id,
                    name,
                    primary: contains_text(line, &primary),
                    resolution: resolution_of(&words),
                    source_type: String::from_str("screen"),
                };
                push_monitor(&mut list, info);
            }
        }
        i += 1;
    }
    assert(texts(all@).take(all.len() as int) =~= texts(all@));
    list
}

fn read_camera_name(index: u32, info: &Option<String>) -> (name: String)
    ensures
        name@ == camera_name(index, *info),
{
    let mut fallback = String::from_str("C\u{e2}mera ");
    push_decimal(&mut fallback, index as u64);
    match info {
        Some(text) => {
            let chars = chars_of(text.as_str());
            let all = lines_of(&chars);
            let mark = chars_of("Card type");
            let mut i: usize = 0;
            assert(texts(all@).skip(0) =~= texts(all@));
            while i < all.len()
                invariant
                    i <= all.len(),
                    mark@ == "Card type"@,
                    texts(all@) == lines(text@),
                    *info == Some(*text),
                    fallback@ == default_camera_name(index),
                    card_line(texts(all@)) == card_line(texts(all@).skip(i as int)),
                decreases all.len() - i,
            {
                let ghost rest = texts(all@).skip(i as int);
                assert(rest[0] == all@[i as int]@);
                if contains_text(&all[i], &mark) {
                    let parts = split_text(&all[i], Separator::Char(':'));
                    if parts.len() >= 2 {
                        assert(texts(parts@)[1] == parts@[1]@);
                        let trimmed = trim_text(&parts[1]);
                        return string_of(&trimmed);
                    } else {
                        return fallback;
                    }
                }
                assert(rest.drop_first() =~= texts(all@).skip(i + 1));
                i += 1;
            }
            assert(texts(all@).skip(i as int).len() == 0);
            fallback
        },
        None => fallback,
    }
}

/// The video sources on offer.
///
/// `display_listing` is what the display system lists of its outputs, where
/// it could be asked; it is read in an X11 session only. `cameras` are the
/// cameras that are present. Where neither a screen nor a camera is found, the
/// fallback source is offered, so the list is never empty.
pub fn detect_monitors(
    session_type: &str,
    has_portal: bool,
    display_listing: Option<&str>,
    cameras: &Vec<CameraProbe>,
) -> (list: Vec<MonitorInfo>)
    ensures
        monitors(list@) == offered_monitors(session_type@, has_portal, display_listing, cameras@),
        list@.len() >= 1,
{
    let mut list: Vec<MonitorInfo> = Vec::new();
    assert(monitors(list@) =~= Seq::<MonitorModel>::empty());
    if has_portal && str_eq(session_type, "wayland") {
        push_monitor(
            &mut list,
            MonitorInfo {
                id: String::from_str("wayland-portal"),
                name: String::from_str("Tela (via Portal)"),
                primary: true,
                resolution: String::from_str("Din\u{e2}mica"),
                source_type: String::from_str("screen"),
            },
        );
        assert(monitors(list@) =~= seq![portal_monitor()]);
    } else if str_eq(session_type, "x11") {
        match display_listing {
            Some(text) => {
                list = read_screens(text);
            },
            None => {},
        }
    }
    let ghost screens = monitors(list@);
    assert(screens == offered_screens(session_type@, has_portal, display_listing));
    let mut i: usize = 0;
    assert(monitors(list@) =~= screens + Seq::new(0nat, |k: int| camera_monitor(cameras@[k])));
    while i < cameras.len()
        invariant
            i <= cameras.len(),
            monitors(list@) == screens + Seq::new(i as nat, |k: int| camera_monitor(cameras@[k])),
        decreases cameras.len() - i,
    {
        let probe = &cameras[i];
        let mut id = String::from_str("camera-");
        push_decimal(&mut id, probe.index as u64);
        let info = MonitorInfo {
            id,
            name: read_camera_name(probe.index, &probe.info),
            primary: probe.index == 0,
            resolution: String::from_str("1280x720"),
            source_type: String::from_str("camera"),
        };
        push_monitor(&mut list, info);
        assert(monitors(list@) =~= screens + Seq::new(
            (i + 1) as nat,
            |k: int| camera_monitor(cameras@[k]),
        ));
        i += 1;
    }
    if list.len() == 0 {
        push_monitor(
            &mut list,
            MonitorInfo {
                id: String::from_str("fallback"),
                name: String::from_str("Tela Principal"),
                primary: true,
                resolution: String::from_str("1920x1080"),
                source_type: String::from_str("screen"),
            },
        );
        assert(monitors(list@) =~= seq![fallback_monitor()]);
    }
    list
}

/// Whether the capture broker for portal surfaces is at hand: the listing of
/// the services on the user's bus could be had and names the portal.
pub fn check_portal_availability(bus_listing: Option<&str>) -> (available: bool)
    ensures
        available == match bus_listing {
            Some(text) => contains(text@, "org.freedesktop.portal.Desktop"@),
            None => false,
        },
{
    match bus_listing {
        Some(text) => str_contains(text, "org.freedesktop.portal.Desktop"),
        None => false,
    }
}

} // verus!
