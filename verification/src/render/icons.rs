//! The built-in button icons: which icon a settings name selects, and the
//! SVG text of each icon in its active and deactivated form.
use vstd::prelude::*;
use crate::text::str_eq;

verus! {

broadcast use vstd::string::group_string_axioms;

/// One of the built-in icons.
#[derive(Clone, Copy, Debug, PartialEq, Eq, Structural)]
pub enum Icon {
    Mic,
    Headset,
    Headphones,
    Stereo,
    Jack,
    Dac,
    Apps,
    Discord,
    Obs,
    Twitch,
    Speaker,
    Mixer,
    Plus,
    Minus,
    ChevronUp,
    ChevronDown,
    VolumeUp,
    VolumeDown,
}

/// How many built-in icons there are.
pub const ICON_COUNT: usize = 18;

/// The icon a settings name selects; an unknown name selects the microphone.
pub open spec fn icon_for_name(name: Seq<char>) -> Icon {
    if name == "mic"@ {
        Icon::Mic
    } else if name == "headset"@ {
        Icon::Headset
    } else if name == "headphones"@ {
        Icon::Headphones
    } else if name == "stereo"@ {
        Icon::Stereo
    } else if name == "jack"@ {
        Icon::Jack
    } else if name == "dac"@ {
        Icon::Dac
    } else if name == "apps"@ {
        Icon::Apps
    } else if name == "discord"@ {
        Icon::Discord
    } else if name == "obs"@ {
        Icon::Obs
    } else if name == "twitch"@ {
        Icon::Twitch
    } else if name == "speaker"@ {
        Icon::Speaker
    } else if name == "mixer"@ {
        Icon::Mixer
    } else if name == "plus"@ {
        Icon::Plus
    } else if name == "minus"@ {
        Icon::Minus
    } else if name == "chevron_up"@ {
        Icon::ChevronUp
    } else if name == "chevron_down"@ {
        Icon::ChevronDown
    } else if name == "volume_up"@ {
        Icon::VolumeUp
    } else if name == "volume_down"@ {
        Icon::VolumeDown
    } else {
        Icon::Mic
    }
}

/// The position of an icon in the list of built-in icons.
pub open spec fn icon_index(icon: Icon) -> int {
    match icon {
        Icon::Mic => 0,
        Icon::Headset => 1,
        Icon::Headphones => 2,
        Icon::Stereo => 3,
        Icon::Jack => 4,
        Icon::Dac => 5,
        Icon::Apps => 6,
        Icon::Discord => 7,
        Icon::Obs => 8,
        Icon::Twitch => 9,
        Icon::Speaker => 10,
        Icon::Mixer => 11,
        Icon::Plus => 12,
        Icon::Minus => 13,
        Icon::ChevronUp => 14,
        Icon::ChevronDown => 15,
        Icon::VolumeUp => 16,
        Icon::VolumeDown => 17,
    }
}

/// The icon named `name` (an unknown name gives the microphone).
pub fn icon_from_name(name: &str) -> (r: Icon)
    ensures
        r == icon_for_name(name@),
{
    if str_eq(name, "mic") {
        Icon::Mic
    } else if str_eq(name, "headset") {
        Icon::Headset
    } else if str_eq(name, "headphones") {
        Icon::Headphones
    } else if str_eq(name, "stereo") {
        Icon::Stereo
    } else if str_eq(name, "jack") {
        Icon::Jack
    } else if str_eq(name, "dac") {
        Icon::Dac
    } else if str_eq(name, "apps") {
        Icon::Apps
    } else if str_eq(name, "discord") {
        Icon::Discord
    } else if str_eq(name, "obs") {
        Icon::Obs
    } else if str_eq(name, "twitch") {
        Icon::Twitch
    } else if str_eq(name, "speaker") {
        Icon::Speaker
    } else if str_eq(name, "mixer") {
        Icon::Mixer
    } else if str_eq(name, "plus") {
        Icon::Plus
    } else if str_eq(name, "minus") {
        Icon::Minus
    } else if str_eq(name, "chevron_up") {
        Icon::ChevronUp
    } else if str_eq(name, "chevron_down") {
        Icon::ChevronDown
    } else if str_eq(name, "volume_up") {
        Icon::VolumeUp
    } else if str_eq(name, "volume_down") {
        Icon::VolumeDown
    } else {
        Icon::Mic
    }
}

impl Icon {
    /// The position of this icon in the list of built-in icons.
    pub fn index(&self) -> (r: usize)
        ensures
            r == icon_index(*self),
            r < ICON_COUNT,
    {
        match self {
            Icon::Mic => 0,
            Icon::Headset => 1,
            Icon::Headphones => 2,
            Icon::Stereo => 3,
            Icon::Jack => 4,
            Icon::Dac => 5,
            Icon::Apps => 6,
            Icon::Discord => 7,
            Icon::Obs => 8,
            Icon::Twitch => 9,
            Icon::Speaker => 10,
            Icon::Mixer => 11,
            Icon::Plus => 12,
            Icon::Minus => 13,
            Icon::ChevronUp => 14,
            Icon::ChevronDown => 15,
            Icon::VolumeUp => 16,
            Icon::VolumeDown => 17,
        }
    }

    /// The settings name of this icon, which is also the stem of its
    /// asset file.
    pub fn name(&self) -> (r: &'static str)
        ensures
            r@ == icon_name(*self),
    {
        match self {
            Icon::Mic => "mic",
            Icon::Headset => "headset",
            Icon::Headphones => "headphones",
            Icon::Stereo => "stereo",
            Icon::Jack => "jack",
            Icon::Dac => "dac",
            Icon::Apps => "apps",
            Icon::Discord => "discord",
            Icon::Obs => "obs",
            Icon::Twitch => "twitch",
            Icon::Speaker => "speaker",
            Icon::Mixer => "mixer",
            Icon::Plus => "plus",
            Icon::Minus => "minus",
            Icon::ChevronUp => "chevron_up",
            Icon::ChevronDown => "chevron_down",
            Icon::VolumeUp => "volume_up",
            Icon::VolumeDown => "volume_down",
        }
    }
}

/// The settings name of an icon.
pub open spec fn icon_name(icon: Icon) -> Seq<char> {
    match icon {
        Icon::Mic => "mic"@,
        Icon::Headset => "headset"@,
        Icon::Headphones => "headphones"@,
        Icon::Stereo => "stereo"@,
        Icon::Jack => "jack"@,
        Icon::Dac => "dac"@,
        Icon::Apps => "apps"@,
        Icon::Discord => "discord"@,
        Icon::Obs => "obs"@,
        Icon::Twitch => "twitch"@,
        Icon::Speaker => "speaker"@,
        Icon::Mixer => "mixer"@,
        Icon::Plus => "plus"@,
        Icon::Minus => "minus"@,
        Icon::ChevronUp => "chevron_up"@,
        Icon::ChevronDown => "chevron_down"@,
        Icon::VolumeUp => "volume_up"@,
        Icon::VolumeDown => "volume_down"@,
    }
}

/// Each built-in icon is selected by its own name.
pub proof fn lemma_icon_name_selects_icon(icon: Icon)
    ensures
        icon_for_name(icon_name(icon)) == icon,
{
    reveal_strlit("mic");
    assert("mic"@.len() == 3 && "mic"@[0] == 'm' && "mic"@[2] == 'c');
    reveal_strlit("headset");
    assert("headset"@.len() == 7 && "headset"@[0] == 'h' && "headset"@[2] == 'a');
    reveal_strlit("headphones");
    assert("headphones"@.len() == 10 && "headphones"@[0] == 'h' && "headphones"@[2] == 'a');
    reveal_strlit("stereo");
    assert("stereo"@.len() == 6 && "stereo"@[0] == 's' && "stereo"@[2] == 'e');
    reveal_strlit("jack");
    assert("jack"@.len() == 4 && "jack"@[0] == 'j' && "jack"@[2] == 'c');
    reveal_strlit("dac");
    assert("dac"@.len() == 3 && "dac"@[0] == 'd' && "dac"@[2] == 'c');
    reveal_strlit("apps");
    assert("apps"@.len() == 4 && "apps"@[0] == 'a' && "apps"@[2] == 'p');
    reveal_strlit("discord");
    assert("discord"@.len() == 7 && "discord"@[0] == 'd' && "discord"@[2] == 's');
    reveal_strlit("obs");
    assert("obs"@.len() == 3 && "obs"@[0] == 'o' && "obs"@[2] == 's');
    reveal_strlit("twitch");
    assert("twitch"@.len() == 6 && "twitch"@[0] == 't' && "twitch"@[2] == 'i');
    reveal_strlit("speaker");
    assert("speaker"@.len() == 7 && "speaker"@[0] == 's' && "speaker"@[2] == 'e');
    reveal_strlit("mixer");
    assert("mixer"@.len() == 5 && "mixer"@[0] == 'm' && "mixer"@[2] == 'x');
    reveal_strlit("plus");
    assert("plus"@.len() == 4 && "plus"@[0] == 'p' && "plus"@[2] == 'u');
    reveal_strlit("minus");
    assert("minus"@.len() == 5 && "minus"@[0] == 'm' && "minus"@[2] == 'n');
    reveal_strlit("chevron_up");
    assert("chevron_up"@.len() == 10 && "chevron_up"@[0] == 'c' && "chevron_up"@[2] == 'e');
    reveal_strlit("chevron_down");
    assert("chevron_down"@.len() == 12 && "chevron_down"@[0] == 'c' && "chevron_down"@[2] == 'e');
    reveal_strlit("volume_up");
    assert("volume_up"@.len() == 9 && "volume_up"@[0] == 'v' && "volume_up"@[2] == 'l');
    reveal_strlit("volume_down");
    assert("volume_down"@.len() == 11 && "volume_down"@[0] == 'v' && "volume_down"@[2] == 'l');
}

/// The built-in icons offered in the settings: name and label, in the
/// order of `Icon::index`.
pub fn available() -> (r: Vec<(&'static str, &'static str)>)
    ensures
        r@.len() == ICON_COUNT,
        forall|i: int| 0 <= i < ICON_COUNT ==> icon_for_name(#[trigger] r@[i].0@) == icon_at(i),
{
    let r = vec![
        ("mic", "Mikrofon"),
        ("headset", "Headset"),
        ("headphones", "Kopfhörer"),
        ("stereo", "Anlage"),
        ("jack", "3.5mm Jack"),
        ("dac", "Externes DAC"),
        ("apps", "Anwendungen"),
        ("discord", "Discord"),
        ("obs", "OBS"),
        ("twitch", "Twitch"),
        ("speaker", "Lautsprecher"),
        ("mixer", "Mixer"),
        ("plus", "Plus"),
        ("minus", "Minus"),
        ("chevron_up", "Chevron Up"),
        ("chevron_down", "Chevron Down"),
        ("volume_up", "Volume Up"),
        ("volume_down", "Volume Down"),
    ];
    proof {
        assert forall|i: int| 0 <= i < ICON_COUNT implies icon_for_name(#[trigger] r@[i].0@) == icon_at(i) by {
            lemma_icon_name_selects_icon(icon_at(i));
            assert(r@[i].0@ == icon_name(icon_at(i)));
        }
    }
    r
}

/// The icon at position `i` of the list of built-in icons.
pub open spec fn icon_at(i: int) -> Icon {
    if i == 0 {
        Icon::Mic
    } else if i == 1 {
        Icon::Headset
    } else if i == 2 {
        Icon::Headphones
    } else if i == 3 {
        Icon::Stereo
    } else if i == 4 {
        Icon::Jack
    } else if i == 5 {
        Icon::Dac
    } else if i == 6 {
        Icon::Apps
    } else if i == 7 {
        Icon::Discord
    } else if i == 8 {
        Icon::Obs
    } else if i == 9 {
        Icon::Twitch
    } else if i == 10 {
        Icon::Speaker
    } else if i == 11 {
        Icon::Mixer
    } else if i == 12 {
        Icon::Plus
    } else if i == 13 {
        Icon::Minus
    } else if i == 14 {
        Icon::ChevronUp
    } else if i == 15 {
        Icon::ChevronDown
    } else if i == 16 {
        Icon::VolumeUp
    } else {
        Icon::VolumeDown
    }
}

/// An icon in one of its two forms: active (device live) or deactivated
/// (device muted).
#[derive(Clone, Copy, Debug, PartialEq, Eq, Structural)]
pub struct IconData {
    pub icon: Icon,
    pub active: bool,
}

/// The active form of the icon named `name`.
pub fn get_active(name: &str) -> (r: IconData)
    ensures
        r == (IconData { icon: icon_for_name(name@), active: true }),
{
    IconData { icon: icon_from_name(name), active: true }
}

/// The deactivated form of the icon named `name`.
pub fn get_deactivated(name: &str) -> (r: IconData)
    ensures
        r == (IconData { icon: icon_for_name(name@), active: false }),
{
    IconData { icon: icon_from_name(name), active: false }
}

/// The icon named `name`, active or deactivated.
pub fn get(name: &str, active: bool) -> (r: IconData)
    ensures
        r == (IconData { icon: icon_for_name(name@), active: active }),
{
    if active {
        get_active(name)
    } else {
        get_deactivated(name)
    }
}

/// The SVG text of every built-in icon, in both forms.
pub struct IconSet {
    active: Vec<String>,
    deactivated: Vec<String>,
}

impl IconSet {
    #[verifier::type_invariant]
    spec fn complete(self) -> bool {
        self.active@.len() == ICON_COUNT && self.deactivated@.len() == ICON_COUNT
    }

    /// The SVG text of `d`.
    pub closed spec fn svg_of(self, d: IconData) -> Seq<char> {
        if d.active {
            self.active@[icon_index(d.icon)]@
        } else {
            self.deactivated@[icon_index(d.icon)]@
        }
    }

    /// Builds the set from the SVG texts of the icons in the order of
    /// `Icon::index`, active forms first; `None` unless each list holds one
    /// text per icon.
    pub fn new(active: Vec<String>, deactivated: Vec<String>) -> (r: Option<IconSet>)
        ensures
            r is Some <==> (active@.len() == ICON_COUNT && deactivated@.len() == ICON_COUNT),
            r matches Some(set) ==> forall|i: Icon| {
                &&& #[trigger] set.svg_of(IconData { icon: i, active: true }) == active@[icon_index(i)]@
                &&& set.svg_of(IconData { icon: i, active: false }) == deactivated@[icon_index(i)]@
            },
    {
        if active.len() == ICON_COUNT && deactivated.len() == ICON_COUNT {
            Some(IconSet { active, deactivated })
        } else {
            None
        }
    }

    /// The SVG text of `d`.
    pub fn svg(&self, d: IconData) -> (r: &str)
        ensures
            r@ == self.svg_of(d),
    {
        proof {
            use_type_invariant(self);
        }
        let i = d.icon.index();
        if d.active {
            self.active[i].as_str()
        } else {
            self.deactivated[i].as_str()
        }
    }
}

} // verus!
