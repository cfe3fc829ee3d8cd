//! The volume display: a key that only shows the volume of a device as a
//! bar and a percentage, titled with its own title or the device name.
use vstd::prelude::*;
use crate::actions::{lemma_shown_colors, shown_color, state_color, title_opts};
use crate::render::{
    TitleView, color_ok, data_uri, lemma_volume_bar_shows_title, normalized_color,
    volume_bar_spec, volume_bar, svg_to_data_uri,
};
use crate::render::icons::{IconSet, IconData, icon_for_name};
use crate::text::{contains, str_eq, string_of};

verus! {

broadcast use vstd::string::group_string_axioms;

/// The settings of a volume display.
#[derive(Clone, Debug)]
pub struct VolumeDisplaySettings {
    pub device_id: String,
    pub icon: String,
    pub bg_color: String,
    pub bg_muted_color: String,
    pub icon_color: String,
    pub icon_muted_color: String,
    pub bar_color: String,
    pub react_to_state: bool,
    pub title: String,
    pub title_enabled: bool,
    pub title_color: String,
    pub title_size: u32,
    pub title_max_lines: u32,
    pub title_max_chars: u32,
}

impl Default for VolumeDisplaySettings {
    /// The default source, a microphone icon and a bar, green when live and
    /// red when muted, titled with the device name in up to two lines of 16
    /// characters.
    fn default() -> (r: Self)
        ensures
            r.device_id@ == "@DEFAULT_AUDIO_SOURCE@"@,
            r.icon@ == "mic"@,
            r.bg_color@ == "#000000"@,
            r.bg_muted_color@ == "#000000"@,
            r.icon_color@ == "#22c55e"@,
            r.icon_muted_color@ == "#ef4444"@,
            r.bar_color@ == "#22c55e"@,
            r.react_to_state,
            r.title@ == Seq::<char>::empty(),
            r.title_enabled,
            r.title_color@ == "#ffffff"@,
            r.title_size == 14,
            r.title_max_lines == 2,
            r.title_max_chars == 16,
    {
        VolumeDisplaySettings {
            device_id: string_of("@DEFAULT_AUDIO_SOURCE@"),
            icon: string_of("mic"),
            bg_color: string_of("#000000"),
            bg_muted_color: string_of("#000000"),
            icon_color: string_of("#22c55e"),
            icon_muted_color: string_of("#ef4444"),
            bar_color: string_of("#22c55e"),
            react_to_state: true,
            title: String::new(),
            title_enabled: true,
            title_color: string_of("#ffffff"),
            title_size: 14,
            title_max_lines: 2,
            title_max_chars: 16,
        }
    }
}

/// Whether the title shown is the device name, which then has to be
/// looked up: the title is on and the display has none of its own.
pub fn needs_device_name(s: &VolumeDisplaySettings) -> (r: bool)
    ensures
        r == (s.title_enabled && s.title@.len() == 0),
{
    s.title_enabled && s.title.as_str().is_empty()
}

/// The title shown: nothing when the title is off, the device name when
/// the display has no title of its own, else its title.
pub open spec fn display_title_spec(s: VolumeDisplaySettings, device_name: Seq<char>) -> Seq<char> {
    if !s.title_enabled {
        Seq::empty()
    } else if s.title@.len() == 0 {
        device_name
    } else {
        s.title@
    }
}

/// The title shown, given the name of the device (used only when the
/// title is the device name).
pub fn display_title(s: &VolumeDisplaySettings, device_name: &str) -> (r: String)
    ensures
        r@ == display_title_spec(*s, device_name@),
{
    if !s.title_enabled {
        String::new()
    } else if s.title.as_str().is_empty() {
        string_of(device_name)
    } else {
        s.title.clone()
    }
}

/// The colours of a volume display can be drawn: they are only parsed when
/// the display follows the device state.
pub open spec fn colors_drawable(s: VolumeDisplaySettings) -> bool {
    s.react_to_state ==> {
        &&& color_ok(s.bg_muted_color@)
        &&& color_ok(s.bg_color@)
        &&& color_ok(s.icon_muted_color@)
        &&& color_ok(s.icon_color@)
        &&& color_ok(s.bar_color@)
    }
}

/// The SVG of a volume display for a device at `volume` millionths: a
/// volume bar under the display title, drawn in the title colour and size
/// at the label position. Following the device state, the bar blends from
/// the muted icon colour to the bar colour.
pub open spec fn image_svg(
    icons: IconSet,
    s: VolumeDisplaySettings,
    volume: int,
    muted: bool,
    device_name: Seq<char>,
) -> Seq<char> {
    let react = s.react_to_state;
    volume_bar_spec(
        icons.svg_of(IconData { icon: icon_for_name(s.icon@), active: !muted }),
        shown_color(react, volume as int, muted, s.bg_muted_color@, s.bg_color@),
        shown_color(react, volume as int, muted, s.icon_muted_color@, s.icon_color@),
        shown_color(react, volume as int, muted, s.icon_muted_color@, s.bar_color@),
        volume,
        muted,
        TitleView {
            text: display_title_spec(s, device_name),
            color: s.title_color@,
            size: s.title_size as nat,
            position: "label"@,
        },
    )
}

/// The image (a data URI) a volume display shows.
pub fn display_image(
    icons: &IconSet,
    s: &VolumeDisplaySettings,
    volume: i64,
    muted: bool,
    device_name: &str,
) -> (r: String)
    requires
        colors_drawable(*s),
    ensures
        r@ == data_uri(image_svg(*icons, *s, volume as int, muted, device_name@)),
{
    let react = s.react_to_state;
    let bg = state_color(react, volume, muted, s.bg_muted_color.as_str(), s.bg_color.as_str());
    let ic = state_color(react, volume, muted, s.icon_muted_color.as_str(), s.icon_color.as_str());
    let bar = state_color(react, volume, muted, s.icon_muted_color.as_str(), s.bar_color.as_str());
    let shown = display_title(s, device_name);
    let title = title_opts(
        shown.as_str(),
        s.title_color.as_str(),
        s.title_size,
        "label",
        s.title_max_lines,
        s.title_max_chars,
    );
    let svg = volume_bar(
        icons,
        bg.as_str(),
        ic.as_str(),
        bar.as_str(),
        s.icon.as_str(),
        volume,
        muted,
        &title,
    );
    svg_to_data_uri(svg.as_str())
}

/// A volume display is redrawn when the state of its device changes.
pub fn watches(s: &VolumeDisplaySettings, device_id: &str) -> (r: bool)
    ensures
        r == (s.device_id@ == device_id@),
{
    str_eq(s.device_id.as_str(), device_id)
}


/// What a volume display draws: the icon (deactivated while muted), the
/// volume and its bar, under its title. Following the device state,
/// background and icon are in the muted colours and the bar in the muted
/// icon colour whenever the device is muted, whatever the volume; live at
/// full volume or above they are in the active colours and the bar in the
/// bar colour; not following it, all as set. The title, in the title
/// colour and size, is the display's own title when it has one, else the
/// device name, and nothing when the title is off.
pub proof fn lemma_display_image(
    icons: IconSet,
    s: VolumeDisplaySettings,
    volume: int,
    muted: bool,
    device_name: Seq<char>,
)
    ensures
        s.react_to_state ==> image_svg(icons, s, volume, true, device_name) == volume_bar_spec(
            icons.svg_of(IconData { icon: icon_for_name(s.icon@), active: false }),
            normalized_color(s.bg_muted_color@),
            normalized_color(s.icon_muted_color@),
            normalized_color(s.icon_muted_color@),
            volume,
            true,
            TitleView {
                text: display_title_spec(s, device_name),
                color: s.title_color@,
                size: s.title_size as nat,
                position: "label"@,
            },
        ),
        s.react_to_state && volume >= 1000000 ==> image_svg(icons, s, volume, false, device_name)
            == volume_bar_spec(
            icons.svg_of(IconData { icon: icon_for_name(s.icon@), active: true }),
            normalized_color(s.bg_color@),
            normalized_color(s.icon_color@),
            normalized_color(s.bar_color@),
            volume,
            false,
            TitleView {
                text: display_title_spec(s, device_name),
                color: s.title_color@,
                size: s.title_size as nat,
                position: "label"@,
            },
        ),
        !s.react_to_state ==> image_svg(icons, s, volume, muted, device_name) == volume_bar_spec(
            icons.svg_of(IconData { icon: icon_for_name(s.icon@), active: !muted }),
            s.bg_color@,
            s.icon_color@,
            s.bar_color@,
            volume,
            muted,
            TitleView {
                text: display_title_spec(s, device_name),
                color: s.title_color@,
                size: s.title_size as nat,
                position: "label"@,
            },
        ),
        !s.title_enabled ==> display_title_spec(s, device_name) == Seq::<char>::empty(),
        s.title_enabled && s.title@.len() > 0 ==> contains(
            image_svg(icons, s, volume, muted, device_name),
            seq!['>'] + s.title@ + "</text>"@,
        ),
        s.title_enabled && s.title@.len() == 0 && device_name.len() > 0 ==> contains(
            image_svg(icons, s, volume, muted, device_name),
            seq!['>'] + device_name + "</text>"@,
        ),
{
    lemma_shown_colors(volume, s.bg_muted_color@, s.bg_color@);
    lemma_shown_colors(volume, s.icon_muted_color@, s.icon_color@);
    lemma_shown_colors(volume, s.icon_muted_color@, s.bar_color@);
    if display_title_spec(s, device_name).len() > 0 {
        let react = s.react_to_state;
        lemma_volume_bar_shows_title(
            icons.svg_of(IconData { icon: icon_for_name(s.icon@), active: !muted }),
            shown_color(react, volume, muted, s.bg_muted_color@, s.bg_color@),
            shown_color(react, volume, muted, s.icon_muted_color@, s.icon_color@),
            shown_color(react, volume, muted, s.icon_muted_color@, s.bar_color@),
            volume,
            muted,
            TitleView {
                text: display_title_spec(s, device_name),
                color: s.title_color@,
                size: s.title_size as nat,
                position: "label"@,
            },
        );
    }
}

} // verus!
