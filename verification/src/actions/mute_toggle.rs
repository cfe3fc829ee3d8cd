//! The mute toggle: a key that flips the mute state of a device and shows
//! its icon, deactivated while the device is muted.
use vstd::prelude::*;
use crate::actions::{AudioAction, lemma_shown_colors, shown_color, state_color, title_opts};
use crate::render::{
    TitleView, color_ok, data_uri, lemma_mute_button_shows_title, mute_button_spec, mute_button,
    normalized_color, svg_to_data_uri,
};
use crate::render::icons::{IconSet, IconData, icon_for_name};
use crate::text::{contains, str_eq, string_of};

verus! {

broadcast use vstd::string::group_string_axioms;

/// The settings of a mute toggle.
#[derive(Clone, Debug)]
pub struct MuteToggleSettings {
    pub device_id: String,
    pub icon: String,
    pub title: String,
    pub title_color: String,
    pub title_size: u32,
    pub title_position: String,
    pub bg_color: String,
    pub bg_muted_color: String,
    pub icon_color: String,
    pub icon_muted_color: String,
    pub react_to_state: bool,
}

impl Default for MuteToggleSettings {
    /// The default source, a microphone icon, green when live and red when
    /// muted, on black, with the colours following the device state.
    fn default() -> (r: Self)
        ensures
            r.device_id@ == "@DEFAULT_AUDIO_SOURCE@"@,
            r.icon@ == "mic"@,
            r.title@ == Seq::<char>::empty(),
            r.title_color@ == "#ffffff"@,
            r.title_size == 14,
            r.title_position@ == "top"@,
            r.bg_color@ == "#000000"@,
            r.bg_muted_color@ == "#000000"@,
            r.icon_color@ == "#22c55e"@,
            r.icon_muted_color@ == "#ef4444"@,
            r.react_to_state,
    {
        MuteToggleSettings {
            device_id: string_of("@DEFAULT_AUDIO_SOURCE@"),
            icon: string_of("mic"),
            title: String::new(),
            title_color: string_of("#ffffff"),
            title_size: 14,
            title_position: string_of("top"),
            bg_color: string_of("#000000"),
            bg_muted_color: string_of("#000000"),
            icon_color: string_of("#22c55e"),
            icon_muted_color: string_of("#ef4444"),
            react_to_state: true,
        }
    }
}

/// The colours of a mute toggle can be drawn: they are only parsed when
/// the button follows the device state.
pub open spec fn colors_drawable(s: MuteToggleSettings) -> bool {
    s.react_to_state ==> {
        &&& color_ok(s.bg_muted_color@)
        &&& color_ok(s.bg_color@)
        &&& color_ok(s.icon_muted_color@)
        &&& color_ok(s.icon_color@)
    }
}

/// The SVG of a mute toggle for a device at `volume` millionths.
pub open spec fn image_svg(icons: IconSet, s: MuteToggleSettings, volume: int, muted: bool) -> Seq<char> {
    let react = s.react_to_state;
    mute_button_spec(
        icons.svg_of(IconData { icon: icon_for_name(s.icon@), active: !muted }),
        shown_color(react, volume, muted, s.bg_muted_color@, s.bg_color@),
        shown_color(react, volume, muted, s.icon_muted_color@, s.icon_color@),
        title_view(s),
    )
}

/// The title of a mute toggle: its own text, colour, size and position.
pub open spec fn title_view(s: MuteToggleSettings) -> TitleView {
    TitleView {
        text: s.title@,
        color: s.title_color@,
        size: s.title_size as nat,
        position: s.title_position@,
    }
}

/// The image (a data URI) a mute toggle shows for its device at `volume`
/// millionths, muted or not.
pub fn button_image(icons: &IconSet, s: &MuteToggleSettings, volume: i64, muted: bool) -> (r: String)
    requires
        colors_drawable(*s),
    ensures
        r@ == data_uri(image_svg(*icons, *s, volume as int, muted)),
{
    let bg = state_color(s.react_to_state, volume, muted, s.bg_muted_color.as_str(), s.bg_color.as_str());
    let ic = state_color(s.react_to_state, volume, muted, s.icon_muted_color.as_str(), s.icon_color.as_str());
    let title = title_opts(
        s.title.as_str(),
        s.title_color.as_str(),
        s.title_size,
        s.title_position.as_str(),
        0,
        0,
    );
    let svg = mute_button(icons, bg.as_str(), ic.as_str(), s.icon.as_str(), muted, &title);
    svg_to_data_uri(svg.as_str())
}

/// A press flips the mute state of the button's device.
pub fn key_up(s: &MuteToggleSettings) -> (r: AudioAction)
    ensures
        r matches AudioAction::ToggleMute { device_id } && device_id@ == s.device_id@,
{
    AudioAction::ToggleMute { device_id: s.device_id.clone() }
}

/// A mute toggle is redrawn when the state of the device it watches
/// changes.
pub fn watches(s: &MuteToggleSettings, device_id: &str) -> (r: bool)
    ensures
        r == (s.device_id@ == device_id@),
{
    str_eq(s.device_id.as_str(), device_id)
}


/// What a mute toggle draws. Following the device state, it is drawn in
/// its muted background and icon colours whenever the device is muted,
/// whatever the volume, and in its active colours when the device is live
/// at full volume or above; not following it, in its colours as set. The
/// icon is deactivated while muted, and a non-empty title of its own is
/// shown in its title colour, size and position.
pub proof fn lemma_toggle_image(icons: IconSet, s: MuteToggleSettings, volume: int, muted: bool)
    ensures
        s.react_to_state ==> image_svg(icons, s, volume, true) == mute_button_spec(
            icons.svg_of(IconData { icon: icon_for_name(s.icon@), active: false }),
            normalized_color(s.bg_muted_color@),
            normalized_color(s.icon_muted_color@),
            TitleView {
                text: s.title@,
                color: s.title_color@,
                size: s.title_size as nat,
                position: s.title_position@,
            },
        ),
        s.react_to_state && volume >= 1000000 ==> image_svg(icons, s, volume, false)
            == mute_button_spec(
            icons.svg_of(IconData { icon: icon_for_name(s.icon@), active: true }),
            normalized_color(s.bg_color@),
            normalized_color(s.icon_color@),
            TitleView {
                text: s.title@,
                color: s.title_color@,
                size: s.title_size as nat,
                position: s.title_position@,
            },
        ),
        !s.react_to_state ==> image_svg(icons, s, volume, muted) == mute_button_spec(
            icons.svg_of(IconData { icon: icon_for_name(s.icon@), active: !muted }),
            s.bg_color@,
            s.icon_color@,
            TitleView {
                text: s.title@,
                color: s.title_color@,
                size: s.title_size as nat,
                position: s.title_position@,
            },
        ),
        s.title@.len() > 0 ==> contains(
            image_svg(icons, s, volume, muted),
            seq!['>'] + s.title@ + "</text>"@,
        ),
{
    lemma_shown_colors(volume, s.bg_muted_color@, s.bg_color@);
    lemma_shown_colors(volume, s.icon_muted_color@, s.icon_color@);
    if s.title@.len() > 0 {
        let react = s.react_to_state;
        lemma_mute_button_shows_title(
            icons.svg_of(IconData { icon: icon_for_name(s.icon@), active: !muted }),
            shown_color(react, volume, muted, s.bg_muted_color@, s.bg_color@),
            shown_color(react, volume, muted, s.icon_muted_color@, s.icon_color@),
            title_view(s),
        );
    }
}

} // verus!
