//! The volume button: a key that raises, lowers or sets the volume of a
//! device by a fixed amount and shows its icon with the amount.
use vstd::prelude::*;
use crate::actions::{AudioAction, lemma_shown_colors, shown_color, state_color, title_opts};
use crate::audio::delta_text;
use crate::render::{
    TitleView, color_ok, data_uri, normalized_color, volume_button_spec, volume_button,
    svg_to_data_uri,
};
use crate::render::icons::{IconSet, IconData, icon_for_name};
use crate::text::{decimal, push_char, push_decimal, str_eq, string_of};

verus! {

broadcast use vstd::string::group_string_axioms;

/// What a volume button does.
#[derive(Clone, Copy, Debug, PartialEq, Eq, Structural)]
pub enum VolumeButtonMode {
    Up,
    Down,
    SetTo,
}

impl Default for VolumeButtonMode {
    /// Raising is the default.
    fn default() -> (r: Self)
        ensures
            r == VolumeButtonMode::Up,
    {
        VolumeButtonMode::Up
    }
}

/// The settings of a volume button. `step` and `value` are in percent.
#[derive(Clone, Debug)]
pub struct VolumeButtonSettings {
    pub device_id: String,
    pub icon: String,
    pub bg_color: String,
    pub bg_muted_color: String,
    pub icon_color: String,
    pub icon_muted_color: String,
    pub mode: VolumeButtonMode,
    pub step: u32,
    pub value: u32,
    pub react_to_state: bool,
}

impl Default for VolumeButtonSettings {
    /// The default source raised by 5%, with green on black and colours
    /// that do not follow the device state.
    fn default() -> (r: Self)
        ensures
            r.device_id@ == "@DEFAULT_AUDIO_SOURCE@"@,
            r.icon@ == "mic"@,
            r.bg_color@ == "#000000"@,
            r.bg_muted_color@ == "#000000"@,
            r.icon_color@ == "#22c55e"@,
            r.icon_muted_color@ == "#ef4444"@,
            r.mode == VolumeButtonMode::Up,
            r.step == 5,
            r.value == 50,
            !r.react_to_state,
    {
        VolumeButtonSettings {
            device_id: string_of("@DEFAULT_AUDIO_SOURCE@"),
            icon: string_of("mic"),
            bg_color: string_of("#000000"),
            bg_muted_color: string_of("#000000"),
            icon_color: string_of("#22c55e"),
            icon_muted_color: string_of("#ef4444"),
            mode: VolumeButtonMode::Up,
            step: 5,
            value: 50,
            react_to_state: false,
        }
    }
}

/// The label of a volume button: `+5%`, `-5%` or `50%`.
pub open spec fn label_spec(s: VolumeButtonSettings) -> Seq<char> {
    match s.mode {
        VolumeButtonMode::Up => seq!['+'] + decimal(s.step as nat) + seq!['%'],
        VolumeButtonMode::Down => seq!['-'] + decimal(s.step as nat) + seq!['%'],
        VolumeButtonMode::SetTo => decimal(s.value as nat) + seq!['%'],
    }
}

/// The label shown under the icon.
pub fn button_label(s: &VolumeButtonSettings) -> (r: String)
    ensures
        r@ == label_spec(*s),
{
    let mut out = String::new();
    match s.mode {
        VolumeButtonMode::Up => {
            push_char(&mut out, '+');
            push_decimal(&mut out, s.step as u64);
        },
        VolumeButtonMode::Down => {
            push_char(&mut out, '-');
            push_decimal(&mut out, s.step as u64);
        },
        VolumeButtonMode::SetTo => {
            push_decimal(&mut out, s.value as u64);
        },
    }
    push_char(&mut out, '%');
    assert(out@ =~= label_spec(*s));
    out
}

/// The colours of a volume button can be drawn: they are only parsed
/// when the button follows the device state.
pub open spec fn colors_drawable(s: VolumeButtonSettings) -> bool {
    s.react_to_state ==> {
        &&& color_ok(s.bg_muted_color@)
        &&& color_ok(s.bg_color@)
        &&& color_ok(s.icon_muted_color@)
        &&& color_ok(s.icon_color@)
    }
}

/// The SVG of a volume button for a device at `volume` millionths (the
/// state matters only when the button follows it). It has no title.
pub open spec fn image_svg(icons: IconSet, s: VolumeButtonSettings, volume: int, muted: bool) -> Seq<char> {
    let react = s.react_to_state;
    volume_button_spec(
        icons.svg_of(IconData { icon: icon_for_name(s.icon@), active: true }),
        shown_color(react, volume, muted, s.bg_muted_color@, s.bg_color@),
        shown_color(react, volume, muted, s.icon_muted_color@, s.icon_color@),
        label_spec(s),
        TitleView {
            text: Seq::empty(),
            color: shown_color(react, volume, muted, s.icon_muted_color@, s.icon_color@),
            size: 14,
            position: "top"@,
        },
    )
}

/// The image (a data URI) a volume button shows.
pub fn button_image(icons: &IconSet, s: &VolumeButtonSettings, volume: i64, muted: bool) -> (r: String)
    requires
        colors_drawable(*s),
    ensures
        r@ == data_uri(image_svg(*icons, *s, volume as int, muted)),
{
    let label = button_label(s);
    proof {
        reveal_strlit("");
    }
    assert(""@ =~= Seq::<char>::empty());
    let bg = state_color(s.react_to_state, volume, muted, s.bg_muted_color.as_str(), s.bg_color.as_str());
    let ic = state_color(s.react_to_state, volume, muted, s.icon_muted_color.as_str(), s.icon_color.as_str());
    let title = title_opts("", ic.as_str(), 14, "top", 0, 0);
    let svg = volume_button(icons, bg.as_str(), ic.as_str(), s.icon.as_str(), label.as_str(), &title);
    svg_to_data_uri(svg.as_str())
}

/// The change a relative volume step asks for: `{step}%+` or `{step}%-`.
pub fn step_delta(step: u32, up: bool) -> (r: String)
    ensures
        r@ == delta_text(step as nat, up),
{
    let mut out = String::new();
    push_decimal(&mut out, step as u64);
    push_char(&mut out, '%');
    push_char(&mut out, if up { '+' } else { '-' });
    assert(out@ =~= delta_text(step as nat, up));
    out
}

/// A press raises or lowers the volume by the step, or sets it to the
/// value.
pub fn key_up(s: &VolumeButtonSettings) -> (r: AudioAction)
    ensures
        match s.mode {
            VolumeButtonMode::Up => r matches AudioAction::Adjust { device_id, delta }
                && device_id@ == s.device_id@ && delta@ == delta_text(s.step as nat, true),
            VolumeButtonMode::Down => r matches AudioAction::Adjust { device_id, delta }
                && device_id@ == s.device_id@ && delta@ == delta_text(s.step as nat, false),
            VolumeButtonMode::SetTo => r matches AudioAction::SetVolume { device_id, percent }
                && device_id@ == s.device_id@ && percent == s.value,
        },
{
    match s.mode {
        VolumeButtonMode::Up => AudioAction::Adjust {
            device_id: s.device_id.clone(),
            delta: step_delta(s.step, true),
        },
        VolumeButtonMode::Down => AudioAction::Adjust {
            device_id: s.device_id.clone(),
            delta: step_delta(s.step, false),
        },
        VolumeButtonMode::SetTo => AudioAction::SetVolume {
            device_id: s.device_id.clone(),
            percent: s.value,
        },
    }
}

/// On a general refresh a volume button is redrawn only when it follows
/// the device state.
pub fn redraws_on_refresh(s: &VolumeButtonSettings) -> (r: bool)
    ensures
        r == s.react_to_state,
{
    s.react_to_state
}

/// A volume button is redrawn for a change of its device only when it
/// follows the device state.
pub fn watches(s: &VolumeButtonSettings, device_id: &str) -> (r: bool)
    ensures
        r == (s.device_id@ == device_id@ && s.react_to_state),
{
    str_eq(s.device_id.as_str(), device_id) && s.react_to_state
}


/// What a volume button draws: its active icon and its label. Following
/// the device state, background, icon and label are in the muted colours
/// whenever the device is muted, whatever the volume, and in the active
/// colours when it is live at full volume or above; not following it, in
/// the colours as set.
pub proof fn lemma_button_image_colors(icons: IconSet, s: VolumeButtonSettings, volume: int, muted: bool)
    ensures
        s.react_to_state ==> image_svg(icons, s, volume, true) == volume_button_spec(
            icons.svg_of(IconData { icon: icon_for_name(s.icon@), active: true }),
            normalized_color(s.bg_muted_color@),
            normalized_color(s.icon_muted_color@),
            label_spec(s),
            TitleView {
                text: Seq::empty(),
                color: normalized_color(s.icon_muted_color@),
                size: 14,
                position: "top"@,
            },
        ),
        s.react_to_state && volume >= 1000000 ==> image_svg(icons, s, volume, false)
            == volume_button_spec(
            icons.svg_of(IconData { icon: icon_for_name(s.icon@), active: true }),
            normalized_color(s.bg_color@),
            normalized_color(s.icon_color@),
            label_spec(s),
            TitleView {
                text: Seq::empty(),
                color: normalized_color(s.icon_color@),
                size: 14,
                position: "top"@,
            },
        ),
        !s.react_to_state ==> image_svg(icons, s, volume, muted) == volume_button_spec(
            icons.svg_of(IconData { icon: icon_for_name(s.icon@), active: true }),
            s.bg_color@,
            s.icon_color@,
            label_spec(s),
            TitleView { text: Seq::empty(), color: s.icon_color@, size: 14, position: "top"@ },
        ),
{
    lemma_shown_colors(volume, s.bg_muted_color@, s.bg_color@);
    lemma_shown_colors(volume, s.icon_muted_color@, s.icon_color@);
}

} // verus!
