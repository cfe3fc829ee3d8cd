//! The volume down key: lowers the volume of a device by a step and shows
//! its icon with the step, titled with the device name or a title of its
//! own.
use vstd::prelude::*;
use crate::actions::{AudioAction, lemma_shown_colors, shown_color, state_color, title_opts};
use crate::actions::volume_button::step_delta;
use crate::audio::delta_text;
use crate::render::{
    TitleView, color_ok, data_uri, lemma_volume_button_shows_title, normalized_color,
    volume_button_spec, volume_button, svg_to_data_uri,
};
use crate::render::icons::{IconSet, IconData, icon_for_name};
use crate::text::{contains, decimal, push_char, push_decimal, str_eq, string_of};

verus! {

broadcast use vstd::string::group_string_axioms;

/// The settings of a volume down key. `step` is in percent.
#[derive(Clone, Debug)]
pub struct VolumeDownSettings {
    pub device_id: String,
    pub icon: String,
    pub title: String,
    pub title_color: String,
    pub title_size: u32,
    pub title_position: String,
    pub bg_color: String,
    pub bg_muted_color: String,
    pub icon_color: String,
    pub icon_muted_color: String,
    pub step: u32,
    pub react_to_state: bool,
    pub auto_device_title: bool,
}

impl Default for VolumeDownSettings {
    /// The default source lowered by 5%, titled with its device name, with
    /// colours that do not follow the device state.
    fn default() -> (r: Self)
        ensures
            r.device_id@ == "@DEFAULT_AUDIO_SOURCE@"@,
            r.icon@ == "volume_down"@,
            r.title@ == Seq::<char>::empty(),
            r.title_color@ == "#ffffff"@,
            r.title_size == 14,
            r.title_position@ == "top"@,
            r.bg_color@ == "#000000"@,
            r.bg_muted_color@ == "#000000"@,
            r.icon_color@ == "#22c55e"@,
            r.icon_muted_color@ == "#ef4444"@,
            r.step == 5,
            !r.react_to_state,
            r.auto_device_title,
    {
        VolumeDownSettings {
            device_id: string_of("@DEFAULT_AUDIO_SOURCE@"),
            icon: string_of("volume_down"),
            title: String::new(),
            title_color: string_of("#ffffff"),
            title_size: 14,
            title_position: string_of("top"),
            bg_color: string_of("#000000"),
            bg_muted_color: string_of("#000000"),
            icon_color: string_of("#22c55e"),
            icon_muted_color: string_of("#ef4444"),
            step: 5,
            react_to_state: false,
            auto_device_title: true,
        }
    }
}

/// The label of a volume down key: `-5%`.
pub open spec fn label_spec(s: VolumeDownSettings) -> Seq<char> {
    seq!['-'] + decimal(s.step as nat) + seq!['%']
}

/// The label shown under the icon.
pub fn button_label(s: &VolumeDownSettings) -> (r: String)
    ensures
        r@ == label_spec(*s),
{
    let mut out = String::new();
    push_char(&mut out, '-');
    push_decimal(&mut out, s.step as u64);
    push_char(&mut out, '%');
    assert(out@ =~= label_spec(*s));
    out
}

/// Whether the title is the device name, which then has to be looked up.
pub fn needs_device_name(s: &VolumeDownSettings) -> (r: bool)
    ensures
        r == s.auto_device_title,
{
    s.auto_device_title
}

/// The title of the key, in its title colour and size: the device name at
/// the bottom when the title follows the device, else its own title at
/// its own position.
pub open spec fn title_spec(s: VolumeDownSettings, device_name: Seq<char>) -> TitleView {
    if s.auto_device_title {
        TitleView {
            text: device_name,
            color: s.title_color@,
            size: s.title_size as nat,
            position: "bottom"@,
        }
    } else {
        TitleView {
            text: s.title@,
            color: s.title_color@,
            size: s.title_size as nat,
            position: s.title_position@,
        }
    }
}

/// The colours of a volume down key can be drawn: they are only parsed
/// when the key follows the device state.
pub open spec fn colors_drawable(s: VolumeDownSettings) -> bool {
    s.react_to_state ==> {
        &&& color_ok(s.bg_muted_color@)
        &&& color_ok(s.bg_color@)
        &&& color_ok(s.icon_muted_color@)
        &&& color_ok(s.icon_color@)
    }
}

/// The SVG of a volume down key. The device state matters only when the
/// key follows it, and `device_name` only when the title follows the
/// device.
pub open spec fn image_svg(
    icons: IconSet,
    s: VolumeDownSettings,
    volume: int,
    muted: bool,
    device_name: Seq<char>,
) -> Seq<char> {
    let react = s.react_to_state;
    volume_button_spec(
        icons.svg_of(IconData { icon: icon_for_name(s.icon@), active: true }),
        shown_color(react, volume, muted, s.bg_muted_color@, s.bg_color@),
        shown_color(react, volume, muted, s.icon_muted_color@, s.icon_color@),
        label_spec(s),
        title_spec(s, device_name),
    )
}

/// The image (a data URI) a volume down key shows.
pub fn button_image(
    icons: &IconSet,
    s: &VolumeDownSettings,
    volume: i64,
    muted: bool,
    device_name: &str,
) -> (r: String)
    requires
        colors_drawable(*s),
    ensures
        r@ == data_uri(image_svg(*icons, *s, volume as int, muted, device_name@)),
{
    let label = button_label(s);
    let bg = state_color(s.react_to_state, volume, muted, s.bg_muted_color.as_str(), s.bg_color.as_str());
    let ic = state_color(s.react_to_state, volume, muted, s.icon_muted_color.as_str(), s.icon_color.as_str());
    let (text, position) = if s.auto_device_title {
        (device_name, "bottom")
    } else {
        (s.title.as_str(), s.title_position.as_str())
    };
    let title = title_opts(text, s.title_color.as_str(), s.title_size, position, 0, 0);
    let svg = volume_button(icons, bg.as_str(), ic.as_str(), s.icon.as_str(), label.as_str(), &title);
    svg_to_data_uri(svg.as_str())
}

/// A press lowers the volume by the step.
pub fn key_up(s: &VolumeDownSettings) -> (r: AudioAction)
    ensures
        r matches AudioAction::Adjust { device_id, delta } && device_id@ == s.device_id@ && delta@
            == delta_text(s.step as nat, false),
{
    AudioAction::Adjust { device_id: s.device_id.clone(), delta: step_delta(s.step, false) }
}

/// A volume down key is redrawn for a change of its device only when it
/// follows the device state.
pub fn watches(s: &VolumeDownSettings, device_id: &str) -> (r: bool)
    ensures
        r == (s.device_id@ == device_id@ && s.react_to_state),
{
    str_eq(s.device_id.as_str(), device_id) && s.react_to_state
}


/// What a volume down key draws: its active icon and the label `-{step}%`.
/// Following the device state, the background and the icon with its
/// label are in the muted colours whenever the device is muted, whatever
/// the volume, and in the active colours when it is live at full volume
/// or above; not following it, in the colours as set. With an automatic
/// title the device name is shown at the bottom, else the key's own title.
pub proof fn lemma_down_key_image(
    icons: IconSet,
    s: VolumeDownSettings,
    volume: int,
    muted: bool,
    device_name: Seq<char>,
)
    ensures
        s.react_to_state ==> image_svg(icons, s, volume, true, device_name) == volume_button_spec(
            icons.svg_of(IconData { icon: icon_for_name(s.icon@), active: true }),
            normalized_color(s.bg_muted_color@),
            normalized_color(s.icon_muted_color@),
            seq!['-'] + decimal(s.step as nat) + seq!['%'],
            title_spec(s, device_name),
        ),
        s.react_to_state && volume >= 1000000 ==> image_svg(icons, s, volume, false, device_name)
            == volume_button_spec(
            icons.svg_of(IconData { icon: icon_for_name(s.icon@), active: true }),
            normalized_color(s.bg_color@),
            normalized_color(s.icon_color@),
            seq!['-'] + decimal(s.step as nat) + seq!['%'],
            title_spec(s, device_name),
        ),
        !s.react_to_state ==> image_svg(icons, s, volume, muted, device_name) == volume_button_spec(
            icons.svg_of(IconData { icon: icon_for_name(s.icon@), active: true }),
            s.bg_color@,
            s.icon_color@,
            seq!['-'] + decimal(s.step as nat) + seq!['%'],
            title_spec(s, device_name),
        ),
        s.auto_device_title ==> title_spec(s, device_name) == (TitleView {
            text: device_name,
            color: s.title_color@,
            size: s.title_size as nat,
            position: "bottom"@,
        }),
        !s.auto_device_title ==> title_spec(s, device_name) == (TitleView {
            text: s.title@,
            color: s.title_color@,
            size: s.title_size as nat,
            position: s.title_position@,
        }),
        s.auto_device_title && device_name.len() > 0 ==> contains(
            image_svg(icons, s, volume, muted, device_name),
            seq!['>'] + device_name + "</text>"@,
        ),
        !s.auto_device_title && s.title@.len() > 0 ==> contains(
            image_svg(icons, s, volume, muted, device_name),
            seq!['>'] + s.title@ + "</text>"@,
        ),
{
    lemma_shown_colors(volume, s.bg_muted_color@, s.bg_color@);
    lemma_shown_colors(volume, s.icon_muted_color@, s.icon_color@);
    if title_spec(s, device_name).text.len() > 0 {
        let react = s.react_to_state;
        lemma_volume_button_shows_title(
            icons.svg_of(IconData { icon: icon_for_name(s.icon@), active: true }),
            shown_color(react, volume, muted, s.bg_muted_color@, s.bg_color@),
            shown_color(react, volume, muted, s.icon_muted_color@, s.icon_color@),
            label_spec(s),
            title_spec(s, device_name),
        );
    }
}

} // verus!
