//! The volume knob: a dial that changes the volume of a device as it
//! turns, toggles mute when pressed, and shows the volume as a bar.
use vstd::prelude::*;
use crate::actions::{AudioAction, lemma_shown_colors, shown_color, state_color, title_opts};
use crate::render::{
    TitleView, color_ok, data_uri, lemma_volume_bar_shows_title, normalized_color,
    volume_bar_spec, volume_bar, svg_to_data_uri,
};
use crate::render::icons::{IconSet, IconData, icon_for_name};
use crate::text::{contains, decimal, push_char, push_decimal, str_eq, string_of};

verus! {

broadcast use vstd::string::group_string_axioms;

/// The settings of a volume knob. `step` is in percent per tick.
#[derive(Clone, Debug)]
pub struct VolumeKnobSettings {
    pub device_id: String,
    pub icon: String,
    pub title: String,
    pub bg_color: String,
    pub bg_muted_color: String,
    pub icon_color: String,
    pub icon_muted_color: String,
    pub bar_color: String,
    pub step: u32,
    pub react_to_state: bool,
}

impl Default for VolumeKnobSettings {
    /// The default source, 5% per tick, green on black, with colours that
    /// follow the device state.
    fn default() -> (r: Self)
        ensures
            r.device_id@ == "@DEFAULT_AUDIO_SOURCE@"@,
            r.icon@ == "mic"@,
            r.title@ == Seq::<char>::empty(),
            r.bg_color@ == "#000000"@,
            r.bg_muted_color@ == "#000000"@,
            r.icon_color@ == "#22c55e"@,
            r.icon_muted_color@ == "#ef4444"@,
            r.bar_color@ == "#22c55e"@,
            r.step == 5,
            r.react_to_state,
    {
        VolumeKnobSettings {
            device_id: string_of("@DEFAULT_AUDIO_SOURCE@"),
            icon: string_of("mic"),
            title: String::new(),
            bg_color: string_of("#000000"),
            bg_muted_color: string_of("#000000"),
            icon_color: string_of("#22c55e"),
            icon_muted_color: string_of("#ef4444"),
            bar_color: string_of("#22c55e"),
            step: 5,
            react_to_state: true,
        }
    }
}

/// The colours of a volume knob can be drawn: they are only parsed when
/// the knob follows the device state.
pub open spec fn colors_drawable(s: VolumeKnobSettings) -> bool {
    s.react_to_state ==> {
        &&& color_ok(s.bg_muted_color@)
        &&& color_ok(s.bg_color@)
        &&& color_ok(s.icon_muted_color@)
        &&& color_ok(s.icon_color@)
        &&& color_ok(s.bar_color@)
    }
}

/// The SVG of a volume knob for a device at `volume` millionths. Following
/// the device state, the bar blends from the muted icon colour to the bar
/// colour.
pub open spec fn image_svg(icons: IconSet, s: VolumeKnobSettings, volume: int, muted: bool) -> Seq<char> {
    let react = s.react_to_state;
    volume_bar_spec(
        icons.svg_of(IconData { icon: icon_for_name(s.icon@), active: !muted }),
        shown_color(react, volume as int, muted, s.bg_muted_color@, s.bg_color@),
        shown_color(react, volume as int, muted, s.icon_muted_color@, s.icon_color@),
        shown_color(react, volume as int, muted, s.icon_muted_color@, s.bar_color@),
        volume,
        muted,
        TitleView {
            text: s.title@,
            color: shown_color(react, volume as int, muted, s.icon_muted_color@, s.icon_color@),
            size: 14,
            position: "top"@,
        },
    )
}

/// The image (a data URI) a volume knob shows.
pub fn knob_image(icons: &IconSet, s: &VolumeKnobSettings, volume: i64, muted: bool) -> (r: String)
    requires
        colors_drawable(*s),
    ensures
        r@ == data_uri(image_svg(*icons, *s, volume as int, muted)),
{
    let react = s.react_to_state;
    let bg = state_color(react, volume, muted, s.bg_muted_color.as_str(), s.bg_color.as_str());
    let ic = state_color(react, volume, muted, s.icon_muted_color.as_str(), s.icon_color.as_str());
    let bar = state_color(react, volume, muted, s.icon_muted_color.as_str(), s.bar_color.as_str());
    let svg = volume_bar(
        icons,
        bg.as_str(),
        ic.as_str(),
        bar.as_str(),
        s.icon.as_str(),
        volume,
        muted,
        &title_opts(s.title.as_str(), ic.as_str(), 14, "top", 0, 0),
    );
    svg_to_data_uri(svg.as_str())
}

/// The amount of a turn of `ticks` ticks at `step` percent per tick, as
/// the plugin computes it in 32-bit signed arithmetic (`step` taken as an
/// `i32`), read back as a `u32`.
pub open spec fn turn_amount(step: u32, ticks: i16) -> u32 {
    let t: int = if ticks < 0 { -ticks } else { ticks as int };
    ((step as i32) as int * t) as u32
}

/// A turn that the plugin's arithmetic can take: not the most negative
/// tick count, whose absolute value has no `i16`, and a product of step
/// and ticks within `i32`.
pub open spec fn turn_fits(step: u32, ticks: i16) -> bool {
    let t: int = if ticks < 0 { -ticks } else { ticks as int };
    &&& ticks != i16::MIN
    &&& i32::MIN <= (step as i32) as int * t <= i32::MAX
}

/// The change a turn asks for: `{amount}%+` for a turn to the right
/// (positive ticks), `{amount}%-` otherwise.
pub open spec fn turn_delta(step: u32, ticks: i16) -> Seq<char> {
    decimal(turn_amount(step, ticks) as nat) + seq!['%', if ticks > 0 { '+' } else { '-' }]
}

/// Turning the dial changes the volume by the step per tick.
pub fn dial_rotate(s: &VolumeKnobSettings, ticks: i16) -> (r: AudioAction)
    requires
        turn_fits(s.step, ticks),
    ensures
        r matches AudioAction::Adjust { device_id, delta } && device_id@ == s.device_id@ && delta@
            == turn_delta(s.step, ticks),
{
    let t: i32 = if ticks < 0 { -(ticks as i32) } else { ticks as i32 };
    let step = s.step as i32;
    let amount = (step * t) as u32;
    let mut delta = String::new();
    push_decimal(&mut delta, amount as u64);
    push_char(&mut delta, '%');
    push_char(&mut delta, if ticks > 0 { '+' } else { '-' });
    assert(delta@ =~= turn_delta(s.step, ticks));
    AudioAction::Adjust { device_id: s.device_id.clone(), delta }
}

/// Turning the dial back by as many ticks as it went forward asks for the
/// same amount in the other direction.
pub proof fn lemma_turn_back(step: u32, ticks: i16)
    requires
        ticks > 0,
    ensures
        turn_amount(step, (-ticks) as i16) == turn_amount(step, ticks),
        turn_delta(step, ticks).last() == '+',
        turn_delta(step, (-ticks) as i16).last() == '-',
        turn_delta(step, ticks).drop_last() == turn_delta(step, (-ticks) as i16).drop_last(),
{
    assert(turn_delta(step, ticks).drop_last() =~= decimal(turn_amount(step, ticks) as nat).push('%'));
    assert(turn_delta(step, (-ticks) as i16).drop_last() =~= decimal(
        turn_amount(step, (-ticks) as i16) as nat,
    ).push('%'));
}

/// Pressing the dial flips the mute state of the device.
pub fn dial_up(s: &VolumeKnobSettings) -> (r: AudioAction)
    ensures
        r matches AudioAction::ToggleMute { device_id } && device_id@ == s.device_id@,
{
    AudioAction::ToggleMute { device_id: s.device_id.clone() }
}

/// A volume knob is redrawn when the state of its device changes.
pub fn watches(s: &VolumeKnobSettings, device_id: &str) -> (r: bool)
    ensures
        r == (s.device_id@ == device_id@),
{
    str_eq(s.device_id.as_str(), device_id)
}


/// What a volume knob draws: the icon (deactivated while muted), the
/// volume and its bar. Following the device state, background and icon
/// are in the muted colours and the bar in the muted icon colour whenever
/// the device is muted, whatever the volume; live at full volume or above
/// they are in the active colours and the bar in the bar colour; not
/// following it, all as set. A non-empty title of the knob is shown, in
/// the icon colour.
pub proof fn lemma_knob_image(icons: IconSet, s: VolumeKnobSettings, volume: int, muted: bool)
    ensures
        s.react_to_state ==> image_svg(icons, s, volume, true) == volume_bar_spec(
            icons.svg_of(IconData { icon: icon_for_name(s.icon@), active: false }),
            normalized_color(s.bg_muted_color@),
            normalized_color(s.icon_muted_color@),
            normalized_color(s.icon_muted_color@),
            volume,
            true,
            TitleView {
                text: s.title@,
                color: normalized_color(s.icon_muted_color@),
                size: 14,
                position: "top"@,
            },
        ),
        s.react_to_state && volume >= 1000000 ==> image_svg(icons, s, volume, false)
            == volume_bar_spec(
            icons.svg_of(IconData { icon: icon_for_name(s.icon@), active: true }),
            normalized_color(s.bg_color@),
            normalized_color(s.icon_color@),
            normalized_color(s.bar_color@),
            volume,
            false,
            TitleView {
                text: s.title@,
                color: normalized_color(s.icon_color@),
                size: 14,
                position: "top"@,
            },
        ),
        !s.react_to_state ==> image_svg(icons, s, volume, muted) == volume_bar_spec(
            icons.svg_of(IconData { icon: icon_for_name(s.icon@), active: !muted }),
            s.bg_color@,
            s.icon_color@,
            s.bar_color@,
            volume,
            muted,
            TitleView { text: s.title@, color: s.icon_color@, size: 14, position: "top"@ },
        ),
        s.title@.len() > 0 ==> contains(
            image_svg(icons, s, volume, muted),
            seq!['>'] + s.title@ + "</text>"@,
        ),
{
    lemma_shown_colors(volume, s.bg_muted_color@, s.bg_color@);
    lemma_shown_colors(volume, s.icon_muted_color@, s.icon_color@);
    lemma_shown_colors(volume, s.icon_muted_color@, s.bar_color@);
    if s.title@.len() > 0 {
        let react = s.react_to_state;
        let ic = shown_color(react, volume, muted, s.icon_muted_color@, s.icon_color@);
        lemma_volume_bar_shows_title(
            icons.svg_of(IconData { icon: icon_for_name(s.icon@), active: !muted }),
            shown_color(react, volume, muted, s.bg_muted_color@, s.bg_color@),
            ic,
            shown_color(react, volume, muted, s.icon_muted_color@, s.bar_color@),
            volume,
            muted,
            TitleView { text: s.title@, color: ic, size: 14, position: "top"@ },
        );
    }
}

} // verus!
