//! What the buttons do: the settings of each kind of button, the image it
//! shows for a device state, and the audio change a press asks for.
use vstd::prelude::*;
use crate::render::{TitleOpts, blend, color_ok, lerp_color, clamp_fraction, normalized_color, lemma_lerp_color_endpoints};

pub mod mute_toggle;
pub mod volume_button;
pub mod volume_display;
pub mod volume_down;
pub mod volume_knob;

verus! {

/// Builds the title options of a button from its settings.
pub fn title_opts<'a>(
    title: &'a str,
    color: &'a str,
    size: u32,
    position: &'a str,
    max_lines: u32,
    max_chars: u32,
) -> (r: TitleOpts<'a>)
    ensures
        r.text == title,
        r.color == color,
        r.size == size,
        r.position == position,
        r.max_lines == max_lines,
        r.max_chars == max_chars,
{
    TitleOpts { text: title, color, size, position, max_lines, max_chars }
}

/// A change of a device's audio state that a button press asks for.
#[derive(Clone, Debug)]
pub enum AudioAction {
    /// Flip the mute state of the device.
    ToggleMute { device_id: String },
    /// Change the volume relatively, by a text such as `5%+` or `5%-`.
    Adjust { device_id: String, delta: String },
    /// Set the volume, in hundredths.
    SetVolume { device_id: String, percent: u32 },
}

/// How far the state colours have moved from the muted colour toward the
/// active one, in millionths: none when muted or at a volume at or below
/// zero, else the volume, capped at full (1000000).
pub open spec fn state_fraction(volume: int, muted: bool) -> int {
    if muted || volume <= 0 {
        0
    } else {
        clamp_fraction(volume)
    }
}

/// The colour a button shows: when it reflects the device state, the blend
/// from its muted colour `muted_c` to its active colour `c` by the state
/// fraction; otherwise the active colour as it is.
pub open spec fn shown_color(
    react: bool,
    volume: int,
    muted: bool,
    muted_c: Seq<char>,
    c: Seq<char>,
) -> Seq<char> {
    if react {
        blend(muted_c, c, state_fraction(volume, muted))
    } else {
        c
    }
}

/// The colour a button shows for a device at `volume` millionths, muted or
/// not.
pub fn state_color(react: bool, volume: i64, muted: bool, muted_c: &str, c: &str) -> (r: String)
    requires
        react ==> color_ok(muted_c@) && color_ok(c@),
    ensures
        r@ == shown_color(react, volume as int, muted, muted_c@, c@),
{
    if react {
        let t: u64 = if muted || volume <= 0 {
            0
        } else if volume > 1000000 {
            1000000
        } else {
            volume as u64
        };
        lerp_color(muted_c, c, t)
    } else {
        crate::text::string_of(c)
    }
}

/// A button that follows the device state shows its muted colour while the
/// device is muted and its active colour at full volume and above; a
/// button that does not follow it always shows its active colour as set.
pub proof fn lemma_state_color_ends(volume: int, muted_c: Seq<char>, c: Seq<char>, muted: bool)
    requires
        volume >= 1000000,
    ensures
        shown_color(true, volume, true, muted_c, c) == normalized_color(muted_c),
        shown_color(true, volume, false, muted_c, c) == normalized_color(c),
        shown_color(false, volume, muted, muted_c, c) == c,
{
    lemma_lerp_color_endpoints(
        vstd::utf8::encode_utf8(muted_c),
        vstd::utf8::encode_utf8(c),
        clamp_fraction(volume),
    );
}

/// The colour a button shows, for every volume: following the device
/// state, a muted device always gives the muted colour (the blend does
/// not move while muted), a live device at or below zero volume too, and
/// a live device at full volume and above the active colour, each written
/// back as `#rrggbb` in lower case; not following it, the active colour
/// exactly as set, muted or not.
pub proof fn lemma_shown_colors(volume: int, muted_c: Seq<char>, c: Seq<char>)
    ensures
        shown_color(true, volume, true, muted_c, c) == normalized_color(muted_c),
        volume <= 0 ==> shown_color(true, volume, false, muted_c, c) == normalized_color(muted_c),
        volume >= 1000000 ==> shown_color(true, volume, false, muted_c, c) == normalized_color(c),
        shown_color(false, volume, true, muted_c, c) == c,
        shown_color(false, volume, false, muted_c, c) == c,
{
    lemma_lerp_color_endpoints(
        vstd::utf8::encode_utf8(muted_c),
        vstd::utf8::encode_utf8(c),
        1000000,
    );
}

/// Whether a colour setting can be blended (see `color_sliceable`).
pub fn color_setting_ok(c: &str) -> (r: bool)
    ensures
        r == color_ok(c@),
{
    crate::render::color_is_sliceable(c)
}

} // verus!
