//! Rendering of button images as SVG, and their packing as data URIs.
use vstd::prelude::*;
use crate::text::{contains, occurs_at, push_char, append, push_decimal, decimal, chars_of, replace_pair_str, replace_pair, trim_end_len, trim_end_ws, strip_suffixes_len, strip_suffixes};
use crate::render::icons::{IconSet, IconData, icon_for_name};
use vstd::string::StringSliceAdditionalSpecFns;

pub mod icons;

verus! {

broadcast use vstd::string::group_string_axioms;

// ---------------------------------------------------------------------
// SVG composition
// ---------------------------------------------------------------------

/// The background colour the icon files are drawn with.
pub const ICON_BG: &'static str = "#0a0a0a";
/// The foreground colour the icon files are drawn with.
pub const ICON_FG: &'static str = "#ffffff";
/// The closing tag of an SVG document.
pub const SVG_CLOSE: &'static str = "</svg>";
/// Start of the title text element, up to its vertical position.
pub const TITLE_OPEN: &'static str = "<text x=\"72\" y=\"";
/// Between the vertical position of the title and its font size.
pub const TITLE_SIZE: &'static str = "\" text-anchor=\"middle\" font-family=\"sans-serif\" font-size=\"";
/// Between the font size of the title and its fill colour.
pub const TITLE_FILL: &'static str = "\" font-weight=\"bold\" fill=\"";
/// Closes an attribute value and the start tag.
pub const TAG_END: &'static str = "\">";
/// The closing tag of a text element.
pub const TEXT_CLOSE: &'static str = "</text>";
/// A line break followed by the element indent.
pub const LINE: &'static str = "\n  ";
/// A line break followed by the closing SVG tag.
pub const DOC_END: &'static str = "\n</svg>";
/// Start of the percentage text of a volume bar, up to its fill colour.
pub const PERCENT_OPEN: &'static str = "\n  <text x=\"72\" y=\"112\" text-anchor=\"middle\" font-family=\"sans-serif\" font-size=\"18\" font-weight=\"bold\" fill=\"";
/// Between a fill colour and an opacity value.
pub const OPACITY_ATTR: &'static str = "\" opacity=\"";
/// After the percentage number: the track of the volume bar, up to its
/// fill colour.
pub const TRACK_OPEN: &'static str = "%</text>\n  <rect x=\"12\" y=\"120\" width=\"120\" height=\"12\" rx=\"6\" fill=\"";
/// End of the track, and start of the filled part, up to its width.
pub const BAR_OPEN: &'static str = "\" opacity=\"0.12\"/>\n  <rect x=\"12\" y=\"120\" width=\"";
/// After the bar width, up to the bar colour.
pub const BAR_FILL: &'static str = "\" height=\"12\" rx=\"6\" fill=\"";
/// End of the bar element and of the document.
pub const BAR_END: &'static str = "\"/>\n</svg>";
/// Start of the label text of a volume button, up to its fill colour.
pub const LABEL_OPEN: &'static str = "\n  <text x=\"72\" y=\"126\" text-anchor=\"middle\" font-family=\"sans-serif\" font-size=\"20\" font-weight=\"bold\" fill=\"";
/// End of the label text and of the document.
pub const LABEL_END: &'static str = "</text>\n</svg>";

/// The icon text with its background and foreground recoloured, in one
/// pass from the left.
pub open spec fn apply_colors_spec(svg: Seq<char>, bg: Seq<char>, ic: Seq<char>) -> Seq<char> {
    replace_pair(svg, ICON_BG@, bg, ICON_FG@, ic)
}

/// Recolours an icon: each default background `#0a0a0a` becomes
/// `bg_color` and each default fill `#ffffff` becomes `icon_color`. The
/// inserted colours are not read again, so a background of `#ffffff`
/// stays.
pub fn apply_colors(svg: &str, bg_color: &str, icon_color: &str) -> (r: String)
    ensures
        r@ == apply_colors_spec(svg@, bg_color@, icon_color@),
{
    proof {
        reveal_strlit("#0a0a0a");
        reveal_strlit("#ffffff");
    }
    replace_pair_str(svg, ICON_BG, bg_color, ICON_FG, icon_color)
}

/// An SVG document without trailing white space and without its closing
/// tags, ready for more elements.
pub open spec fn strip_close_spec(svg: Seq<char>) -> Seq<char> {
    strip_suffixes(trim_end_ws(svg), SVG_CLOSE@)
}

/// Removes trailing white space and then every trailing `</svg>`.
pub fn svg_strip_close(svg: &str) -> (r: &str)
    ensures
        r@ == strip_close_spec(svg@),
{
    proof {
        reveal_strlit("</svg>");
    }
    let v = chars_of(svg);
    let n = v.len();
    let suffix = chars_of(SVG_CLOSE);
    let k1 = trim_end_len(&v, n);
    let k2 = strip_suffixes_len(&v, k1, &suffix);
    assert(v@.take(n as int) =~= v@);
    svg.substring_char(0, k2)
}

/// Options for a button title: its text, colour, font size and position,
/// and the line and character limits of the settings (which the renderer
/// carries but does not draw).
pub struct TitleOpts<'a> {
    pub text: &'a str,
    pub color: &'a str,
    pub size: u32,
    pub position: &'a str,
    pub max_lines: u32,
    pub max_chars: u32,
}

/// Title options as values.
pub struct TitleView {
    pub text: Seq<char>,
    pub color: Seq<char>,
    pub size: nat,
    pub position: Seq<char>,
}

impl<'a> View for TitleOpts<'a> {
    type V = TitleView;

    open spec fn view(&self) -> TitleView {
        TitleView {
            text: self.text@,
            color: self.color@,
            size: self.size as nat,
            position: self.position@,
        }
    }
}

/// The baseline of a title: at the bottom edge for position `bottom`, at
/// the top for any other position.
pub open spec fn title_y(position: Seq<char>) -> Seq<char> {
    if position == "bottom"@ {
        "140"@
    } else {
        "18"@
    }
}

/// The title element of a button: nothing for an empty title, else its
/// text in its colour and font size at its position.
pub open spec fn title_svg_spec(t: TitleView) -> Seq<char> {
    if t.text.len() == 0 {
        Seq::empty()
    } else {
        TITLE_OPEN@ + title_y(t.position) + TITLE_SIZE@ + decimal(t.size) + TITLE_FILL@ + t.color
            + TAG_END@ + t.text + TEXT_CLOSE@
    }
}

/// Renders the optional title text of a button.
pub fn title_svg(title: &TitleOpts) -> (r: String)
    ensures
        r@ == title_svg_spec(title@),
{
    let mut out = String::new();
    if title.text.is_empty() {
        return out;
    }
    append(&mut out, TITLE_OPEN);
    if crate::text::str_eq(title.position, "bottom") {
        append(&mut out, "140");
    } else {
        append(&mut out, "18");
    }
    append(&mut out, TITLE_SIZE);
    push_decimal(&mut out, title.size as u64);
    append(&mut out, TITLE_FILL);
    append(&mut out, title.color);
    append(&mut out, TAG_END);
    append(&mut out, title.text);
    append(&mut out, TEXT_CLOSE);
    assert(out@ =~= title_svg_spec(title@));
    out
}

/// A mute button: the recoloured icon, closed again after the title.
pub open spec fn mute_button_spec(
    icon_svg: Seq<char>,
    bg: Seq<char>,
    ic: Seq<char>,
    title: TitleView,
) -> Seq<char> {
    strip_close_spec(apply_colors_spec(icon_svg, bg, ic)) + LINE@ + title_svg_spec(title)
        + DOC_END@
}

/// The recoloured icon of a button, without its closing tag.
fn icon_base(icons: &IconSet, d: IconData, bg: &str, ic: &str) -> (r: String)
    ensures
        r@ == strip_close_spec(apply_colors_spec(icons.svg_of(d), bg@, ic@)),
{
    let svg = icons.svg(d);
    let colored = apply_colors(svg, bg, ic);
    let base = svg_strip_close(colored.as_str());
    crate::text::string_of(base)
}

/// Renders a mute toggle button: the icon named `icon` (its deactivated
/// form when `muted`), recoloured, with its title.
pub fn mute_button(
    icons: &IconSet,
    bg_color: &str,
    icon_color: &str,
    icon: &str,
    muted: bool,
    title: &TitleOpts,
) -> (r: String)
    ensures
        r@ == mute_button_spec(
            icons.svg_of(IconData { icon: icon_for_name(icon@), active: !muted }),
            bg_color@,
            icon_color@,
            title@,
        ),
{
    let d = icons::get(icon, !muted);
    let mut out = icon_base(icons, d, bg_color, icon_color);
    append(&mut out, LINE);
    let title_el = title_svg(title);
    append(&mut out, title_el.as_str());
    append(&mut out, DOC_END);
    out
}

/// The width in pixels of the filled part of the volume bar for a volume
/// of `volume` millionths: 0 at or below zero, 120 at full volume (one
/// whole, 1000000) and above, rounded down in between.
pub open spec fn bar_width(volume: int) -> int {
    if volume <= 0 {
        0
    } else {
        clamp_fraction(volume) * 120 / 1000000
    }
}

/// The whole percentage written for a volume of `volume` millionths: the
/// nearest whole (halves rounded up), 0 at or below zero, and at most
/// `u32::MAX`.
pub open spec fn shown_percent(volume: int) -> int {
    if volume <= 0 {
        0
    } else if (volume + 5000) / 10000 > u32::MAX {
        u32::MAX as int
    } else {
        (volume + 5000) / 10000
    }
}

/// A volume bar button for a volume of `volume` millionths.
pub open spec fn volume_bar_spec(
    icon_svg: Seq<char>,
    bg: Seq<char>,
    ic: Seq<char>,
    bar: Seq<char>,
    volume: int,
    muted: bool,
    title: TitleView,
) -> Seq<char> {
    let faded: Seq<char> = if muted { "0.5"@ } else { "1.0"@ };
    let bar_op: Seq<char> = if muted { "0.3"@ } else { "1.0"@ };
    strip_close_spec(apply_colors_spec(icon_svg, bg, ic)) + LINE@ + title_svg_spec(title)
        + PERCENT_OPEN@ + ic + OPACITY_ATTR@ + faded + TAG_END@ + decimal(shown_percent(volume) as nat)
        + TRACK_OPEN@ + ic + BAR_OPEN@ + decimal(bar_width(volume) as nat) + BAR_FILL@ + bar
        + OPACITY_ATTR@ + bar_op + BAR_END@
}

/// Renders a volume bar button: the icon (deactivated when `muted`), the
/// volume in percent and a bar of 120 pixels filled in proportion to the
/// volume (capped at full). `volume` is the volume in millionths, so
/// 1000000 is full volume. Muted, the percentage fades to half and the bar
/// to three tenths.
pub fn volume_bar(
    icons: &IconSet,
    bg_color: &str,
    icon_color: &str,
    bar_color: &str,
    icon: &str,
    volume: i64,
    muted: bool,
    title: &TitleOpts,
) -> (r: String)
    ensures
        r@ == volume_bar_spec(
            icons.svg_of(IconData { icon: icon_for_name(icon@), active: !muted }),
            bg_color@,
            icon_color@,
            bar_color@,
            volume as int,
            muted,
            title@,
        ),
{
    let d = icons::get(icon, !muted);
    let mut out = icon_base(icons, d, bg_color, icon_color);
    let width: u64 = if volume <= 0 {
        0
    } else if volume > 1000000 {
        120
    } else {
        (volume as u64) * 120 / 1000000
    };
    let percent: u64 = if volume <= 0 {
        0
    } else {
        let q: u64 = ((volume as u64) + 5000) / 10000;
        if q > 4294967295 {
            4294967295
        } else {
            q
        }
    };
    let bar_opacity = if muted { "0.3" } else { "1.0" };
    let icon_opacity = if muted { "0.5" } else { "1.0" };
    let title_el = title_svg(title);
    append(&mut out, LINE);
    append(&mut out, title_el.as_str());
    append(&mut out, PERCENT_OPEN);
    append(&mut out, icon_color);
    append(&mut out, OPACITY_ATTR);
    append(&mut out, icon_opacity);
    append(&mut out, TAG_END);
    push_decimal(&mut out, percent);
    append(&mut out, TRACK_OPEN);
    append(&mut out, icon_color);
    append(&mut out, BAR_OPEN);
    push_decimal(&mut out, width);
    append(&mut out, BAR_FILL);
    append(&mut out, bar_color);
    append(&mut out, OPACITY_ATTR);
    append(&mut out, bar_opacity);
    append(&mut out, BAR_END);
    out
}

/// A volume button: the active icon, the title and a label below.
pub open spec fn volume_button_spec(
    icon_svg: Seq<char>,
    bg: Seq<char>,
    ic: Seq<char>,
    label: Seq<char>,
    title: TitleView,
) -> Seq<char> {
    strip_close_spec(apply_colors_spec(icon_svg, bg, ic)) + LINE@ + title_svg_spec(title)
        + LABEL_OPEN@ + ic + TAG_END@ + label + LABEL_END@
}

/// Renders a volume button (up, down or set): the active form of the icon
/// named `icon`, recoloured, with its title and `label` below.
pub fn volume_button(
    icons: &IconSet,
    bg_color: &str,
    icon_color: &str,
    icon: &str,
    label: &str,
    title: &TitleOpts,
) -> (r: String)
    ensures
        r@ == volume_button_spec(
            icons.svg_of(IconData { icon: icon_for_name(icon@), active: true }),
            bg_color@,
            icon_color@,
            label@,
            title@,
        ),
{
    let d = icons::get(icon, true);
    let mut out = icon_base(icons, d, bg_color, icon_color);
    let title_el = title_svg(title);
    append(&mut out, LINE);
    append(&mut out, title_el.as_str());
    append(&mut out, LABEL_OPEN);
    append(&mut out, icon_color);
    append(&mut out, TAG_END);
    append(&mut out, label);
    append(&mut out, LABEL_END);
    out
}

// ---------------------------------------------------------------------
// Base64 (RFC 4648, standard alphabet, with padding)
// ---------------------------------------------------------------------

/// The character of the standard Base64 alphabet for the 6-bit value `i`.
pub open spec fn b64_digit(i: int) -> char {
    if i < 26 {
        (65 + i) as char
    } else if i < 52 {
        (97 + i - 26) as char
    } else if i < 62 {
        (48 + i - 52) as char
    } else if i == 62 {
        '+'
    } else {
        '/'
    }
}

/// The four characters that encode the bytes `b0 b1 b2`, of which the
/// first `n` (1 to 3) are present; missing positions are padded with `=`.
pub open spec fn b64_block(b0: int, b1: int, b2: int, n: int) -> Seq<char> {
    seq![
        b64_digit(b0 / 4),
        b64_digit((b0 % 4) * 16 + b1 / 16),
        if n > 1 { b64_digit((b1 % 16) * 4 + b2 / 64) } else { '=' },
        if n > 2 { b64_digit(b2 % 64) } else { '=' },
    ]
}

/// The Base64 encoding of `data`.
pub open spec fn base64(data: Seq<u8>) -> Seq<char>
    decreases data.len(),
{
    if data.len() == 0 {
        seq![]
    } else {
        let b1: int = if data.len() > 1 { data[1] as int } else { 0 };
        let b2: int = if data.len() > 2 { data[2] as int } else { 0 };
        let n: int = if data.len() > 3 { 3 } else { data.len() as int };
        if data.len() <= 3 {
            b64_block(data[0] as int, b1, b2, n)
        } else {
            b64_block(data[0] as int, b1, b2, n) + base64(data.skip(3))
        }
    }
}

/// The Base64 alphabet character for `i < 64`.
fn b64_char(i: u8) -> (c: char)
    requires
        i < 64,
    ensures
        c == b64_digit(i as int),
{
    if i < 26 {
        (65u8 + i) as char
    } else if i < 52 {
        (97u8 + (i - 26)) as char
    } else if i < 62 {
        (48u8 + (i - 52)) as char
    } else if i == 62 {
        '+'
    } else {
        '/'
    }
}

/// Encodes `data` in Base64 (standard alphabet, `=` padding).
pub fn base64_encode(data: &[u8]) -> (r: String)
    ensures
        r@ == base64(data@),
{
    let n = data.len();
    let mut out = String::new();
    let mut i: usize = 0;
    assert(data@.skip(0) =~= data@);
    while i < n
        invariant
            n == data@.len(),
            i <= n,
            base64(data@) == out@ + base64(data@.skip(i as int)),
        decreases n - i,
    {
        let ghost rest = data@.skip(i as int);
        let ghost before = out@;
        let left = n - i;
        let b0 = data[i];
        let b1: u8 = if left > 1 { data[i + 1] } else { 0 };
        let b2: u8 = if left > 2 { data[i + 2] } else { 0 };
        assert(rest[0] == b0);
        assert(left > 1 ==> rest[1] == b1);
        assert(left > 2 ==> rest[2] == b2);
        push_char(&mut out, b64_char(b0 / 4));
        push_char(&mut out, b64_char((b0 % 4) * 16 + b1 / 16));
        if left > 1 {
            push_char(&mut out, b64_char((b1 % 16) * 4 + b2 / 64));
        } else {
            push_char(&mut out, '=');
        }
        if left > 2 {
            push_char(&mut out, b64_char(b2 % 64));
        } else {
            push_char(&mut out, '=');
        }
        let ghost m: int = if left > 3 { 3 } else { left as int };
        assert(out@ =~= before + b64_block(b0 as int, b1 as int, b2 as int, m));
        if left <= 3 {
            i = n;
            assert(data@.skip(i as int) =~= Seq::<u8>::empty());
            assert(out@ + Seq::<char>::empty() =~= out@);
        } else {
            assert(rest.skip(3) =~= data@.skip(i + 3));
            i = i + 3;
        }
    }
    out
}

/// The length of a Base64 encoding: four characters per started group of
/// three bytes.
pub proof fn lemma_base64_len(data: Seq<u8>)
    ensures
        base64(data).len() == 4 * ((data.len() + 2) / 3),
    decreases data.len(),
{
    if data.len() > 3 {
        lemma_base64_len(data.skip(3));
    }
}

/// The 6-bit value of a character of the standard Base64 alphabet.
pub open spec fn b64_value(c: char) -> int {
    if 'A' <= c && c <= 'Z' {
        c as int - 65
    } else if 'a' <= c && c <= 'z' {
        c as int - 71
    } else if '0' <= c && c <= '9' {
        c as int + 4
    } else if c == '+' {
        62
    } else {
        63
    }
}

/// The bytes that a padded Base64 text stands for.
pub open spec fn unbase64(s: Seq<char>) -> Seq<u8>
    decreases s.len(),
{
    if s.len() < 4 {
        seq![]
    } else {
        let c0 = b64_value(s[0]);
        let c1 = b64_value(s[1]);
        let c2 = b64_value(s[2]);
        let c3 = b64_value(s[3]);
        let v0 = (c0 * 4 + c1 / 16) as u8;
        let v1 = ((c1 % 16) * 16 + c2 / 4) as u8;
        let v2 = ((c2 % 4) * 64 + c3) as u8;
        let block = if s[2] == '=' {
            seq![v0]
        } else if s[3] == '=' {
            seq![v0, v1]
        } else {
            seq![v0, v1, v2]
        };
        block + unbase64(s.skip(4))
    }
}

proof fn lemma_b64_digit_value(i: int)
    requires
        0 <= i < 64,
    ensures
        b64_value(b64_digit(i)) == i,
        b64_digit(i) != '=',
{
}

proof fn lemma_b64_block_bytes(b0: int, b1: int, b2: int)
    requires
        0 <= b0 < 256,
        0 <= b1 < 256,
        0 <= b2 < 256,
    ensures
        (b0 / 4) * 4 + ((b0 % 4) * 16 + b1 / 16) / 16 == b0,
        (((b0 % 4) * 16 + b1 / 16) % 16) * 16 + ((b1 % 16) * 4 + b2 / 64) / 4 == b1,
        (((b1 % 16) * 4 + b2 / 64) % 4) * 64 + b2 % 64 == b2,
        0 <= b0 / 4 < 64,
        0 <= (b0 % 4) * 16 + b1 / 16 < 64,
        0 <= (b1 % 16) * 4 + b2 / 64 < 64,
        0 <= b2 % 64 < 64,
{
    assert(0 <= b1 / 16 < 16) by (nonlinear_arith)
        requires
            0 <= b1 < 256,
    ;
    assert(0 <= b2 / 64 < 4) by (nonlinear_arith)
        requires
            0 <= b2 < 256,
    ;
}

/// Decoding a Base64 encoding gives back the encoded bytes.
pub proof fn lemma_base64_roundtrip(data: Seq<u8>)
    ensures
        unbase64(base64(data)) == data,
    decreases data.len(),
{
    if data.len() > 0 {
        let b0 = data[0] as int;
        let b1: int = if data.len() > 1 { data[1] as int } else { 0 };
        let b2: int = if data.len() > 2 { data[2] as int } else { 0 };
        let n: int = if data.len() > 3 { 3 } else { data.len() as int };
        let s = base64(data);
        let blk = b64_block(b0, b1, b2, n);
        lemma_b64_block_bytes(b0, b1, b2);
        lemma_b64_digit_value(b0 / 4);
        lemma_b64_digit_value((b0 % 4) * 16 + b1 / 16);
        lemma_b64_digit_value((b1 % 16) * 4 + b2 / 64);
        lemma_b64_digit_value(b2 % 64);
        if data.len() <= 3 {
            assert(s == blk);
            assert(s.skip(4) =~= Seq::<char>::empty());
            assert(unbase64(s.skip(4)) =~= Seq::<u8>::empty());
        } else {
            lemma_base64_roundtrip(data.skip(3));
            assert(s.skip(4) =~= base64(data.skip(3)));
            assert(data =~= data.take(3) + data.skip(3));
        }
        assert(s[0] == blk[0] && s[1] == blk[1] && s[2] == blk[2] && s[3] == blk[3]);
        assert(unbase64(s) =~= data);
    }
}

/// A character of the standard Base64 alphabet.
pub open spec fn is_b64_alphabet(c: char) -> bool {
    ('A' <= c && c <= 'Z') || ('a' <= c && c <= 'z') || ('0' <= c && c <= '9') || c == '+' || c
        == '/'
}

/// A Base64 encoding is made of alphabet characters, except for at most
/// two padding `=` at its end.
pub proof fn lemma_base64_alphabet(data: Seq<u8>)
    ensures
        forall|i: int|
            0 <= i < base64(data).len() ==> is_b64_alphabet(#[trigger] base64(data)[i]) || (
            base64(data)[i] == '=' && i >= base64(data).len() - 2),
    decreases data.len(),
{
    if data.len() > 0 {
        let b0 = data[0] as int;
        let b1: int = if data.len() > 1 { data[1] as int } else { 0 };
        let b2: int = if data.len() > 2 { data[2] as int } else { 0 };
        let n: int = if data.len() > 3 { 3 } else { data.len() as int };
        let blk = b64_block(b0, b1, b2, n);
        let s = base64(data);
        lemma_b64_block_bytes(b0, b1, b2);
        assert(is_b64_alphabet(blk[0]) && is_b64_alphabet(blk[1]));
        assert(n > 1 ==> is_b64_alphabet(blk[2]));
        assert(n > 2 ==> is_b64_alphabet(blk[3]));
        if data.len() > 3 {
            lemma_base64_alphabet(data.skip(3));
            let rest = base64(data.skip(3));
            assert forall|i: int|
                0 <= i < s.len() implies is_b64_alphabet(#[trigger] s[i]) || (s[i] == '=' && i >= s.len() - 2) by {
                if i >= 4 {
                    assert(s[i] == rest[i - 4]);
                } else {
                    assert(s[i] == blk[i]);
                }
            }
        } else {
            assert forall|i: int|
                0 <= i < s.len() implies is_b64_alphabet(#[trigger] s[i]) || (s[i] == '=' && i >= s.len() - 2) by {
                assert(s[i] == blk[i]);
            }
        }
    }
}

/// The prefix of an SVG data URI in Base64 form.
pub const DATA_URI_PREFIX: &'static str = "data:image/svg+xml;base64,";

/// The data URI of an SVG document: the Base64 of its UTF-8 bytes.
pub open spec fn data_uri(svg: Seq<char>) -> Seq<char> {
    DATA_URI_PREFIX@ + base64(vstd::utf8::encode_utf8(svg))
}

/// The data URI carries the UTF-8 bytes of the SVG document: after its
/// prefix, the Base64 text decodes to exactly those bytes.
pub proof fn lemma_data_uri_carries_svg(svg: Seq<char>)
    ensures
        data_uri(svg).take(DATA_URI_PREFIX@.len() as int) == DATA_URI_PREFIX@,
        unbase64(data_uri(svg).skip(DATA_URI_PREFIX@.len() as int)) == vstd::utf8::encode_utf8(svg),
{
    let bytes = vstd::utf8::encode_utf8(svg);
    lemma_base64_roundtrip(bytes);
    assert(data_uri(svg).take(DATA_URI_PREFIX@.len() as int) =~= DATA_URI_PREFIX@);
    assert(data_uri(svg).skip(DATA_URI_PREFIX@.len() as int) =~= base64(bytes));
}

/// Packs an SVG document as a Base64 data URI of its UTF-8 bytes.
pub fn svg_to_data_uri(svg: &str) -> (r: String)
    ensures
        r@ == data_uri(svg@),
{
    let mut out = crate::text::string_of(DATA_URI_PREFIX);
    let enc = base64_encode(svg.as_bytes());
    append(&mut out, enc.as_str());
    out
}


// ---------------------------------------------------------------------
// Colours
// ---------------------------------------------------------------------

/// `b` without its leading `#` bytes (`trim_start_matches('#')`).
pub open spec fn trim_hashes(b: Seq<u8>) -> Seq<u8>
    decreases b.len(),
{
    if b.len() > 0 && b[0] == 35 {
        trim_hashes(b.drop_first())
    } else {
        b
    }
}

/// Position `i` of the UTF-8 bytes `b` is the end of `b` or the start of a
/// character.
pub open spec fn begins_char(b: Seq<u8>, i: int) -> bool {
    i == b.len() || !(0x80 <= b[i] && b[i] <= 0xbf)
}

/// A colour text whose channel pairs can be cut out: after the leading
/// `#`s there are at least six bytes, and the cuts after the second,
/// fourth and sixth byte fall between characters. On any other text the
/// colour parser would slice a string out of bounds or inside a character.
pub open spec fn color_sliceable(b: Seq<u8>) -> bool {
    let t = trim_hashes(b);
    &&& t.len() >= 6
    &&& begins_char(t, 2)
    &&& begins_char(t, 4)
    &&& begins_char(t, 6)
}

/// The value of an ASCII hexadecimal digit (either case).
pub open spec fn hex_digit(b: u8) -> Option<int> {
    if 48 <= b && b <= 57 {
        Some(b - 48)
    } else if 97 <= b && b <= 102 {
        Some(b - 87)
    } else if 65 <= b && b <= 70 {
        Some(b - 55)
    } else {
        None
    }
}

/// What `u8::from_str_radix(.., 16).unwrap_or(0)` gives for the two bytes
/// `a b`: two hex digits, or `+` and one hex digit; anything else is 0.
pub open spec fn hex_pair(a: u8, b: u8) -> int {
    match (hex_digit(a), hex_digit(b)) {
        (Some(x), Some(y)) => 16 * x + y,
        (None, Some(y)) => if a == 43 { y } else { 0 },
        _ => 0,
    }
}

/// The red, green and blue channels read from a colour text.
pub open spec fn parse_hex_spec(b: Seq<u8>) -> (int, int, int) {
    let t = trim_hashes(b);
    (hex_pair(t[0], t[1]), hex_pair(t[2], t[3]), hex_pair(t[4], t[5]))
}

fn hex_digit_of(b: u8) -> (r: Option<u8>)
    ensures
        r matches Some(v) ==> hex_digit(b) == Some(v as int),
        r is None ==> hex_digit(b) is None,
{
    if 48 <= b && b <= 57 {
        Some(b - 48)
    } else if 97 <= b && b <= 102 {
        Some(b - 87)
    } else if 65 <= b && b <= 70 {
        Some(b - 55)
    } else {
        None
    }
}

fn hex_pair_of(a: u8, b: u8) -> (r: u8)
    ensures
        r as int == hex_pair(a, b),
{
    match (hex_digit_of(a), hex_digit_of(b)) {
        (Some(x), Some(y)) => 16 * x + y,
        (None, Some(y)) => if a == 43 { y } else { 0 },
        _ => 0,
    }
}

/// How many `#` bytes `b` starts with.
fn hash_count(b: &[u8]) -> (k: usize)
    ensures
        k <= b@.len(),
        b@.skip(k as int) == trim_hashes(b@),
{
    let mut k: usize = 0;
    assert(b@.skip(0) =~= b@);
    while k < b.len() && b[k] == 35
        invariant
            k <= b@.len(),
            trim_hashes(b@) == trim_hashes(b@.skip(k as int)),
        decreases b@.len() - k,
    {
        assert(b@.skip(k as int).drop_first() =~= b@.skip(k + 1));
        k = k + 1;
    }
    k
}

/// Whether `hex` can be read as a colour without the parser failing.
pub fn color_is_sliceable(hex: &str) -> (r: bool)
    ensures
        r == color_sliceable(hex.spec_bytes()),
{
    let b = hex.as_bytes();
    let k = hash_count(b);
    let ghost t = b@.skip(k as int);
    if b.len() - k < 6 {
        return false;
    }
    let ok2 = !(0x80 <= b[k + 2] && b[k + 2] <= 0xbf);
    let ok4 = !(0x80 <= b[k + 4] && b[k + 4] <= 0xbf);
    let ok6 = b.len() - k == 6 || !(0x80 <= b[k + 6] && b[k + 6] <= 0xbf);
    assert(t[2] == b@[k + 2] && t[4] == b@[k + 4]);
    assert(b.len() - k > 6 ==> t[6] == b@[k + 6]);
    ok2 && ok4 && ok6
}

/// Reads a colour `#rrggbb` (any number of leading `#`) into its three
/// channels; a pair that is not a hexadecimal number reads as 0.
pub fn parse_hex(hex: &str) -> (r: (u8, u8, u8))
    requires
        color_sliceable(hex.spec_bytes()),
    ensures
        (r.0 as int, r.1 as int, r.2 as int) == parse_hex_spec(hex.spec_bytes()),
{
    let b = hex.as_bytes();
    let k = hash_count(b);
    let ghost t = b@.skip(k as int);
    assert(t[0] == b@[k as int] && t[1] == b@[k + 1] && t[2] == b@[k + 2]);
    assert(t[3] == b@[k + 3] && t[4] == b@[k + 4] && t[5] == b@[k + 5]);
    let r = hex_pair_of(b[k], b[k + 1]);
    let g = hex_pair_of(b[k + 2], b[k + 3]);
    let bl = hex_pair_of(b[k + 4], b[k + 5]);
    (r, g, bl)
}

/// The lower-case hexadecimal digit for `d < 16`.
pub open spec fn hex_char(d: int) -> char {
    if d < 10 {
        (48 + d) as char
    } else {
        (87 + d) as char
    }
}

/// A channel value as two lower-case hexadecimal digits (`{:02x}`).
pub open spec fn hex2(v: int) -> Seq<char> {
    seq![hex_char(v / 16), hex_char(v % 16)]
}

/// The text `#rrggbb` of a colour.
pub open spec fn color_text(r: int, g: int, b: int) -> Seq<char> {
    seq!['#'] + hex2(r) + hex2(g) + hex2(b)
}

/// A fraction in millionths, clamped to at most one whole.
pub open spec fn clamp_fraction(t: int) -> int {
    if t > 1000000 {
        1000000
    } else {
        t
    }
}

/// The channel `p` millionths of the way from `a` to `b`, rounded toward
/// zero.
pub open spec fn lerp_channel(a: int, b: int, p: int) -> int {
    (a * (1000000 - p) + b * p) / 1000000
}

/// The colour `t` millionths of the way from `from` to `to` (`t` clamped
/// to at most one whole, 1000000).
pub open spec fn lerp_color_spec(from: Seq<u8>, to: Seq<u8>, t: int) -> Seq<char> {
    let (r, g, b) = lerp_channels(from, to, t);
    color_text(r, g, b)
}

/// The red, green and blue channels of the colour `t` millionths of the
/// way from `from` to `to`.
pub open spec fn lerp_channels(from: Seq<u8>, to: Seq<u8>, t: int) -> (int, int, int) {
    let (r1, g1, b1) = parse_hex_spec(from);
    let (r2, g2, b2) = parse_hex_spec(to);
    let p = clamp_fraction(t);
    (lerp_channel(r1, r2, p), lerp_channel(g1, g2, p), lerp_channel(b1, b2, p))
}

/// How far apart two channel values are.
pub open spec fn channel_distance(a: int, b: int) -> int {
    if a <= b {
        b - a
    } else {
        a - b
    }
}

proof fn lemma_lerp_bounds(a: int, b: int, p: int)
    requires
        0 <= a < 256,
        0 <= b < 256,
        0 <= p <= 1000000,
    ensures
        0 <= a * (1000000 - p) + b * p <= 255000000,
        0 <= lerp_channel(a, b, p) < 256,
        (a <= b ==> a <= lerp_channel(a, b, p) <= b),
        (b <= a ==> b <= lerp_channel(a, b, p) <= a),
{
    assert(0 <= a * (1000000 - p) + b * p <= 255 * 1000000) by (nonlinear_arith)
        requires
            0 <= a < 256,
            0 <= b < 256,
            0 <= p <= 1000000,
    ;
    assert(a <= b ==> a * 1000000 <= a * (1000000 - p) + b * p <= b * 1000000) by (nonlinear_arith)
        requires
            0 <= a < 256,
            0 <= b < 256,
            0 <= p <= 1000000,
    ;
    assert(b <= a ==> b * 1000000 <= a * (1000000 - p) + b * p <= a * 1000000) by (nonlinear_arith)
        requires
            0 <= a < 256,
            0 <= b < 256,
            0 <= p <= 1000000,
    ;
}

fn lerp_u8(a: u8, b: u8, p: u64) -> (r: u8)
    requires
        p <= 1000000,
    ensures
        r as int == lerp_channel(a as int, b as int, p as int),
{
    proof {
        lemma_lerp_bounds(a as int, b as int, p as int);
    }
    let x: u64 = (a as u64) * (1000000 - p) + (b as u64) * p;
    (x / 1000000) as u8
}

fn hex_char_of(d: u8) -> (c: char)
    requires
        d < 16,
    ensures
        c == hex_char(d as int),
{
    if d < 10 {
        (48u8 + d) as char
    } else {
        (87u8 + d) as char
    }
}

fn push_hex2(out: &mut String, v: u8)
    ensures
        final(out)@ == old(out)@ + hex2(v as int),
{
    push_char(out, hex_char_of(v / 16));
    push_char(out, hex_char_of(v % 16));
    assert(out@ =~= old(out)@ + hex2(v as int));
}

/// A colour text that the colour parser can read (see `color_sliceable`).
pub open spec fn color_ok(c: Seq<char>) -> bool {
    color_sliceable(vstd::utf8::encode_utf8(c))
}

/// A colour text as the blend writes it back: `#rrggbb` in lower case of
/// the channels read from it.
pub open spec fn normalized_color(c: Seq<char>) -> Seq<char> {
    let (r, g, b) = parse_hex_spec(vstd::utf8::encode_utf8(c));
    color_text(r, g, b)
}

/// The colour `t` millionths of the way from `from` to `to`.
pub open spec fn blend(from: Seq<char>, to: Seq<char>, t: int) -> Seq<char> {
    lerp_color_spec(vstd::utf8::encode_utf8(from), vstd::utf8::encode_utf8(to), t)
}

/// The colour `t` millionths of the way from `from` (at 0) to `to` (at
/// 1000000, one whole, and above), as `#rrggbb`; each channel is rounded
/// toward zero.
pub fn lerp_color(from: &str, to: &str, t: u64) -> (r: String)
    requires
        color_sliceable(from.spec_bytes()),
        color_sliceable(to.spec_bytes()),
    ensures
        r@ == lerp_color_spec(from.spec_bytes(), to.spec_bytes(), t as int),
{
    let (r1, g1, b1) = parse_hex(from);
    let (r2, g2, b2) = parse_hex(to);
    let p: u64 = if t > 1000000 { 1000000 } else { t };
    let mut out = String::new();
    push_char(&mut out, '#');
    push_hex2(&mut out, lerp_u8(r1, r2, p));
    push_hex2(&mut out, lerp_u8(g1, g2, p));
    push_hex2(&mut out, lerp_u8(b1, b2, p));
    assert(out@ =~= lerp_color_spec(from.spec_bytes(), to.spec_bytes(), t as int));
    out
}

/// At 0 the blend is the first colour and from one whole (1000000) on it
/// is the second,
/// each written as `#rrggbb` in lower case.
pub proof fn lemma_lerp_color_endpoints(from: Seq<u8>, to: Seq<u8>, t: int)
    requires
        t >= 1000000,
    ensures
        lerp_color_spec(from, to, 0) == color_text(
            parse_hex_spec(from).0,
            parse_hex_spec(from).1,
            parse_hex_spec(from).2,
        ),
        lerp_color_spec(from, to, t) == color_text(
            parse_hex_spec(to).0,
            parse_hex_spec(to).1,
            parse_hex_spec(to).2,
        ),
{
    let (r1, g1, b1) = parse_hex_spec(from);
    let (r2, g2, b2) = parse_hex_spec(to);
    lemma_lerp_ends(r1, r2);
    lemma_lerp_ends(g1, g2);
    lemma_lerp_ends(b1, b2);
}

proof fn lemma_lerp_ends(a: int, b: int)
    ensures
        lerp_channel(a, b, 0) == a,
        lerp_channel(a, b, 1000000) == b,
{
    assert(a * (1000000 - 0) + b * 0 == a * 1000000) by (nonlinear_arith);
    assert(a * (1000000 - 1000000) + b * 1000000 == b * 1000000) by (nonlinear_arith);
}

/// A larger blend factor never moves a channel away from the target
/// colour: it moves monotonically from the first colour to the second.
pub proof fn lemma_lerp_channel_monotone(a: int, b: int, t1: int, t2: int)
    requires
        0 <= a < 256,
        0 <= b < 256,
        0 <= t1 <= t2,
    ensures
        a <= b ==> lerp_channel(a, b, clamp_fraction(t1)) <= lerp_channel(a, b, clamp_fraction(t2)) <= b,
        b <= a ==> b <= lerp_channel(a, b, clamp_fraction(t2)) <= lerp_channel(a, b, clamp_fraction(t1)),
{
    let p1 = clamp_fraction(t1);
    let p2 = clamp_fraction(t2);
    lemma_lerp_bounds(a, b, p2);
    let x1 = a * (1000000 - p1) + b * p1;
    let x2 = a * (1000000 - p2) + b * p2;
    assert((a * (1000000 - p2) + b * p2) - (a * (1000000 - p1) + b * p1) == (b - a) * (p2 - p1))
        by (nonlinear_arith);
    assert(a <= b ==> (b - a) * (p2 - p1) >= 0) by (nonlinear_arith)
        requires
            p1 <= p2,
    ;
    assert(b <= a ==> (b - a) * (p2 - p1) <= 0) by (nonlinear_arith)
        requires
            p1 <= p2,
    ;
    lemma_div_whole_ordered(x1, x2);
    lemma_div_whole_ordered(x2, x1);
}

proof fn lemma_hex_pair_range(a: u8, b: u8)
    ensures
        0 <= hex_pair(a, b) < 256,
{
}

/// Blending further never moves away from the target: for millionths
/// `t1 <= t2`, each channel of the blend at `t2` is at most as far from the
/// same channel of `to` as that of the blend at `t1`.
pub proof fn lemma_lerp_color_moves_toward_target(from: Seq<u8>, to: Seq<u8>, t1: int, t2: int)
    requires
        0 <= t1 <= t2,
    ensures
        channel_distance(lerp_channels(from, to, t2).0, parse_hex_spec(to).0) <= channel_distance(
            lerp_channels(from, to, t1).0,
            parse_hex_spec(to).0,
        ),
        channel_distance(lerp_channels(from, to, t2).1, parse_hex_spec(to).1) <= channel_distance(
            lerp_channels(from, to, t1).1,
            parse_hex_spec(to).1,
        ),
        channel_distance(lerp_channels(from, to, t2).2, parse_hex_spec(to).2) <= channel_distance(
            lerp_channels(from, to, t1).2,
            parse_hex_spec(to).2,
        ),
{
    let f = trim_hashes(from);
    let g = trim_hashes(to);
    lemma_hex_pair_range(f[0], f[1]);
    lemma_hex_pair_range(f[2], f[3]);
    lemma_hex_pair_range(f[4], f[5]);
    lemma_hex_pair_range(g[0], g[1]);
    lemma_hex_pair_range(g[2], g[3]);
    lemma_hex_pair_range(g[4], g[5]);
    let (r1, g1, b1) = parse_hex_spec(from);
    let (r2, g2, b2) = parse_hex_spec(to);
    lemma_lerp_channel_monotone(r1, r2, t1, t2);
    lemma_lerp_channel_monotone(g1, g2, t1, t2);
    lemma_lerp_channel_monotone(b1, b2, t1, t2);
    lemma_lerp_channel_between(r1, r2, t1);
    lemma_lerp_channel_between(g1, g2, t1);
    lemma_lerp_channel_between(b1, b2, t1);
}

proof fn lemma_div_whole_ordered(x: int, y: int)
    ensures
        x <= y ==> x / 1000000 <= y / 1000000,
{
    if x <= y {
        vstd::arithmetic::div_mod::lemma_div_is_ordered(x, y, 1000000);
    }
}

/// A blend is written `#` and six lower-case hexadecimal digits.
pub proof fn lemma_lerp_color_shape(from: Seq<u8>, to: Seq<u8>, t: int)
    requires
        t >= 0,
    ensures
        lerp_color_spec(from, to, t).len() == 7,
        lerp_color_spec(from, to, t)[0] == '#',
        forall|i: int|
            1 <= i < 7 ==> {
                let c = #[trigger] lerp_color_spec(from, to, t)[i];
                ('0' <= c && c <= '9') || ('a' <= c && c <= 'f')
            },
{
    let (r1, g1, b1) = parse_hex_spec(from);
    let (r2, g2, b2) = parse_hex_spec(to);
    let p = clamp_fraction(t);
    lemma_lerp_bounds(r1, r2, p);
    lemma_lerp_bounds(g1, g2, p);
    lemma_lerp_bounds(b1, b2, p);
}

/// Every channel of a blend lies between the channels of the two colours.
pub proof fn lemma_lerp_channel_between(a: int, b: int, t: int)
    requires
        0 <= a < 256,
        0 <= b < 256,
        0 <= t,
    ensures
        a <= b ==> a <= lerp_channel(a, b, clamp_fraction(t)) <= b,
        b <= a ==> b <= lerp_channel(a, b, clamp_fraction(t)) <= a,
{
    lemma_lerp_bounds(a, b, clamp_fraction(t));
}

/// Where a title is drawn, its text stands right after the end of the
/// start tag and before `</text>`, whatever comes before and after.
proof fn lemma_title_text_in(t: TitleView, pre: Seq<char>, post: Seq<char>)
    requires
        t.text.len() > 0,
    ensures
        contains(pre + title_svg_spec(t) + post, seq!['>'] + t.text + "</text>"@),
{
    reveal_strlit("\">");
    reveal_strlit("</text>");
    let head = TITLE_OPEN@ + title_y(t.position) + TITLE_SIZE@ + decimal(t.size) + TITLE_FILL@
        + t.color + seq!['"'];
    let pat = seq!['>'] + t.text + "</text>"@;
    assert(TAG_END@ =~= seq!['"', '>']);
    assert(title_svg_spec(t) =~= head + pat);
    let whole = pre + title_svg_spec(t) + post;
    let k: int = pre.len() as int + head.len() as int;
    assert(whole.subrange(k, k + pat.len()) =~= pat);
    assert(occurs_at(whole, pat, k));
}

/// A mute button shows the text of a non-empty title.
pub proof fn lemma_mute_button_shows_title(icon_svg: Seq<char>, bg: Seq<char>, ic: Seq<char>, title: TitleView)
    requires
        title.text.len() > 0,
    ensures
        contains(mute_button_spec(icon_svg, bg, ic, title), seq!['>'] + title.text + "</text>"@),
{
    let pre = strip_close_spec(apply_colors_spec(icon_svg, bg, ic)) + LINE@;
    assert(mute_button_spec(icon_svg, bg, ic, title) =~= pre + title_svg_spec(title) + DOC_END@);
    lemma_title_text_in(title, pre, DOC_END@);
}

/// A volume bar button shows the text of a non-empty title.
pub proof fn lemma_volume_bar_shows_title(
    icon_svg: Seq<char>,
    bg: Seq<char>,
    ic: Seq<char>,
    bar: Seq<char>,
    volume: int,
    muted: bool,
    title: TitleView,
)
    requires
        title.text.len() > 0,
    ensures
        contains(
            volume_bar_spec(icon_svg, bg, ic, bar, volume, muted, title),
            seq!['>'] + title.text + "</text>"@,
        ),
{
    let whole = volume_bar_spec(icon_svg, bg, ic, bar, volume, muted, title);
    let pre = strip_close_spec(apply_colors_spec(icon_svg, bg, ic)) + LINE@;
    let post = whole.skip(pre.len() + title_svg_spec(title).len() as int);
    assert(whole =~= pre + title_svg_spec(title) + post);
    lemma_title_text_in(title, pre, post);
}

/// A volume button shows the text of a non-empty title.
pub proof fn lemma_volume_button_shows_title(
    icon_svg: Seq<char>,
    bg: Seq<char>,
    ic: Seq<char>,
    label: Seq<char>,
    title: TitleView,
)
    requires
        title.text.len() > 0,
    ensures
        contains(volume_button_spec(icon_svg, bg, ic, label, title), seq!['>'] + title.text + "</text>"@),
{
    let whole = volume_button_spec(icon_svg, bg, ic, label, title);
    let pre = strip_close_spec(apply_colors_spec(icon_svg, bg, ic)) + LINE@;
    let post = whole.skip(pre.len() + title_svg_spec(title).len() as int);
    assert(whole =~= pre + title_svg_spec(title) + post);
    lemma_title_text_in(title, pre, post);
}

/// The numbers a volume bar shows for a volume of `v` millionths. The bar
/// is 0 to 120 pixels wide: empty at or below zero, full at full volume
/// and above, and in between the whole number of pixels that `v` covers
/// of 120 (`v / 1000000 * 120` rounded down). The percentage is 0 at or
/// below zero and otherwise the whole percent nearest to `v` (halves up),
/// unless that exceeds `u32::MAX`, which is shown instead.
pub proof fn lemma_bar_numbers(v: int)
    ensures
        0 <= bar_width(v) <= 120,
        v <= 0 ==> bar_width(v) == 0,
        v >= 1000000 ==> bar_width(v) == 120,
        0 < v <= 1000000 ==> bar_width(v) * 1000000 <= v * 120 < (bar_width(v) + 1) * 1000000,
        v <= 0 ==> shown_percent(v) == 0,
        0 <= shown_percent(v) <= u32::MAX,
        0 < v && shown_percent(v) < u32::MAX ==> shown_percent(v) * 10000 - 5000 <= v
            < shown_percent(v) * 10000 + 5000,
{
    if 0 < v <= 1000000 {
        let w = v * 120 / 1000000;
        assert(w * 1000000 <= v * 120 < (w + 1) * 1000000) by (nonlinear_arith)
            requires
                w == v * 120 / 1000000,
                0 < v <= 1000000,
        ;
    }
}

} // verus!
