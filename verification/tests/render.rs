use reflective_pipewire::render::icons::{get, get_active, get_deactivated, Icon, IconData, IconSet};
use reflective_pipewire::actions::title_opts;
use reflective_pipewire::render::{
    apply_colors, base64_encode, color_is_sliceable, lerp_color, mute_button, parse_hex,
    svg_strip_close, svg_to_data_uri, title_svg, volume_bar, volume_button,
};

fn icon_set() -> IconSet {
    let names = [
        "mic", "headset", "headphones", "stereo", "jack", "dac", "apps", "discord", "obs",
        "twitch", "speaker", "mixer", "plus", "minus", "chevron_up", "chevron_down", "volume_up",
        "volume_down",
    ];
    let active: Vec<String> = names
        .iter()
        .map(|n| format!("<svg id=\"{n}\"><rect fill=\"#0a0a0a\"/><path fill=\"#ffffff\"/></svg>\n"))
        .collect();
    let deactivated: Vec<String> = names
        .iter()
        .map(|n| format!("<svg id=\"{n}-off\"><rect fill=\"#0a0a0a\"/></svg>"))
        .collect();
    IconSet::new(active, deactivated).unwrap()
}

#[test]
fn base64_known_values() {
    assert_eq!(base64_encode(b""), "");
    assert_eq!(base64_encode(b"hello"), "aGVsbG8=");
    assert_eq!(base64_encode(b"hell"), "aGVsbA==");
    assert_eq!(base64_encode(b"hel"), "aGVs");
    assert_eq!(base64_encode(&[0xff, 0xfe, 0xfd]), "//79");
    assert_eq!(base64_encode(&[0]), "AA==");
}

#[test]
fn base64_length_law() {
    for n in 0..20usize {
        let data: Vec<u8> = (0..n as u8).collect();
        assert_eq!(base64_encode(&data).len(), 4 * ((n + 2) / 3));
    }
}

#[test]
fn data_uri_of_svg() {
    assert_eq!(svg_to_data_uri("<svg/>"), "data:image/svg+xml;base64,PHN2Zy8+");
    assert_eq!(svg_to_data_uri(""), "data:image/svg+xml;base64,");
    // UTF-8 bytes are encoded, not characters
    assert_eq!(svg_to_data_uri("ö"), "data:image/svg+xml;base64,w7Y=");
}

#[test]
fn parse_hex_reads_channels() {
    assert_eq!(parse_hex("#22c55e"), (0x22, 0xc5, 0x5e));
    assert_eq!(parse_hex("22C55E"), (0x22, 0xc5, 0x5e));
    assert_eq!(parse_hex("###ff0000"), (255, 0, 0));
    assert_eq!(parse_hex("#+f+f+f"), (15, 15, 15));
    assert_eq!(parse_hex("#zz00gg"), (0, 0, 0));
    assert_eq!(parse_hex("#0a0b0c99"), (10, 11, 12));
}

#[test]
fn colors_that_cannot_be_sliced() {
    assert!(color_is_sliceable("#123456"));
    assert!(color_is_sliceable("123456789"));
    assert!(!color_is_sliceable("#fff"));
    assert!(!color_is_sliceable(""));
    // a cut after the second byte would fall inside `é`
    assert!(!color_is_sliceable("#aéaaaa"));
    // `é` takes two bytes, so every cut falls between characters
    assert!(color_is_sliceable("#ééé"));
    assert_eq!(parse_hex("#ééé"), (0, 0, 0));
}

#[test]
fn lerp_color_endpoints_and_middle() {
    assert_eq!(lerp_color("#000000", "#ffffff", 0), "#000000");
    assert_eq!(lerp_color("#000000", "#ffffff", 1_000_000), "#ffffff");
    assert_eq!(lerp_color("#000000", "#ffffff", 1_500_000), "#ffffff");
    assert_eq!(lerp_color("#000000", "#ffffff", 500_000), "#7f7f7f");
    assert_eq!(lerp_color("#ef4444", "#22c55e", 0), "#ef4444");
    assert_eq!(lerp_color("#ef4444", "#22c55e", 1_000_000), "#22c55e");
    assert_eq!(lerp_color("#AABBCC", "#000000", 0), "#aabbcc");
    // 0xef + (0x22 - 0xef) * 0.5 = 136.5, rounded toward zero
    assert_eq!(lerp_color("#ef4444", "#22c55e", 500_000), "#888451");
}

#[test]
fn lerp_channels_stay_between() {
    for t in 0..=120u64 {
        let c = lerp_color("#102030", "#f0e0d0", t * 10_000 + 7);
        let (r, g, b) = parse_hex(&c);
        assert!((0x10..=0xf0).contains(&r));
        assert!((0x20..=0xe0).contains(&g));
        assert!((0x30..=0xd0).contains(&b));
    }
}

#[test]
fn lerp_moves_towards_the_target() {
    let dist = |a: u8, b: u8| (a as i32 - b as i32).abs();
    for (from, to) in [("#102030", "#f0e0d0"), ("#ef4444", "#22c55e"), ("#ffffff", "#000000")] {
        let target = parse_hex(to);
        for t1 in 0..=110u64 {
            for t2 in t1..=110u64 {
                let a = parse_hex(&lerp_color(from, to, t1 * 10_000));
                let b = parse_hex(&lerp_color(from, to, t2 * 10_000));
                assert!(dist(b.0, target.0) <= dist(a.0, target.0));
                assert!(dist(b.1, target.1) <= dist(a.1, target.1));
                assert!(dist(b.2, target.2) <= dist(a.2, target.2));
            }
        }
    }
}

#[test]
fn lerp_gives_lowercase_hex() {
    let c = lerp_color("#AABBCC", "#FFFFFF", 400_000);
    assert_eq!(c.len(), 7);
    assert!(c.starts_with('#'));
    assert!(c[1..].chars().all(|ch| ch.is_ascii_digit() || ('a'..='f').contains(&ch)));
}

#[test]
fn base64_uses_its_alphabet() {
    for n in 0..40usize {
        let data: Vec<u8> = (0..n).map(|i| (i * 97 + 200) as u8).collect();
        let enc = base64_encode(&data);
        let body = enc.trim_end_matches('=');
        assert!(enc.len() - body.len() <= 2);
        assert!(body.chars().all(|c| c.is_ascii_alphanumeric() || c == '+' || c == '/'));
    }
}

#[test]
fn apply_colors_replaces_defaults() {
    let svg = "<rect fill=\"#0a0a0a\"/><path fill=\"#ffffff\"/><path fill=\"#ffffff\"/>";
    assert_eq!(
        apply_colors(svg, "#111111", "#222222"),
        "<rect fill=\"#111111\"/><path fill=\"#222222\"/><path fill=\"#222222\"/>"
    );
    assert_eq!(apply_colors("no colours", "#111111", "#222222"), "no colours");
}

#[test]
fn apply_colors_never_repaints_a_new_background() {
    assert_eq!(apply_colors("#0a0a0a|#ffffff", "#ffffff", "#ff0000"), "#ffffff|#ff0000");
    assert_eq!(apply_colors("#ffffff#0a0a0a", "#ffffff", "#0a0a0a"), "#0a0a0a#ffffff");
    assert_eq!(apply_colors("#0a0a0a#0a0a0a", "#0a0a0", "#123456"), "#0a0a0#0a0a0");
}

#[test]
fn strip_close_removes_trailing_tags() {
    assert_eq!(svg_strip_close("<svg>x</svg>\n  "), "<svg>x");
    assert_eq!(svg_strip_close("<svg></svg></svg>"), "<svg>");
    assert_eq!(svg_strip_close("<svg>"), "<svg>");
    assert_eq!(svg_strip_close("</svg> </svg>"), "</svg> ");
}

#[test]
fn title_element() {
    assert_eq!(title_svg(&title_opts("", "#fff", 14, "top", 0, 0)), "");
    assert_eq!(
        title_svg(&title_opts("Mic", "#22c55e", 14, "top", 0, 0)),
        "<text x=\"72\" y=\"18\" text-anchor=\"middle\" font-family=\"sans-serif\" font-size=\"14\" font-weight=\"bold\" fill=\"#22c55e\">Mic</text>"
    );
    assert_eq!(
        title_svg(&title_opts("Out", "#ffffff", 22, "bottom", 2, 16)),
        "<text x=\"72\" y=\"140\" text-anchor=\"middle\" font-family=\"sans-serif\" font-size=\"22\" font-weight=\"bold\" fill=\"#ffffff\">Out</text>"
    );
    assert_eq!(
        title_svg(&title_opts("Out", "#ffffff", 9, "label", 2, 16)),
        "<text x=\"72\" y=\"18\" text-anchor=\"middle\" font-family=\"sans-serif\" font-size=\"9\" font-weight=\"bold\" fill=\"#ffffff\">Out</text>"
    );
}

#[test]
fn icon_lookup() {
    assert_eq!(get_active("headset"), IconData { icon: Icon::Headset, active: true });
    assert_eq!(get_deactivated("obs"), IconData { icon: Icon::Obs, active: false });
    assert_eq!(get("nonsense", true), IconData { icon: Icon::Mic, active: true });
    assert_eq!(get("mixer", false), get_deactivated("mixer"));
    assert_eq!(Icon::Twitch.name(), "twitch");
    assert_eq!(Icon::Dac.index(), 5);
}

#[test]
fn icon_set_needs_every_icon() {
    assert!(IconSet::new(vec![], vec![]).is_none());
    let all: Vec<String> = (0..18).map(|i| i.to_string()).collect();
    let short: Vec<String> = (0..17).map(|i| i.to_string()).collect();
    assert!(IconSet::new(all.clone(), short).is_none());
    let set = IconSet::new(all.clone(), all).unwrap();
    assert_eq!(set.svg(IconData { icon: Icon::Speaker, active: true }), "10");
    assert_eq!(set.svg(IconData { icon: Icon::VolumeDown, active: false }), "17");
}

#[test]
fn mute_button_svg() {
    let icons = icon_set();
    assert_eq!(
        mute_button(&icons, "#000000", "#22c55e", "headset", false, &title_opts("", "#22c55e", 14, "top", 0, 0)),
        "<svg id=\"headset\"><rect fill=\"#000000\"/><path fill=\"#22c55e\"/>\n  \n</svg>"
    );
    assert_eq!(
        mute_button(&icons, "#000000", "#ef4444", "headset", true, &title_opts("Hi", "#ef4444", 14, "top", 0, 0)),
        "<svg id=\"headset-off\"><rect fill=\"#000000\"/>\n  <text x=\"72\" y=\"18\" text-anchor=\"middle\" font-family=\"sans-serif\" font-size=\"14\" font-weight=\"bold\" fill=\"#ef4444\">Hi</text>\n</svg>"
    );
}

#[test]
fn volume_bar_svg() {
    let icons = icon_set();
    let svg = volume_bar(&icons, "#000000", "#ffffff", "#00ff00", "mic", 450_000, false, &title_opts("", "#ffffff", 14, "label", 2, 16));
    assert_eq!(
        svg,
        "<svg id=\"mic\"><rect fill=\"#000000\"/><path fill=\"#ffffff\"/>\n  \n  <text x=\"72\" y=\"112\" text-anchor=\"middle\" font-family=\"sans-serif\" font-size=\"18\" font-weight=\"bold\" fill=\"#ffffff\" opacity=\"1.0\">45%</text>\n  <rect x=\"12\" y=\"120\" width=\"120\" height=\"12\" rx=\"6\" fill=\"#ffffff\" opacity=\"0.12\"/>\n  <rect x=\"12\" y=\"120\" width=\"54\" height=\"12\" rx=\"6\" fill=\"#00ff00\" opacity=\"1.0\"/>\n</svg>"
    );
    let loud = volume_bar(&icons, "#000000", "#ffffff", "#00ff00", "mic", 1_500_000, true, &title_opts("", "#ffffff", 14, "label", 2, 16));
    assert!(loud.contains(">150%</text>"));
    assert!(loud.contains("width=\"120\" height=\"12\" rx=\"6\" fill=\"#00ff00\" opacity=\"0.3\""));
    assert!(loud.contains("opacity=\"0.5\">150%"));
    assert!(loud.starts_with("<svg id=\"mic-off\">"));
    let t = title_opts("", "#ffffff", 14, "label", 2, 16);
    let half = volume_bar(&icons, "#000000", "#ffffff", "#00ff00", "mic", 505_000, false, &t);
    assert!(half.contains(">51%</text>"));
    assert!(half.contains("width=\"60\" height=\"12\" rx=\"6\" fill=\"#00ff00\""));
    let below = volume_bar(&icons, "#000000", "#ffffff", "#00ff00", "mic", -250_000, false, &t);
    assert!(below.contains(">0%</text>"));
    assert!(below.contains("width=\"0\" height=\"12\" rx=\"6\" fill=\"#00ff00\""));
    let huge = volume_bar(&icons, "#000000", "#ffffff", "#00ff00", "mic", 1_000_000_000_000_000, false, &t);
    assert!(huge.contains(">4294967295%</text>"));
    assert!(huge.contains("width=\"120\" height=\"12\" rx=\"6\" fill=\"#00ff00\""));
    let just = volume_bar(&icons, "#000000", "#ffffff", "#00ff00", "mic", 1_005_000, false, &t);
    assert!(just.contains(">101%</text>"));
}

#[test]
fn volume_button_svg() {
    let icons = icon_set();
    assert_eq!(
        volume_button(&icons, "#000000", "#22c55e", "speaker", "+5%", &title_opts("", "#22c55e", 14, "top", 0, 0)),
        "<svg id=\"speaker\"><rect fill=\"#000000\"/><path fill=\"#22c55e\"/>\n  \n  <text x=\"72\" y=\"126\" text-anchor=\"middle\" font-family=\"sans-serif\" font-size=\"20\" font-weight=\"bold\" fill=\"#22c55e\">+5%</text>\n</svg>"
    );
}

fn decode_base64(s: &str) -> Vec<u8> {
    let value = |c: u8| -> u32 {
        match c {
            b'A'..=b'Z' => (c - b'A') as u32,
            b'a'..=b'z' => (c - b'a' + 26) as u32,
            b'0'..=b'9' => (c - b'0' + 52) as u32,
            b'+' => 62,
            _ => 63,
        }
    };
    let mut out = vec![];
    for q in s.as_bytes().chunks(4) {
        let n = (value(q[0]) << 18) | (value(q[1]) << 12)
            | (if q[2] == b'=' { 0 } else { value(q[2]) << 6 })
            | (if q[3] == b'=' { 0 } else { value(q[3]) });
        out.push((n >> 16) as u8);
        if q[2] != b'=' {
            out.push((n >> 8) as u8);
        }
        if q[3] != b'=' {
            out.push(n as u8);
        }
    }
    out
}

#[test]
fn base64_decodes_back() {
    for n in 0..40usize {
        let data: Vec<u8> = (0..n).map(|i| (i * 37 + 11) as u8).collect();
        assert_eq!(decode_base64(&base64_encode(&data)), data);
    }
}

#[test]
fn data_uri_carries_the_svg_bytes() {
    let svg = "<svg><text>Kopfhörer 100%</text></svg>";
    let uri = svg_to_data_uri(svg);
    let body = uri.strip_prefix("data:image/svg+xml;base64,").unwrap();
    assert_eq!(decode_base64(body), svg.as_bytes());
}

#[test]
fn icon_names_select_their_icons() {
    let list = reflective_pipewire::render::icons::available();
    assert_eq!(list.len(), 18);
    assert_eq!(list[17], ("volume_down", "Volume Down"));
    assert_eq!(list[2], ("headphones", "Kopfhörer"));
    for (i, (name, _label)) in list.iter().enumerate() {
        let icon = get_active(name).icon;
        assert_eq!(icon.index(), i);
        assert_eq!(icon.name(), *name);
    }
}
