use reflective_pipewire::actions::mute_toggle::{self, MuteToggleSettings};
use reflective_pipewire::actions::volume_button::{self, VolumeButtonMode, VolumeButtonSettings};
use reflective_pipewire::actions::volume_display::{self, VolumeDisplaySettings};
use reflective_pipewire::actions::volume_down::{self, VolumeDownSettings};
use reflective_pipewire::actions::volume_knob::{self, VolumeKnobSettings};
use reflective_pipewire::actions::{color_setting_ok, state_color, title_opts, AudioAction};
use reflective_pipewire::render::icons::IconSet;
use reflective_pipewire::render::{mute_button, svg_to_data_uri, volume_bar, volume_button};

fn icon_set() -> IconSet {
    let active: Vec<String> = (0..18).map(|i| format!("<svg a{i} fill=\"#ffffff\" bg=\"#0a0a0a\"></svg>")).collect();
    let off: Vec<String> = (0..18).map(|i| format!("<svg d{i} fill=\"#ffffff\"></svg>")).collect();
    IconSet::new(active, off).unwrap()
}

#[test]
fn title_options() {
    let t = title_opts("Mic", "#fff", 14, "top", 2, 16);
    assert_eq!(t.text, "Mic");
    assert_eq!(t.color, "#fff");
    assert_eq!(t.size, 14);
    assert_eq!(t.position, "top");
    assert_eq!(t.max_lines, 2);
    assert_eq!(t.max_chars, 16);
}

#[test]
fn state_colors() {
    assert_eq!(state_color(false, 500_000, false, "#ff0000", "#00ff00"), "#00ff00");
    assert_eq!(state_color(true, 1_000_000, false, "#ff0000", "#00ff00"), "#00ff00");
    assert_eq!(state_color(true, 1_500_000, false, "#ff0000", "#00ff00"), "#00ff00");
    assert_eq!(state_color(true, 1_000_000, true, "#ff0000", "#00ff00"), "#ff0000");
    assert_eq!(state_color(true, 0, false, "#ff0000", "#00ff00"), "#ff0000");
    assert_eq!(state_color(true, 500_000, false, "#ff0000", "#00ff00"), "#7f7f00");
    assert!(color_setting_ok("#22c55e"));
    assert!(!color_setting_ok("red"));
}

#[test]
fn defaults() {
    let m = MuteToggleSettings::default();
    assert_eq!(m.device_id, "@DEFAULT_AUDIO_SOURCE@");
    assert_eq!(m.icon, "mic");
    assert_eq!(m.icon_color, "#22c55e");
    assert_eq!(m.icon_muted_color, "#ef4444");
    assert!(m.react_to_state);
    let b = VolumeButtonSettings::default();
    assert_eq!(b.mode, VolumeButtonMode::Up);
    assert_eq!(VolumeButtonMode::default(), VolumeButtonMode::Up);
    assert_eq!((b.step, b.value), (5, 50));
    assert!(!b.react_to_state);
    let d = VolumeDownSettings::default();
    assert_eq!(d.icon, "volume_down");
    assert!(d.auto_device_title);
    let k = VolumeKnobSettings::default();
    assert_eq!(k.bar_color, "#22c55e");
    assert_eq!(k.step, 5);
    let v = VolumeDisplaySettings::default();
    assert_eq!((v.title_max_lines, v.title_max_chars), (2, 16));
    assert_eq!(v.bar_color, "#22c55e");
    assert_eq!((v.title_color.as_str(), v.title_size), ("#ffffff", 14));
    assert!(v.title_enabled);
}

#[test]
fn mute_toggle_behaviour() {
    let icons = icon_set();
    let s = MuteToggleSettings::default();
    match mute_toggle::key_up(&s) {
        AudioAction::ToggleMute { device_id } => assert_eq!(device_id, "@DEFAULT_AUDIO_SOURCE@"),
        other => panic!("unexpected {other:?}"),
    }
    assert!(mute_toggle::watches(&s, "@DEFAULT_AUDIO_SOURCE@"));
    assert!(!mute_toggle::watches(&s, "31"));
    let none = title_opts("", "#ffffff", 14, "top", 0, 0);
    let img = mute_toggle::button_image(&icons, &s, 1_000_000, false);
    let expected = svg_to_data_uri(&mute_button(&icons, "#000000", "#22c55e", "mic", false, &none));
    assert_eq!(img, expected);
    let muted = mute_toggle::button_image(&icons, &s, 1_000_000, true);
    let expected = svg_to_data_uri(&mute_button(&icons, "#000000", "#ef4444", "mic", true, &none));
    assert_eq!(muted, expected);
    let mut t = s.clone();
    t.title = "Mic".into();
    t.title_color = "#abcdef".into();
    t.title_size = 20;
    t.title_position = "bottom".into();
    let img = mute_toggle::button_image(&icons, &t, 1_000_000, false);
    let titled = title_opts("Mic", "#abcdef", 20, "bottom", 0, 0);
    let expected = svg_to_data_uri(&mute_button(&icons, "#000000", "#22c55e", "mic", false, &titled));
    assert_eq!(img, expected);
    let text = mute_button(&icons, "#000000", "#22c55e", "mic", false, &titled);
    assert!(text.contains("y=\"140\""));
    assert!(text.contains("font-size=\"20\""));
    assert!(text.contains("fill=\"#abcdef\">Mic</text>"));
}

#[test]
fn volume_button_behaviour() {
    let icons = icon_set();
    let mut s = VolumeButtonSettings::default();
    assert_eq!(volume_button::button_label(&s), "+5%");
    match volume_button::key_up(&s) {
        AudioAction::Adjust { delta, .. } => assert_eq!(delta, "5%+"),
        other => panic!("unexpected {other:?}"),
    }
    s.mode = VolumeButtonMode::Down;
    s.step = 10;
    assert_eq!(volume_button::button_label(&s), "-10%");
    match volume_button::key_up(&s) {
        AudioAction::Adjust { delta, .. } => assert_eq!(delta, "10%-"),
        other => panic!("unexpected {other:?}"),
    }
    s.mode = VolumeButtonMode::SetTo;
    assert_eq!(volume_button::button_label(&s), "50%");
    match volume_button::key_up(&s) {
        AudioAction::SetVolume { percent, device_id } => {
            assert_eq!(percent, 50);
            assert_eq!(device_id, "@DEFAULT_AUDIO_SOURCE@");
        }
        other => panic!("unexpected {other:?}"),
    }
    assert!(!volume_button::redraws_on_refresh(&s));
    assert!(!volume_button::watches(&s, "@DEFAULT_AUDIO_SOURCE@"));
    s.react_to_state = true;
    assert!(volume_button::watches(&s, "@DEFAULT_AUDIO_SOURCE@"));
    let img = volume_button::button_image(&icons, &s, 0, true);
    let none = title_opts("", "#ef4444", 14, "top", 0, 0);
    let expected = svg_to_data_uri(&volume_button(&icons, "#000000", "#ef4444", "mic", "50%", &none));
    assert_eq!(img, expected);
}

#[test]
fn volume_down_behaviour() {
    let icons = icon_set();
    let mut s = VolumeDownSettings::default();
    assert_eq!(volume_down::button_label(&s), "-5%");
    match volume_down::key_up(&s) {
        AudioAction::Adjust { delta, device_id } => {
            assert_eq!(delta, "5%-");
            assert_eq!(device_id, "@DEFAULT_AUDIO_SOURCE@");
        }
        other => panic!("unexpected {other:?}"),
    }
    assert!(volume_down::needs_device_name(&s));
    let img = volume_down::button_image(&icons, &s, 300_000, false, "Default Source");
    let name = title_opts("Default Source", "#ffffff", 14, "bottom", 0, 0);
    let expected = svg_to_data_uri(&volume_button(&icons, "#000000", "#22c55e", "volume_down", "-5%", &name));
    assert_eq!(img, expected);
    s.auto_device_title = false;
    s.title = "Mine".into();
    s.title_color = "#123456".into();
    s.title_size = 11;
    let img = volume_down::button_image(&icons, &s, 300_000, false, "ignored");
    let mine = title_opts("Mine", "#123456", 11, "top", 0, 0);
    let expected = svg_to_data_uri(&volume_button(&icons, "#000000", "#22c55e", "volume_down", "-5%", &mine));
    assert_eq!(img, expected);
    assert!(!volume_down::watches(&s, "@DEFAULT_AUDIO_SOURCE@"));
}

#[test]
fn volume_knob_behaviour() {
    let icons = icon_set();
    let s = VolumeKnobSettings::default();
    match volume_knob::dial_rotate(&s, 3) {
        AudioAction::Adjust { delta, .. } => assert_eq!(delta, "15%+"),
        other => panic!("unexpected {other:?}"),
    }
    match volume_knob::dial_rotate(&s, -3) {
        AudioAction::Adjust { delta, .. } => assert_eq!(delta, "15%-"),
        other => panic!("unexpected {other:?}"),
    }
    match volume_knob::dial_rotate(&s, 0) {
        AudioAction::Adjust { delta, .. } => assert_eq!(delta, "0%-"),
        other => panic!("unexpected {other:?}"),
    }
    match volume_knob::dial_up(&s) {
        AudioAction::ToggleMute { device_id } => assert_eq!(device_id, "@DEFAULT_AUDIO_SOURCE@"),
        other => panic!("unexpected {other:?}"),
    }
    assert!(volume_knob::watches(&s, "@DEFAULT_AUDIO_SOURCE@"));
    let img = volume_knob::knob_image(&icons, &s, 450_000, false);
    let bg = state_color(true, 450_000, false, "#000000", "#000000");
    let ic = state_color(true, 450_000, false, "#ef4444", "#22c55e");
    let bar = state_color(true, 450_000, false, "#ef4444", "#22c55e");
    let none = title_opts("", &ic, 14, "top", 0, 0);
    let expected = svg_to_data_uri(&volume_bar(&icons, &bg, &ic, &bar, "mic", 450_000, false, &none));
    assert_eq!(img, expected);
}

#[test]
fn volume_display_behaviour() {
    let icons = icon_set();
    let mut s = VolumeDisplaySettings::default();
    assert!(volume_display::needs_device_name(&s));
    assert_eq!(volume_display::display_title(&s, "Default Source"), "Default Source");
    s.title = "Mic".into();
    assert!(!volume_display::needs_device_name(&s));
    assert_eq!(volume_display::display_title(&s, "Default Source"), "Mic");
    s.title_enabled = false;
    assert_eq!(volume_display::display_title(&s, "Default Source"), "");
    s.react_to_state = false;
    let img = volume_display::display_image(&icons, &s, 800_000, true, "x");
    let off = title_opts("", "#ffffff", 14, "label", 2, 16);
    let expected = svg_to_data_uri(&volume_bar(&icons, "#000000", "#22c55e", "#22c55e", "mic", 800_000, true, &off));
    assert_eq!(img, expected);
    s.title_enabled = true;
    s.title_color = "#fedcba".into();
    s.title_size = 18;
    s.bar_color = "#0000ff".into();
    let img = volume_display::display_image(&icons, &s, 800_000, false, "x");
    let titled = title_opts("Mic", "#fedcba", 18, "label", 2, 16);
    let expected = svg_to_data_uri(&volume_bar(&icons, "#000000", "#22c55e", "#0000ff", "mic", 800_000, false, &titled));
    assert_eq!(img, expected);
    assert!(volume_display::watches(&s, "@DEFAULT_AUDIO_SOURCE@"));
}

#[test]
fn state_colors_at_the_ends() {
    // muted: the muted colour, written back in lower case
    assert_eq!(state_color(true, 1_000_000, true, "#EF4444", "#22C55E"), "#ef4444");
    assert_eq!(state_color(true, 1_300_000, true, "#EF4444", "#22C55E"), "#ef4444");
    // live at full volume: the active colour
    assert_eq!(state_color(true, 1_000_000, false, "#EF4444", "#22C55E"), "#22c55e");
    // not following the state: the active colour exactly as set
    assert_eq!(state_color(false, 1_000_000, true, "#EF4444", "#22C55E"), "#22C55E");
}

#[test]
fn state_colors_follow_fine_volumes() {
    // a volume just past half moves the blend just past the middle
    assert_eq!(state_color(true, 505_000, false, "#000000", "#ffffff"), "#808080");
    // below zero the blend stays at the muted colour
    assert_eq!(state_color(true, -250_000, false, "#ff0000", "#00ff00"), "#ff0000");
    // far above full volume the active colour
    assert_eq!(state_color(true, 1_000_000_000_000_000, false, "#ff0000", "#00ff00"), "#00ff00");
}
