use reflective_pipewire::audio::devices::{
    default_device_name, devices_from_nodes, get_device_name, parse_devices, pw_dump_nodes_of,
    AudioDevice, PwNode,
};
use reflective_pipewire::audio::monitor::{line_events_of, AudioEvent};
use reflective_pipewire::audio::{
    adjust_volume_target, find_node_id, format_volume, invalidate_all_id_caches,
    invalidate_id_cache, is_direct_id, parse_scaled, parse_volume_token, parse_wpctl_volume, resolve_from_dump,
    resolve_known_id, wpctl_args, IdCache, WpctlCommand,
};

const DUMP: &str = r#"[
  {"id": 30, "type": "PipeWire:Interface:Node", "info": {"props": {"node.name": "alsa_input.usb-mic", "media.class": "Audio/Source", "node.nick": "USB Mic", "node.description": "USB Microphone"}}},
  {"id": 31, "info": {"props": {"node.name": "alsa_output.pci", "media.class": "Audio/Sink", "node.nick": "Speakers"}}},
  {"id": 32, "info": {"props": {"node.name": "bluez_output", "media.class": "Audio/Sink"}}},
  {"id": 33, "info": {"props": {"media.class": "Stream/Output/Audio"}}},
  {"info": {"props": {"node.name": "no-id", "media.class": "Audio/Sink"}}},
  {"id": 34, "info": {"props": {"node.name": "alsa_input.usb-mic", "media.class": "Audio/Source/Virtual", "node.nick": 5}}},
  {"id": 35}
]"#;

#[test]
fn wpctl_volume_output() {
    assert_eq!(parse_wpctl_volume("Volume: 0.45\n"), (450000, false));
    assert_eq!(parse_wpctl_volume("Volume: 0.45 [MUTED]\n"), (450000, true));
    assert_eq!(parse_wpctl_volume("Volume: 1.50\n"), (1500000, false));
    assert_eq!(parse_wpctl_volume("Volume: 1.5\n"), (1500000, false));
    assert_eq!(parse_wpctl_volume("Volume: 1.005\n"), (1005000, false));
    assert_eq!(parse_wpctl_volume("Volume: .5\n"), (500000, false));
    assert_eq!(parse_wpctl_volume("Volume: 2\n"), (2000000, false));
    assert_eq!(parse_wpctl_volume(""), (0, false));
    assert_eq!(parse_wpctl_volume("Volume:"), (0, false));
    assert_eq!(parse_wpctl_volume("Volume: abc [MUTED]"), (0, true));
    assert_eq!(parse_wpctl_volume("Volume: 1.2.3"), (0, false));
    assert_eq!(parse_wpctl_volume("Volume: ."), (0, false));
    assert_eq!(parse_wpctl_volume("Volume: 99999999999"), (1_000_000_000_000_000, false));
    assert_eq!(parse_wpctl_volume("Volume: -0.25"), (-250000, false));
}

#[test]
fn volume_tokens() {
    let tok = |s: &str| s.chars().collect::<Vec<char>>();
    assert_eq!(parse_volume_token(&tok("0.07")), 70000);
    assert_eq!(parse_volume_token(&tok("+0.30")), 300000);
    assert_eq!(parse_volume_token(&tok("3.")), 3000000);
    assert_eq!(parse_volume_token(&tok("0.1234567")), 123456);
    assert_eq!(parse_volume_token(&tok("-0")), 0);
    assert_eq!(parse_volume_token(&tok("")), 0);
    assert_eq!(parse_volume_token(&tok("+")), 0);
    assert_eq!(parse_volume_token(&tok("-")), 0);
    assert_eq!(parse_volume_token(&tok("+-1")), 0);
    assert_eq!(parse_volume_token(&tok("999999999.999999")), 999_999_999_999_999);
    assert_eq!(parse_volume_token(&tok("1000000000.000001")), 1_000_000_000_000_000);
    assert_eq!(parse_volume_token(&tok("-123456789012345678901234567890")), -1_000_000_000_000_000);
}

#[test]
fn scaled_numbers() {
    let tok = |s: &str| s.chars().collect::<Vec<char>>();
    assert_eq!(parse_scaled(&tok("5.5"), 4), Some(55000));
    assert_eq!(parse_scaled(&tok("-5"), 4), Some(-50000));
    assert_eq!(parse_scaled(&tok("12"), 0), Some(12));
    assert_eq!(parse_scaled(&tok("1.99"), 0), Some(1));
    assert_eq!(parse_scaled(&tok("x"), 4), None);
    assert_eq!(parse_scaled(&tok("1e3"), 4), None);
}

#[test]
fn volume_text_is_two_decimals_and_capped() {
    assert_eq!(format_volume(45), "0.45");
    assert_eq!(format_volume(7), "0.07");
    assert_eq!(format_volume(0), "0.00");
    assert_eq!(format_volume(100), "1.00");
    assert_eq!(format_volume(150), "1.50");
    assert_eq!(format_volume(200), "1.50");
    assert_eq!(format_volume(u32::MAX), "1.50");
}

#[test]
fn written_volume_reads_back() {
    for p in [0u32, 1, 9, 45, 99, 100, 101, 149, 150, 151, 1000] {
        let out = format!("Volume: {}\n", format_volume(p));
        assert_eq!(parse_wpctl_volume(&out), (p.min(150) as i64 * 10000, false));
        let muted = format!("Volume: {} [MUTED]\n", format_volume(p));
        assert_eq!(parse_wpctl_volume(&muted), (p.min(150) as i64 * 10000, true));
    }
}

#[test]
fn relative_changes() {
    assert_eq!(adjust_volume_target(450000, "5%+"), 50);
    assert_eq!(adjust_volume_target(450000, "5%-"), 40);
    assert_eq!(adjust_volume_target(30000, "5%-"), 0);
    assert_eq!(adjust_volume_target(450000, "x%+"), 45);
    assert_eq!(adjust_volume_target(450000, "%+"), 45);
    assert_eq!(adjust_volume_target(450000, "5"), 40);
    assert_eq!(adjust_volume_target(450000, "10%%+-+"), 55);
    assert_eq!(adjust_volume_target(i64::MAX, "5%+"), 150);
    assert_eq!(adjust_volume_target(i64::MIN, "5%-"), 0);
    assert_eq!(adjust_volume_target(1400000, "20%+"), 150);
}

#[test]
fn fractional_and_signed_changes() {
    assert_eq!(adjust_volume_target(450000, "5.25%+"), 50);
    assert_eq!(adjust_volume_target(450000, "2.75%-"), 42);
    assert_eq!(adjust_volume_target(450000, "-5%+"), 40);
    assert_eq!(adjust_volume_target(450000, "-5%-"), 50);
    assert_eq!(adjust_volume_target(1005000, "0%+"), 101);
    assert_eq!(adjust_volume_target(-250000, "5%+"), 0);
}

#[test]
fn step_up_then_down_returns() {
    for v in [0u32, 10, 45, 145] {
        let up = adjust_volume_target(v as i64 * 10000, "5%+");
        assert_eq!(up, v + 5);
        let down = adjust_volume_target(up as i64 * 10000, "5%-");
        assert_eq!(down, v);
    }
    // beyond the maximum the step up is cut short
    let up = adjust_volume_target(1480000, "5%+");
    assert_eq!(up, 150);
    assert_eq!(adjust_volume_target(up as i64 * 10000, "5%-"), 145);
}

#[test]
fn wpctl_command_lines() {
    assert_eq!(wpctl_args(WpctlCommand::GetVolume, "42"), vec!["get-volume", "42"]);
    assert_eq!(wpctl_args(WpctlCommand::SetVolume(45), "42"), vec!["set-volume", "42", "0.45"]);
    assert_eq!(wpctl_args(WpctlCommand::SetVolume(500), "42"), vec!["set-volume", "42", "1.50"]);
    assert_eq!(wpctl_args(WpctlCommand::ToggleMute, "@DEFAULT_AUDIO_SINK@"), vec!["set-mute", "@DEFAULT_AUDIO_SINK@", "toggle"]);
    assert_eq!(wpctl_args(WpctlCommand::SetMute(true), "7"), vec!["set-mute", "7", "1"]);
    assert_eq!(wpctl_args(WpctlCommand::SetMute(false), "7"), vec!["set-mute", "7", "0"]);
}

#[test]
fn direct_ids() {
    assert!(is_direct_id("@DEFAULT_AUDIO_SINK@"));
    assert!(is_direct_id("@"));
    assert!(is_direct_id("42"));
    assert!(is_direct_id("+42"));
    assert!(is_direct_id("18446744073709551615"));
    assert!(!is_direct_id("18446744073709551616"));
    assert!(!is_direct_id("alsa_output.pci"));
    assert!(!is_direct_id(""));
    assert!(!is_direct_id("+"));
    assert!(!is_direct_id("-1"));
}

#[test]
fn pw_dump_parsing() {
    let nodes = pw_dump_nodes_of(DUMP).unwrap();
    assert_eq!(nodes.len(), 7);
    assert_eq!(nodes[0].id, Some(30));
    assert_eq!(nodes[0].node_name.as_deref(), Some("alsa_input.usb-mic"));
    assert_eq!(nodes[5].nick, None);
    assert_eq!(nodes[6].media_class, None);
    assert!(pw_dump_nodes_of("not json").is_none());
    assert!(pw_dump_nodes_of("{\"a\": 1}").is_none());
    assert_eq!(pw_dump_nodes_of("[]").unwrap().len(), 0);
}

#[test]
fn node_lookup() {
    let nodes = pw_dump_nodes_of(DUMP).unwrap();
    assert_eq!(find_node_id(&nodes, "alsa_input.usb-mic"), Some(30));
    assert_eq!(find_node_id(&nodes, "bluez_output"), Some(32));
    assert_eq!(find_node_id(&nodes, "no-id"), None);
    assert_eq!(find_node_id(&nodes, "missing"), None);
}

#[test]
fn id_resolution_and_cache() {
    let mut cache = IdCache::new();
    assert_eq!(resolve_known_id(&cache, "@DEFAULT_AUDIO_SOURCE@").as_deref(), Some("@DEFAULT_AUDIO_SOURCE@"));
    assert_eq!(resolve_known_id(&cache, "57").as_deref(), Some("57"));
    assert_eq!(resolve_known_id(&cache, "alsa_output.pci"), None);
    assert_eq!(resolve_from_dump(&mut cache, "alsa_output.pci", Some(DUMP)), "31");
    assert_eq!(resolve_known_id(&cache, "alsa_output.pci").as_deref(), Some("31"));
    assert_eq!(cache.lookup("alsa_output.pci").as_deref(), Some("31"));
    // the resolved id is direct itself
    assert!(is_direct_id("31"));
    // nothing found: the id itself, nothing remembered
    assert_eq!(resolve_from_dump(&mut cache, "unknown", Some(DUMP)), "unknown");
    assert_eq!(cache.lookup("unknown"), None);
    assert_eq!(resolve_from_dump(&mut cache, "unknown", None), "unknown");
    assert_eq!(resolve_from_dump(&mut cache, "unknown", Some("garbage")), "unknown");
    invalidate_id_cache(&mut cache, "alsa_output.pci");
    assert_eq!(resolve_known_id(&cache, "alsa_output.pci"), None);
    assert_eq!(resolve_from_dump(&mut cache, "bluez_output", Some(DUMP)), "32");
    assert_eq!(resolve_from_dump(&mut cache, "alsa_input.usb-mic", Some(DUMP)), "30");
    invalidate_all_id_caches(&mut cache);
    assert_eq!(cache.lookup("bluez_output"), None);
    assert_eq!(cache.lookup("alsa_input.usb-mic"), None);
}

#[test]
fn device_lists() {
    let sinks = parse_devices(DUMP, "sinks", "sink");
    assert_eq!(sinks.len(), 2);
    assert_eq!(sinks[0].id, "31");
    assert_eq!(sinks[0].name, "Speakers");
    assert_eq!(sinks[0].description, "Speakers");
    assert_eq!(sinks[0].kind, "sink");
    assert_eq!(sinks[1].id, "32");
    assert_eq!(sinks[1].name, "Unknown");
    assert_eq!(sinks[1].description, "Unknown");
    let sources = parse_devices(DUMP, "sources", "source");
    assert_eq!(sources.len(), 2);
    assert_eq!(sources[0].id, "30");
    assert_eq!(sources[0].name, "USB Mic");
    assert_eq!(sources[0].description, "USB Microphone");
    assert_eq!(sources[1].id, "34");
    assert_eq!(sources[1].name, "Unknown");
    assert!(parse_devices("oops", "sinks", "sink").is_empty());
}

#[test]
fn device_list_from_nodes() {
    let nodes = vec![PwNode {
        id: Some(9),
        node_name: None,
        media_class: Some("Audio/Sink".to_string()),
        nick: None,
        description: Some("Desk".to_string()),
    }];
    let d = devices_from_nodes(&nodes, "sinks", "sink");
    assert_eq!(d.len(), 1);
    assert_eq!(d[0].description, "Desk");
    assert!(devices_from_nodes(&nodes, "sources", "source").is_empty());
}

#[test]
fn device_names() {
    assert_eq!(default_device_name("@DEFAULT_AUDIO_SOURCE@").as_deref(), Some("Default Source"));
    assert_eq!(default_device_name("@DEFAULT_AUDIO_SINK@").as_deref(), Some("Default Sink"));
    assert_eq!(default_device_name("31"), None);
    let devices = vec![
        AudioDevice { id: "30".into(), name: "USB Mic".into(), description: "USB Microphone".into(), kind: "source".into() },
        AudioDevice { id: "31".into(), name: "Speakers".into(), description: "Speakers".into(), kind: "sink".into() },
    ];
    assert_eq!(get_device_name("31", &devices), "Speakers");
    assert_eq!(get_device_name("30", &devices), "USB Microphone");
    assert_eq!(get_device_name("99", &devices), "99");
    assert_eq!(get_device_name("@DEFAULT_AUDIO_SINK@", &devices), "Default Sink");
}

#[test]
fn monitor_lines() {
    assert_eq!(line_events_of("Event 'change' on source #52"), vec![AudioEvent::SourceChanged]);
    assert_eq!(line_events_of("Event 'new' on sink-input #80"), vec![AudioEvent::SinkChanged]);
    assert_eq!(line_events_of("Event 'remove' on source-output #81"), vec![AudioEvent::SourceChanged]);
    assert_eq!(line_events_of("Event 'change' on sink #50"), vec![AudioEvent::SinkChanged]);
    assert_eq!(line_events_of("Event 'change' on client #3"), vec![]);
    assert_eq!(
        line_events_of("source-output sink-input"),
        vec![AudioEvent::SourceChanged, AudioEvent::SinkChanged]
    );
}
