use acuneus::command::{command_text, media_path_from_string, parse_bool_text, parse_text_command, RemoteCommand, Scalar};
use acuneus::number::is_float_literal;
use acuneus::datagram::{parse_text_datagram, read_datagram};
use acuneus::feedback::{discovery_messages, value_message, RemoteValue};
use acuneus::osc::{f32_bits_to_i32, is_osc_packet, parse_osc_command, parse_osc_message, Message, OscArg};
use acuneus::registry::params_for_bin;

fn text_of(s: &Scalar) -> Option<String> {
    match s {
        Scalar::Text(t) => Some(t.clone()),
        _ => None,
    }
}

fn encode(addr: &str, args: Vec<rosc::OscType>) -> Vec<u8> {
    let packet = rosc::OscPacket::Message(rosc::OscMessage { addr: addr.to_string(), args });
    rosc::encoder::encode(&packet).unwrap()
}

#[test]
fn text_set_f32_keeps_the_number_text() {
    match parse_text_command("set_f32 speed 0.5") {
        Some(RemoteCommand::SetF32 { id, value }) => {
            assert_eq!(id, "speed");
            assert_eq!(text_of(&value), Some("0.5".to_string()));
        }
        _ => panic!("expected set_f32"),
    }
}

#[test]
fn text_missing_argument_gives_nothing() {
    assert!(parse_text_command("set_f32 speed").is_none());
    assert!(parse_text_command("").is_none());
    assert!(parse_text_command("   ").is_none());
    assert!(parse_text_command("no_such_command 1").is_none());
}

#[test]
fn text_flags_default_to_true_and_zero_is_false() {
    assert!(matches!(parse_text_command("overlay_visible"), Some(RemoteCommand::OverlayVisible { visible: true })));
    assert!(matches!(parse_text_command("overlay_visible 0"), Some(RemoteCommand::OverlayVisible { visible: false })));
    assert!(matches!(parse_text_command("subscribe 1"), Some(RemoteCommand::Subscribe { enabled: true })));
    assert!(matches!(parse_text_command("title_bar_visible 0"), Some(RemoteCommand::TitleBarVisible { visible: false })));
}

#[test]
fn text_set_bool_reads_words() {
    assert!(matches!(parse_text_command("set_bool x off"), Some(RemoteCommand::SetBool { value: false, .. })));
    assert!(matches!(parse_text_command("set_bool x FALSE"), Some(RemoteCommand::SetBool { value: false, .. })));
    assert!(matches!(parse_text_command("set_bool x yes"), Some(RemoteCommand::SetBool { value: true, .. })));
    assert!(matches!(parse_text_command("set_bool x"), Some(RemoteCommand::SetBool { value: true, .. })));
}

#[test]
fn text_integers_are_parsed() {
    assert!(matches!(parse_text_command("window_size 800 600"), Some(RemoteCommand::WindowSize { width: 800, height: 600 })));
    assert!(matches!(parse_text_command("window_position -10 +20"), Some(RemoteCommand::WindowPosition { x: -10, y: 20 })));
    assert!(parse_text_command("window_size -1 600").is_none());
    assert!(parse_text_command("resolution 4294967296 1").is_none());
}

#[test]
fn text_rest_of_line_commands_join_words() {
    match parse_text_command("window_title  My   Shader ") {
        Some(RemoteCommand::WindowTitle { title }) => assert_eq!(title, "My Shader"),
        _ => panic!("expected window_title"),
    }
    match parse_text_command("set_string label hello world") {
        Some(RemoteCommand::SetString { id, value }) => {
            assert_eq!(id, "label");
            assert_eq!(value, "hello world");
        }
        _ => panic!("expected set_string"),
    }
}

#[test]
fn text_action_value_is_optional() {
    match parse_text_command("action control_reset") {
        Some(RemoteCommand::Action { id, value }) => {
            assert_eq!(id, "control_reset");
            assert!(value.is_none());
        }
        _ => panic!("expected action"),
    }
}

#[test]
fn bool_text_words() {
    assert!(!parse_bool_text("0"));
    assert!(!parse_bool_text("Off"));
    assert!(!parse_bool_text("NO"));
    assert!(parse_bool_text("1"));
    assert!(parse_bool_text("on"));
}

#[test]
fn media_paths_are_unquoted() {
    assert_eq!(media_path_from_string("  \"C:/media/a b.mp4\"  ".to_string()), "C:/media/a b.mp4");
    assert_eq!(media_path_from_string("'x.png'".to_string()), "x.png");
    assert_eq!(media_path_from_string(" plain.mp4".to_string()), "plain.mp4");
    assert_eq!(media_path_from_string("\"half.mp4".to_string()), "\"half.mp4");
}

#[test]
fn command_text_reads_back() {
    let c = RemoteCommand::SetColor3 {
        id: "tint".to_string(),
        r: Scalar::Text("1".to_string()),
        g: Scalar::Text("0.5".to_string()),
        b: Scalar::Text("0".to_string()),
    };
    let t = command_text(&c);
    assert_eq!(t, "set_color3 tint 1 0.5 0");
    match parse_text_command(&t) {
        Some(RemoteCommand::SetColor3 { id, r, g, b }) => {
            assert_eq!(id, "tint");
            assert_eq!(text_of(&r), Some("1".to_string()));
            assert_eq!(text_of(&g), Some("0.5".to_string()));
            assert_eq!(text_of(&b), Some("0".to_string()));
        }
        _ => panic!("expected set_color3"),
    }
    let b = RemoteCommand::SetBool { id: "enable_glow".to_string(), value: false };
    assert_eq!(command_text(&b), "set_bool enable_glow 0");
    assert_eq!(command_text(&RemoteCommand::Resolution { width: 640, height: 480 }), "resolution 640 480");
    assert_eq!(command_text(&RemoteCommand::WindowPosition { x: -5, y: 7 }), "window_position -5 7");
}

#[test]
fn float_bits_convert_like_as() {
    assert_eq!(f32_bits_to_i32(3.7f32.to_bits()), 3);
    assert_eq!(f32_bits_to_i32((-3.7f32).to_bits()), -3);
    assert_eq!(f32_bits_to_i32(f32::NAN.to_bits()), 0);
    assert_eq!(f32_bits_to_i32(1e10f32.to_bits()), i32::MAX);
    assert_eq!(f32_bits_to_i32((-1e10f32).to_bits()), i32::MIN);
    assert_eq!(f32_bits_to_i32(0.25f32.to_bits()), 0);
    assert_eq!(f32_bits_to_i32(123456.0f32.to_bits()), 123456);
}

#[test]
fn osc_param_float_is_set_f32() {
    let bytes = encode("/acuneus/cuneus/param/speed", vec![rosc::OscType::Float(0.25)]);
    assert!(is_osc_packet(&bytes));
    match parse_osc_command(&bytes) {
        Some(RemoteCommand::SetF32 { id, value: Scalar::F32Bits(b) }) => {
            assert_eq!(id, "speed");
            assert_eq!(b, 0.25f32.to_bits());
        }
        _ => panic!("expected set_f32"),
    }
}

#[test]
fn osc_checkbox_and_colors() {
    let b = encode("/acuneus/cuneus/checkbox/use_glow", vec![rosc::OscType::Int(0)]);
    assert!(matches!(parse_osc_command(&b), Some(RemoteCommand::SetBool { value: false, .. })));
    let c = encode(
        "/acuneus/cuneus/color/tint/",
        vec![rosc::OscType::Float(1.0), rosc::OscType::Int(0), rosc::OscType::Double(0.5)],
    );
    match parse_osc_command(&c) {
        Some(RemoteCommand::SetColor3 { id, r: Scalar::F32Bits(r), g: Scalar::I32(0), b: Scalar::F64Bits(b) }) => {
            assert_eq!(id, "tint");
            assert_eq!(r, 1.0f32.to_bits());
            assert_eq!(b, 0.5f64.to_bits());
        }
        _ => panic!("expected set_color3"),
    }
}

#[test]
fn osc_window_size_rejects_negative() {
    let ok = encode("/acuneus/cuneus/window/size", vec![rosc::OscType::Int(640), rosc::OscType::Float(480.9)]);
    assert!(matches!(parse_osc_command(&ok), Some(RemoteCommand::WindowSize { width: 640, height: 480 })));
    let bad = encode("/acuneus/cuneus/window/size", vec![rosc::OscType::Int(-1), rosc::OscType::Int(5)]);
    assert!(parse_osc_command(&bad).is_none());
}

#[test]
fn osc_bundle_gives_first_command() {
    let inner1 = rosc::OscPacket::Message(rosc::OscMessage { addr: "/other".to_string(), args: vec![] });
    let inner2 = rosc::OscPacket::Message(rosc::OscMessage { addr: "/acuneus/cuneus/discover".to_string(), args: vec![] });
    let bundle = rosc::OscPacket::Bundle(rosc::OscBundle {
        timetag: rosc::OscTime { seconds: 0, fractional: 1 },
        content: vec![inner1, inner2],
    });
    let bytes = rosc::encoder::encode(&bundle).unwrap();
    assert!(matches!(parse_osc_command(&bytes), Some(RemoteCommand::Discover)));
}

#[test]
fn datagrams_choose_osc_then_text() {
    let osc = encode("/acuneus/cuneus/pulse", vec![rosc::OscType::Float(1.0)]);
    match read_datagram(&osc) {
        Some((RemoteCommand::Pulse { .. }, claims)) => assert!(claims),
        _ => panic!("expected pulse"),
    }
    match read_datagram(b"  discover \n") {
        Some((RemoteCommand::Discover, claims)) => assert!(claims),
        _ => panic!("expected discover"),
    }
    match read_datagram(b"pulse 1") {
        Some((RemoteCommand::Pulse { .. }, claims)) => assert!(!claims),
        _ => panic!("expected pulse"),
    }
    assert!(read_datagram(&[0xff, 0xfe, 0x00]).is_none());
    assert!(parse_text_datagram(&[0xc3]).is_none());
}

#[test]
fn value_report_reads_back_as_set() {
    let m = value_message("speed", &RemoteValue::F32(2.5f32.to_bits()));
    assert_eq!(m.addr, "/acuneus/cuneus/param/speed");
    match parse_osc_message(&m) {
        Some(RemoteCommand::SetF32 { id, value: Scalar::F32Bits(b) }) => {
            assert_eq!(id, "speed");
            assert_eq!(b, 2.5f32.to_bits());
        }
        _ => panic!("expected set_f32"),
    }
    let m = value_message("glow", &RemoteValue::Bool(true));
    assert!(matches!(parse_osc_message(&m), Some(RemoteCommand::SetBool { value: true, .. })));
}

#[test]
fn discovery_lists_every_parameter() {
    let params = params_for_bin("roto").unwrap();
    let msgs = discovery_messages("roto", &params);
    assert_eq!(msgs.len(), 3 + params.len());
    assert_eq!(msgs[0].addr, "/acuneus/cuneus/status");
    assert!(matches!(&msgs[0].args[0], OscArg::Str(s) if s == "ready"));
    assert!(matches!(&msgs[2].args[0], OscArg::Int(6)));
    let desc: &Message = &msgs[7];
    assert_eq!(desc.addr, "/acuneus/cuneus/param_desc");
    assert!(matches!(&desc.args[0], OscArg::Int(4)));
    assert!(matches!(&desc.args[1], OscArg::Str(s) if s == "background_color"));
    assert!(matches!(&desc.args[4], OscArg::Str(s) if s == "color3"));
    assert!(matches!(&desc.args[7], OscArg::Float(b) if *b == 0.5f32.to_bits()));
}

#[test]
fn osc_bool_params_by_address_or_argument() {
    let by_arg = encode("/acuneus/cuneus/param/glow", vec![rosc::OscType::Bool(true)]);
    assert!(matches!(parse_osc_command(&by_arg), Some(RemoteCommand::SetBool { value: true, .. })));
    let by_addr = encode("/acuneus/cuneus/bool/glow", vec![rosc::OscType::Float(0.0)]);
    assert!(matches!(parse_osc_command(&by_addr), Some(RemoteCommand::SetBool { value: false, .. })));
    let no_arg = encode("/acuneus/cuneus/checkbox/glow", vec![]);
    assert!(matches!(parse_osc_command(&no_arg), Some(RemoteCommand::SetBool { value: true, .. })));
    let text = encode("/acuneus/cuneus/param/label", vec![rosc::OscType::String("hi".to_string())]);
    assert!(matches!(parse_osc_command(&text), Some(RemoteCommand::SetString { value, .. }) if value == "hi"));
}

#[test]
fn osc_namespace_is_strict() {
    let legacy = encode("/cuneus/discover", vec![]);
    assert!(is_osc_packet(&legacy));
    assert!(parse_osc_command(&legacy).is_none());
    let spectrum = encode(
        "/acuneus/cuneus/audio_spectrum",
        vec![rosc::OscType::String("x".to_string()), rosc::OscType::Float(0.5), rosc::OscType::Int(2)],
    );
    match parse_osc_command(&spectrum) {
        Some(RemoteCommand::AudioSpectrum { values }) => assert_eq!(values.len(), 2),
        _ => panic!("expected audio_spectrum"),
    }
    let empty = encode("/acuneus/cuneus/audio_spectrum", vec![rosc::OscType::String("x".to_string())]);
    assert!(parse_osc_command(&empty).is_none());
}

#[test]
fn osc_action_and_media() {
    let a = encode("/acuneus/cuneus/action", vec![rosc::OscType::String("video_play".to_string())]);
    assert!(matches!(parse_osc_command(&a), Some(RemoteCommand::Action { value: None, .. })));
    let m = encode("/acuneus/cuneus/media/load", vec![rosc::OscType::String("a.mp4".to_string())]);
    assert!(matches!(parse_osc_command(&m), Some(RemoteCommand::LoadMedia { path }) if path == "a.mp4"));
    let bad = encode("/acuneus/cuneus/media/load", vec![rosc::OscType::Int(1)]);
    assert!(parse_osc_command(&bad).is_none());
}

#[test]
fn legacy_message_addresses_denote_nothing() {
    let legacy = Message { addr: "/cuneus/discover".to_string(), args: vec![] };
    assert!(parse_osc_message(&legacy).is_none());
    let legacy_param = Message { addr: "/cuneus/param/speed".to_string(), args: vec![OscArg::Float(1.0f32.to_bits())] };
    assert!(parse_osc_message(&legacy_param).is_none());
    let current = Message { addr: "/acuneus/cuneus/discover/".to_string(), args: vec![] };
    assert!(matches!(parse_osc_message(&current), Some(RemoteCommand::Discover)));
}

fn text_value(s: &Scalar) -> &str {
    match s {
        Scalar::Text(t) => t.as_str(),
        _ => panic!("expected a text scalar"),
    }
}

#[test]
fn text_commands_check_their_numbers() {
    match parse_text_command("set_string title hello   world") {
        Some(RemoteCommand::SetString { id, value }) => {
            assert_eq!(id, "title");
            assert_eq!(value, "hello world");
        }
        _ => panic!("expected set_string"),
    }
    match parse_text_command("action control_reset") {
        Some(RemoteCommand::Action { id, value }) => {
            assert_eq!(id, "control_reset");
            assert!(value.is_none());
        }
        _ => panic!("expected action"),
    }
    assert!(matches!(parse_text_command("set_bool key_1"), Some(RemoteCommand::SetBool { value: true, .. })));
    assert!(parse_text_command("set_f32 speed abc").is_none());
    assert!(parse_text_command("frobnicate 1").is_none());
    assert!(parse_text_command("").is_none());
    assert!(parse_text_command("set_color3 tint 1 0.5 x").is_none());
    assert!(parse_text_command("pulse loud").is_none());
    assert!(parse_text_command("note 60 x").is_none());
    assert!(parse_text_command("transport 120 1 y").is_none());
    assert!(parse_text_command("time 1e").is_none());
    assert!(parse_text_command("fps .").is_none());
    assert!(parse_text_command("window_scale +").is_none());
    match parse_text_command("set_f32 speed -1.5e3") {
        Some(RemoteCommand::SetF32 { value, .. }) => assert_eq!(text_value(&value), "-1.5e3"),
        _ => panic!("expected set_f32"),
    }
    match parse_text_command("audio_spectrum 1 x 2.5 inf") {
        Some(RemoteCommand::AudioSpectrum { values }) => {
            let texts: Vec<&str> = values.iter().map(text_value).collect();
            assert_eq!(texts, vec!["1", "2.5", "inf"]);
        }
        _ => panic!("expected audio_spectrum"),
    }
    assert!(parse_text_command("audio_spectrum x y").is_none());
    assert!(parse_text_command("audio_spectrum").is_none());
    match parse_text_command("action control_reset nope") {
        Some(RemoteCommand::Action { value, .. }) => assert!(value.is_none()),
        _ => panic!("expected action"),
    }
    match parse_text_command("action control_reset 0.25") {
        Some(RemoteCommand::Action { value: Some(v), .. }) => assert_eq!(text_value(&v), "0.25"),
        _ => panic!("expected action with a value"),
    }
}

#[test]
fn float_literals_follow_f32_parsing() {
    for s in ["1", "-1", "+1", "1.", ".5", "1.5e-3", "2E+7", "inf", "-Infinity", "NaN", "007"] {
        assert!(is_float_literal(s), "{s}");
        assert!(s.parse::<f32>().is_ok(), "{s}");
    }
    for s in ["", ".", "+", "-", "e5", "1e", "1e+", "1.2.3", "abc", "infinit", "0x10", " 1", "1 "] {
        assert!(!is_float_literal(s), "{s}");
        assert!(s.parse::<f32>().is_err(), "{s}");
    }
}

#[test]
fn catalog_tables_are_well_formed() {
    let roto = params_for_bin("roto").unwrap();
    assert_eq!(roto.len(), 6);
    assert_eq!(roto[0].id_str(), "square_size");
    for name in ["roto", "cuneus", "spiral", "voronoi", "matrix", "tree", "2dneuron", "gabor", "plasma", "lorenz", "nebula", "satan", "sdvert", "asahi"] {
        let ps = params_for_bin(name).unwrap();
        for (i, p) in ps.iter().enumerate() {
            assert!(!p.id_str().is_empty());
            let (lo, hi, d) = (f32::from_bits(p.min_value_bits), f32::from_bits(p.max_value_bits), f32::from_bits(p.default_value_bits));
            assert!(lo.is_finite() && hi.is_finite() && d.is_finite());
            assert!(lo <= d && d <= hi, "{name} {}", p.id_str());
            for q in &ps[i + 1..] {
                assert_ne!(p.id_str(), q.id_str());
            }
        }
    }
    assert!(params_for_bin("unknown").is_none());
}
