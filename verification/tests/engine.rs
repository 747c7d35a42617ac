use acuneus::audio::{apply_spectrum_frame, spectrum_frame, AudioUniform};
use acuneus::builder::{hot_reload_path, ComputeShaderBuilder, PassDescription, StorageBufferSpec};
use acuneus::capi::{
    capi_param_type, default_window_dimensions, is_forwarded_env, runner_bin_name, runner_command,
    bin_executable_name, sanitize_error, spectrum_send_count, status_code, CuneusParamType, CuneusStatus,
    RunnerChoice, WindowGeometry,
};
use acuneus::command::{RemoteCommand, Scalar};
use acuneus::compute::{
    input_combinations, input_sides_for_key, buffer_dims, input_key_of, multipass_workgroups, plan_multipass, stage_decision, workgroup_count_for,
    FrameGate, StageDecision,
};
use acuneus::errors::{PlyError, SurfaceError};
use acuneus::export::{export_step, padded_bytes_per_row, unpad_rows, ExportStep, GaussianExporter};
use acuneus::layout::{atomic_buffer_size, group2_bindings, group3_plan, Group3Plan};
use acuneus::media::{latest_at_or_before, sample_events, magnitude_text, magnitude_tokens};
use acuneus::pingpong::PingPong;
use acuneus::radix::{
    histo_blocks_ru, keys_buffer_size, scatter_blocks_ru, GaussianSorter, RadixSorter, SortStage, SorterState,
};
use acuneus::registry::{bins, param_type_name, params_for_bin, BinParamType};
use acuneus::runtime::{
    builtin_target, BuiltinTarget, ControlsRequest, RemoteRuntime, RemoteRuntimeConfig, RuntimeEffect,
};
use acuneus::synth::{f32_bits_above_zero, key_index_for_pitch, sync_remote_keys, Keyboard};

fn runtime() -> RemoteRuntime {
    RemoteRuntime::new(RemoteRuntimeConfig { bin_name: "roto", native_width: 800, native_height: 600 })
}

fn request() -> ControlsRequest {
    ControlsRequest {
        is_paused: false,
        should_reset: false,
        should_clear_buffers: false,
        window_size: None,
        load_media_path: None,
        unload_media: false,
        play_video: false,
        pause_video: false,
        restart_video: false,
        seek_position_bits: None,
        set_loop: None,
        set_volume_bits: None,
        mute_audio: None,
        toggle_mute: false,
        start_webcam: false,
        stop_webcam: false,
    }
}

#[test]
fn keys_pad_to_whole_blocks() {
    assert_eq!(keys_buffer_size(0), 0);
    assert_eq!(keys_buffer_size(1), 3840);
    assert_eq!(keys_buffer_size(3840), 3840);
    assert_eq!(keys_buffer_size(3841), 7680);
    assert_eq!(keys_buffer_size(4294967040), 4294967040);
    assert_eq!(scatter_blocks_ru(7681), 3);
    assert_eq!(histo_blocks_ru(7681), 3);
}

#[test]
fn sort_plans_follow_the_key_width() {
    let s16 = RadixSorter::new_16bit();
    let plan = s16.sort_dispatches(10000);
    assert_eq!(plan.len(), 5);
    assert!(plan[0].stage == SortStage::Zero && plan[0].workgroups == 3);
    assert!(plan[2].stage == SortStage::Prefix && plan[2].workgroups == 2);
    assert!(plan[3].stage == SortStage::ScatterEven && plan[4].stage == SortStage::ScatterOdd);
    let s32 = RadixSorter::new();
    assert_eq!(s32.sort_dispatches(1).len(), 7);
    assert_eq!(s32.internal_buffer_size(1), 5 * 1024);
    let sizes = s32.buffer_sizes(100);
    assert_eq!(sizes.padded_keys, 3840);
    assert_eq!(sizes.keys_bytes, 3840 * 4 * 4);
    assert_eq!(sizes.payload_bytes, 400);
    let state = SorterState::initial(5);
    assert_eq!((state.num_keys, state.padded_size, state.sort_failed), (5, 3840, 0));
    let c = s32.shader_constants(0);
    assert_eq!((c.histogram_sg_size, c.mem_dwords, c.mem_sweep_1_offset, c.mem_sweep_2_offset), (1, 4096, 256, 512));
}

#[test]
fn gaussian_sorter_rebuilds_on_count_change() {
    let mut g = GaussianSorter::new();
    assert!(g.sort(10).is_none());
    assert!(!g.prepare(0));
    assert!(g.sort(10).is_none());
    assert!(g.prepare(10));
    assert!(!g.prepare(10));
    assert_eq!(g.count(), 10);
    assert_eq!(g.sort(10).unwrap().len(), 7);
}

#[test]
fn gaussian_sorter_sorts_when_the_camera_turns() {
    let mut g = GaussianSorter::new();
    let forward = [0u32, 0, 1.0f32.to_bits()];
    assert!(g.needs_sort(forward, true));
    assert_eq!(g.last_camera_forward, Some(forward));
    assert!(!g.needs_sort(forward, true));
    let turned = [1.0f32.to_bits(), 0, 0];
    assert!(g.needs_sort(turned, false));
    assert_eq!(g.last_camera_forward, Some(turned));
    g.force_sort();
    assert!(g.needs_sort(turned, true));
    assert_eq!(g.count(), 0);
}

#[test]
fn export_rows_are_padded_and_unpadded() {
    assert_eq!(padded_bytes_per_row(1), 256);
    assert_eq!(padded_bytes_per_row(64), 256);
    assert_eq!(padded_bytes_per_row(65), 512);
    let data: Vec<u8> = vec![1, 2, 9, 9, 3, 4, 9, 9];
    assert_eq!(unpad_rows(&data, 4, 2, 2), vec![1, 2, 3, 4]);
    assert_eq!(GaussianExporter::preprocess_workgroups(257), 2);
    assert_eq!(GaussianExporter::frame_workgroups(0), None);
    assert_eq!(GaussianExporter::frame_workgroups(1), Some(1));
}

#[test]
fn export_steps() {
    assert!(matches!(
        export_step(Some(0), (800, 600), (1920, 1080), (800, 600)),
        ExportStep::Capture { frame: 0, restart: true, resize_to: Some((1920, 1080)) }
    ));
    assert!(matches!(
        export_step(Some(3), (1920, 1080), (1920, 1080), (800, 600)),
        ExportStep::Capture { frame: 3, restart: false, resize_to: None }
    ));
    assert!(matches!(export_step(None, (1920, 1080), (1920, 1080), (800, 600)), ExportStep::Finish { resize_to: Some((800, 600)) }));
    assert!(matches!(export_step(None, (800, 600), (1920, 1080), (800, 600)), ExportStep::Finish { resize_to: None }));
}

#[test]
fn ping_pong_reads_what_was_written() {
    let names = vec!["a".to_string(), "b".to_string(), "a".to_string()];
    let mut p = PingPong::new(&names);
    assert_eq!((p.write_side_index("a"), p.read_side_index("a")), (0, 1));
    let wrote = p.write_side_index("a");
    p.mark_written("a");
    assert_eq!(p.read_side_index("a"), wrote);
    assert_eq!(p.write_side_index("b"), 0);
    p.mark_written("a");
    assert!(!p.get_write_side("a"));
    p.flip_buffers();
    assert!(p.get_write_side("a") && p.get_write_side("b"));
    assert!(!p.get_write_side("missing"));
    p.mark_written("missing");
    assert!(!p.get_write_side("missing"));
    p.clear_all();
    assert!(!p.get_write_side("a") && !p.get_write_side("b"));
}

#[test]
fn input_keys_and_multipass_plans() {
    let names = vec!["field".to_string(), "main_image".to_string()];
    let mut p = PingPong::new(&names);
    p.mark_written("field");
    let deps = vec!["field".to_string()];
    assert_eq!(input_key_of(&p, &deps, "field", 3), 7);
    let none: Vec<String> = Vec::new();
    assert_eq!(input_key_of(&p, &none, "main_image", 2), 0);
    let mut q = PingPong::new(&names);
    let passes = vec![PassDescription::new("field", &["field"]), PassDescription::new("main_image", &["field"])];
    let groups = vec![[1u32, 1, 1], [2u32, 2, 1]];
    let plan = plan_multipass(&mut q, &passes, &groups, "field", 1);
    assert_eq!(plan.len(), 2);
    assert_eq!((plan[0].input_key, plan[0].wrote_side0), (0, false));
    assert_eq!((plan[1].input_key, plan[1].workgroups), (1, [2, 2, 1]));
    assert!(q.get_write_side("field"));
    assert!(!q.get_write_side("main_image"));
}

#[test]
fn workgroups_cover_the_image() {
    assert_eq!(workgroup_count_for(1920, 1080, [16, 16, 1]), [120, 68, 1]);
    assert_eq!(workgroup_count_for(1, 1, [16, 16, 1]), [1, 1, 1]);
    let p = PassDescription::new("blur", &[]).with_resolution(33, 16);
    assert_eq!(multipass_workgroups(Some(&p), [9, 9, 1], (33, 16), [16, 16, 1]), [3, 1, 1]);
    let q = PassDescription::new("x", &[]).with_workgroup_size([4, 5, 6]);
    assert_eq!(multipass_workgroups(Some(&q), [9, 9, 1], (33, 16), [16, 16, 1]), [4, 5, 6]);
    assert_eq!(multipass_workgroups(None, [9, 9, 1], (33, 16), [16, 16, 1]), [9, 9, 1]);
    assert_eq!(buffer_dims(800, 600, Some([0, 5]), Some((1, 1))), (1, 5));
    assert_eq!(buffer_dims(800, 600, None, Some((400, 300))), (400, 300));
    assert_eq!(buffer_dims(800, 600, None, None), (800, 600));
    assert_eq!(buffer_dims(800, 600, Some([320, 200]), Some((400, 300))), (320, 200));
    assert_eq!(buffer_dims(800, 600, Some([0, 0]), Some((400, 300))), (1, 1));
    assert_eq!(buffer_dims(800, 600, None, Some((0, 0))), (1, 1));
}

#[test]
fn frame_gate_and_stages() {
    let mut g = FrameGate::new(true);
    assert!(g.should_dispatch());
    g.advance();
    assert!(!g.should_dispatch());
    assert_eq!(stage_decision(0, 1, &g), StageDecision::Skipped);
    assert_eq!(stage_decision(1, 1, &g), StageDecision::OutOfRange);
    g.reset();
    assert_eq!(stage_decision(0, 1, &g), StageDecision::Dispatch);
}

#[test]
fn group_bindings_are_contiguous() {
    let b = group2_bindings(true, true, false, true, false, 2);
    assert_eq!(b.mouse, Some(0));
    assert_eq!(b.fonts, Some((1, 2)));
    assert_eq!(b.audio, None);
    assert_eq!(b.audio_spectrum, Some(3));
    assert_eq!(b.channels_start, 4);
    assert_eq!(b.total, 8);
    assert_eq!(group2_bindings(false, false, false, false, false, 0).total, 0);
    assert_eq!(group3_plan(2, true, false, 3), Group3Plan::Storage { count: 2 });
    assert_eq!(group3_plan(0, true, false, 3), Group3Plan::PassInputs { slots: 3 });
    assert_eq!(group3_plan(0, true, true, 3), Group3Plan::Empty);
    assert_eq!(atomic_buffer_size(4, 2, 3), 96);
}

#[test]
fn builder_sizes_pass_inputs() {
    let passes = vec![PassDescription::new("a", &[]), PassDescription::new("b", &["a", "b"])];
    let c = ComputeShaderBuilder::new().with_multi_pass(&passes).with_mouse().build();
    assert_eq!(c.max_input_deps, 2);
    assert_eq!(c.entry_points, vec!["a".to_string(), "b".to_string()]);
    assert!(c.has_mouse);
    let d = ComputeShaderBuilder::new().with_multi_pass(&[PassDescription::new("only", &[])]).build();
    assert_eq!(d.max_input_deps, 1);
    let e = ComputeShaderBuilder::new().with_storage_buffer(StorageBufferSpec::new("weights", 64)).build();
    assert_eq!(e.storage_buffers.len(), 1);
    assert_eq!(e.storage_buffers[0].name, "weights");
    assert_eq!(e.storage_buffers[0].size_bytes, 64);
    assert_eq!(ComputeShaderBuilder::new().build().entry_points, vec!["main".to_string()]);
}

#[test]
fn catalog_lookups() {
    let roto = params_for_bin("roto").unwrap();
    assert_eq!(roto.len(), 6);
    assert_eq!(roto[0].id_str(), "square_size");
    assert_eq!(roto[0].min_value_bits, 0.05f32.to_bits());
    assert_eq!(roto[4].param_type, BinParamType::Color3);
    assert_eq!(params_for_bin("2dneuron").unwrap().len(), 8);
    assert!(params_for_bin("spiral").is_some());
    assert!(params_for_bin("unknown").is_none());
    assert_eq!(bins().len(), 11);
    assert_eq!(bins()[3], "2dneuron");
    assert_eq!(param_type_name(BinParamType::Select), "select");
    assert_eq!(capi_param_type(BinParamType::Bool), CuneusParamType::Bool);
}

#[test]
fn host_helpers() {
    assert_eq!(default_window_dimensions(None), (800, 600));
    assert_eq!(default_window_dimensions(Some((640, 360))), (640, 360));
    assert_eq!(runner_command(true, false), (RunnerChoice::GivenFile, true));
    assert_eq!(runner_command(false, true), (RunnerChoice::SharedRunner, true));
    assert_eq!(runner_command(false, false), (RunnerChoice::PerBin, false));
    assert_eq!(sanitize_error("a\0b\0"), "a b ");
    assert_eq!(runner_bin_name(Some("cuneus-plasma")), "plasma");
    assert_eq!(runner_bin_name(Some("tree")), "tree");
    assert_eq!(runner_bin_name(None), "roto");
    assert_eq!(bin_executable_name("roto"), "roto");
    assert_eq!(bin_executable_name("tree"), "cuneus-tree");
    assert!(is_forwarded_env("CUNEUS_REMOTE_PORT"));
    assert!(!is_forwarded_env("PATH"));
    assert_eq!(spectrum_send_count(100), 69);
    assert_eq!(spectrum_send_count(3), 3);
    assert_eq!(status_code(CuneusStatus::IoError), 4);
    let mut w = WindowGeometry::new((800, 600));
    w.set_size(0, 300);
    assert_eq!((w.base_width, w.base_height, w.scale_bits), (1, 300, 1.0f32.to_bits()));
    assert_eq!(w.refresh_position(None), (100, 100));
    assert_eq!(w.refresh_position(Some((5, -5))), (5, -5));
    assert_eq!((w.x, w.y), (5, -5));
}

#[test]
fn error_messages() {
    assert_eq!(SurfaceError::Lost.message(), "Surface lost");
    assert_eq!(SurfaceError::SkipFrame.message(), "Surface not ready, skip frame");
    assert_eq!(PlyError::Parse("bad header".to_string()).message(), "Parse error: bad header");
    assert_eq!(PlyError::MissingProperty("x".to_string()).message(), "Missing property: x");
    let io = PlyError::from_io(std::io::Error::new(std::io::ErrorKind::NotFound, "gone"));
    assert!(io.message().starts_with("IO error: "));
}

#[test]
fn remote_keys_record_changes() {
    let mut rt = runtime();
    rt.set_remote_key("key_1", false);
    assert!(rt.take_key_events().is_empty());
    rt.set_remote_key("key_1", true);
    rt.set_remote_key("key_1", true);
    rt.set_remote_key("key_3", true);
    rt.set_remote_key("key_1", false);
    let events = rt.take_key_events();
    assert_eq!(events, vec![("key_1".to_string(), true), ("key_3".to_string(), true), ("key_1".to_string(), false)]);
    assert!(!rt.key_down("key_1") && rt.key_down("key_3"));
    let mut held = [false; 9];
    let changes = sync_remote_keys(&mut held, &rt);
    assert_eq!(changes, vec![(2, true)]);
    assert!(held[2]);
    assert!(sync_remote_keys(&mut held, &rt).is_empty());
}

#[test]
fn controls_requests_are_made_once() {
    let mut rt = runtime();
    rt.apply_action("control_reset", true);
    rt.apply_action("video_play", false);
    rt.set_paused(true);
    assert!(rt.apply_builtin_string("media_path", " 'clip.mp4' ".to_string()));
    assert!(!rt.apply_builtin_string("title", "x".to_string()));
    rt.set_resolution(0, 720);
    let mut req = request();
    rt.apply_to_controls_request(&mut req);
    assert!(req.should_reset && req.should_clear_buffers && req.is_paused && req.play_video);
    assert_eq!(req.load_media_path, Some("clip.mp4".to_string()));
    assert_eq!(req.window_size, Some((1, 720)));
    let mut again = request();
    rt.apply_to_controls_request(&mut again);
    assert!(!again.should_reset && !again.is_paused && !again.play_video);
    assert_eq!(again.load_media_path, None);
    assert_eq!(again.window_size, Some((1, 720)));
}

#[test]
fn commands_become_effects() {
    let mut rt = runtime();
    match rt.apply_command(RemoteCommand::SetF32 { id: "video_volume".to_string(), value: Scalar::Text("0.5".to_string()) }) {
        RuntimeEffect::Value { target, .. } => assert_eq!(target, BuiltinTarget::Volume),
        _ => panic!("expected a value"),
    }
    assert!(matches!(rt.apply_command(RemoteCommand::Resolution { width: 0, height: 5 }), RuntimeEffect::Resize { width: 1, height: 5 }));
    assert_eq!(rt.resolution(), Some((1, 5)));
    assert!(matches!(rt.apply_command(RemoteCommand::SetBool { id: "key_2".to_string(), value: true }), RuntimeEffect::Nothing));
    assert!(rt.key_down("key_2"));
    assert!(matches!(rt.apply_command(RemoteCommand::SetBool { id: "glow".to_string(), value: true }), RuntimeEffect::Flag { value: true, .. }));
    assert!(matches!(rt.apply_command(RemoteCommand::HideTitleBar), RuntimeEffect::Decorations { visible: false }));
    assert!(matches!(rt.apply_command(RemoteCommand::WindowSize { width: 0, height: 0 }), RuntimeEffect::RequestSize { width: 1, height: 1 }));
    rt.apply_command(RemoteCommand::Note { pitch: Scalar::I32(60), velocity: Scalar::I32(1) });
    assert_eq!(rt.take_notes().len(), 1);
    assert_eq!(builtin_target("key_x"), BuiltinTarget::Key);
    assert_eq!(builtin_target("mouse_y"), BuiltinTarget::MouseY);
    assert_eq!(builtin_target("speed"), BuiltinTarget::Param);
}

#[test]
fn synth_keys_for_pitches() {
    assert_eq!(key_index_for_pitch(60), Some(0));
    assert_eq!(key_index_for_pitch(61), None);
    assert_eq!(key_index_for_pitch(71), Some(6));
    assert_eq!(key_index_for_pitch(72), Some(7));
    assert_eq!(key_index_for_pitch(74), Some(8));
    assert_eq!(key_index_for_pitch(84), Some(0));
    assert_eq!(key_index_for_pitch(48), Some(0));
    assert_eq!(key_index_for_pitch(59), Some(6));
    assert_eq!(key_index_for_pitch(i32::MIN + 60), Some(2));
}

#[test]
fn media_samples_by_time() {
    let keys = [10u64, 20, 20, 30];
    assert_eq!(latest_at_or_before(&keys, 5), Some(0));
    assert_eq!(latest_at_or_before(&keys, 10), Some(0));
    assert_eq!(latest_at_or_before(&keys, 20), Some(2));
    assert_eq!(latest_at_or_before(&keys, 25), Some(2));
    assert_eq!(latest_at_or_before(&keys, 100), Some(3));
    assert_eq!(latest_at_or_before(&[], 1), None);
    assert_eq!(latest_at_or_before(&[30, 10, 20], 15), Some(1));
    assert_eq!(latest_at_or_before(&[30, 10, 20], 5), Some(0));
    assert_eq!(sample_events(&[10, 20, 30], &[5, 25], 22), Some((1, Some(0))));
    assert_eq!(sample_events(&[10, 20, 30], &[], 22), Some((1, None)));
    assert_eq!(sample_events(&[], &[5], 22), None);
}

#[test]
fn spectrum_message_magnitudes() {
    let text = "spectrum, endtime=(guint64)100, magnitude=(float){ -60.5, -42, 3.25 }, phase=(float){ 0 };";
    let field = magnitude_text(text).unwrap();
    assert_eq!(field, " -60.5, -42, 3.25 ");
    let tokens = magnitude_tokens(&field);
    assert_eq!(tokens, vec!["-60.5".to_string(), "-42".to_string(), "3.25".to_string()]);
    assert_eq!(magnitude_text("spectrum, rate=(int)44100;"), None);
    assert_eq!(magnitude_text("magnitude=(float){ 1, 2"), None);
    assert_eq!(magnitude_text("magnitude=(float){}"), Some(String::new()));
    assert_eq!(magnitude_tokens(""), vec![String::new()]);
    assert_eq!(magnitude_tokens("a,,b"), vec!["a".to_string(), String::new(), "b".to_string()]);
}

#[test]
fn spectrum_frames_round_trip() {
    let mut data = [[0u32; 4]; 32];
    for r in 0..32 {
        for c in 0..4 {
            data[r][c] = (r * 4 + c) as u32;
        }
    }
    let u = AudioUniform { audio_data: data, bpm: 120, bass_energy: 1, mid_energy: 2, high_energy: 3, total_energy: 4 };
    let f = spectrum_frame(&u);
    assert_eq!(f.len(), 69);
    assert_eq!(f[5], 5);
    assert_eq!(f[63], 63);
    assert_eq!(&f[64..], &[120, 1, 2, 3, 4]);
    let mut w = AudioUniform { audio_data: [[7u32; 4]; 32], bpm: 0, bass_energy: 0, mid_energy: 0, high_energy: 0, total_energy: 0 };
    apply_spectrum_frame(&mut w, &f);
    assert_eq!(spectrum_frame(&w), f);
    assert_eq!(w.audio_data[16], [7, 7, 7, 7]);
}


#[test]
fn cached_input_sides_match_keys() {
    assert_eq!(input_sides_for_key(5, 3), vec![0, 1, 0]);
    assert_eq!(input_sides_for_key(0, 2), vec![1, 1]);
    assert_eq!(input_combinations(3), 8);
    assert_eq!(input_combinations(0), 1);
    let names = vec!["a".to_string(), "b".to_string()];
    let mut p = PingPong::new(&names);
    p.mark_written("b");
    let deps = vec!["a".to_string(), "b".to_string()];
    let key = input_key_of(&p, &deps, "a", 3);
    let sides = input_sides_for_key(key, 3);
    assert_eq!(sides, vec![p.read_side_index("a"), p.read_side_index("b"), p.read_side_index("a")]);
}

#[test]
fn hot_reload_paths() {
    assert_eq!(hot_reload_path("examples/roto.rs", "shaders/roto.wgsl"), "examples/shaders/roto.wgsl");
    assert_eq!(hot_reload_path("examples\\win\\roto.rs", "s.wgsl"), "examples\\win/s.wgsl");
    assert_eq!(hot_reload_path("roto.rs", "s.wgsl"), "s.wgsl");
    assert_eq!(hot_reload_path("/abs.rs", "s.wgsl"), "s.wgsl");
}

#[test]
fn storage_buffers_are_appended_in_order() {
    let specs = vec![StorageBufferSpec::new("a", 4), StorageBufferSpec::new("b", 8)];
    let c = ComputeShaderBuilder::new()
        .with_storage_buffer(StorageBufferSpec::new("first", 1))
        .with_storage_buffers(&specs)
        .build();
    let names: Vec<&str> = c.storage_buffers.iter().map(|s| s.name.as_str()).collect();
    assert_eq!(names, vec!["first", "a", "b"]);
    assert_eq!(c.storage_buffers[2].size_bytes, 8);
}

#[test]
fn keyboard_presses_and_releases() {
    use_keyboard();
}

fn use_keyboard() {
    let mut k = Keyboard { key_states: [[0; 4]; 3], key_decay: [[0; 4]; 3], keys_held: [false; 9] };
    let t1 = 1.5f32.to_bits();
    let t2 = 2.0f32.to_bits();
    let t3 = 2.5f32.to_bits();
    k.set_key_pressed(4, t1);
    assert!(k.keys_held[4]);
    assert_eq!(k.key_states[1][0], t1);
    k.set_key_released(4, t2);
    assert!(!k.keys_held[4]);
    assert_eq!(k.key_decay[1][0], t2);
    k.set_key_pressed(4, t3);
    assert_eq!(k.key_states[1][0], t1);
    assert_eq!(k.key_decay[1][0], 0);
    k.set_key_pressed(9, t3);
    assert!(!f32_bits_above_zero((-1.0f32).to_bits()));
    assert!(!f32_bits_above_zero(f32::NAN.to_bits()));
    assert!(f32_bits_above_zero(f32::INFINITY.to_bits()));
    k.apply_remote_note(62, 1.0f32.to_bits(), t2);
    assert!(k.keys_held[1]);
    k.apply_remote_note(62, 0, t3);
    assert!(!k.keys_held[1]);
    assert_eq!(k.key_decay[0][1], t3);
}

#[test]
fn layout_and_resize_helpers() {
    let g1 = acuneus::layout::group1_bindings(true, false);
    assert_eq!((g1.output, g1.custom_uniform, g1.input_texture), (0, Some(1), None));
    let g1b = acuneus::layout::group1_bindings(false, true);
    assert_eq!((g1b.custom_uniform, g1b.input_texture), (None, Some((2, 3))));
    assert_eq!(acuneus::layout::present_groups(0, Group3Plan::Empty), [true, true, false, false]);
    assert_eq!(acuneus::layout::present_groups(3, Group3Plan::PassInputs { slots: 1 }), [true, true, true, true]);
    assert!(acuneus::layout::uses_pingpong(0, true, false));
    assert!(!acuneus::layout::uses_pingpong(1, true, false));
    assert_eq!(acuneus::compute::surface_size_after_resize((800, 600), (0, 10)), (800, 600));
    assert_eq!(acuneus::compute::surface_size_after_resize((800, 600), (1024, 768)), (1024, 768));
    let p = PassDescription::new("a", &[]).with_workgroup_size([7, 1, 1]);
    assert_eq!(acuneus::compute::single_pass_workgroups(Some(&p), [2, 2, 1]), [7, 1, 1]);
    assert_eq!(acuneus::compute::single_pass_workgroups(None, [2, 2, 1]), [2, 2, 1]);
    let s = PassDescription::new("b", &[]).with_resolution_scale_bits(0.5f32.to_bits());
    assert_eq!(multipass_workgroups(Some(&s), [9, 9, 1], (40, 20), [16, 16, 1]), [3, 2, 1]);
}

#[test]
fn builder_options() {
    let c = ComputeShaderBuilder::new()
        .with_entry_point("render")
        .with_custom_uniforms::<[u32; 4]>()
        .with_input_texture()
        .with_channels(2)
        .with_fonts()
        .with_audio(512)
        .with_audio_spectrum(69)
        .with_atomic_buffer(4)
        .with_workgroup_size([8, 8, 1])
        .dispatch_once()
        .with_texture_format(acuneus::builder::OutputFormat::Rgba8Unorm)
        .with_label("Test")
        .with_hot_reload("shaders/test.wgsl")
        .build();
    assert_eq!(c.entry_points, vec!["render".to_string()]);
    assert_eq!(c.custom_uniform_size, Some(16));
    assert!(c.has_input_texture && c.has_fonts && c.has_audio && c.has_audio_spectrum && c.has_atomic_buffer);
    assert_eq!((c.num_channels, c.audio_buffer_size, c.audio_spectrum_size, c.atomic_buffer_channels), (Some(2), 512, 69, 4));
    assert_eq!(c.workgroup_size, [8, 8, 1]);
    assert!(c.dispatch_once);
    assert_eq!(c.texture_format, acuneus::builder::OutputFormat::Rgba8Unorm);
    assert_eq!(c.label, "Test");
    assert_eq!(c.hot_reload_path, Some("shaders/test.wgsl".to_string()));
}
