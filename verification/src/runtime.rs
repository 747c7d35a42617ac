//! The control state that remote commands build up in a running shader:
//! pending requests to the shader's controls, remote key states, queued
//! notes and the render resolution, and what each command asks of the
//! shader.
use vstd::prelude::*;

use crate::command::{media_path_from_string, scalar_views, unquoted_path, CommandV, RemoteCommand, Scalar, ScalarV};
use crate::text::{char_vec, chars_start_with, str_eq};

verus! {

/// The shader a runtime serves and its native window size.
#[derive(Clone, Copy, Debug)]
pub struct RemoteRuntimeConfig {
    pub bin_name: &'static str,
    pub native_width: u32,
    pub native_height: u32,
}

/// Requests to the shader's controls that remote commands leave for the
/// next frame.  `f64` values are held by their bits.
pub struct ControlsPatch {
    pub is_paused: Option<bool>,
    pub should_reset: bool,
    pub should_clear_buffers: bool,
    pub load_media_path: Option<String>,
    pub unload_media: bool,
    pub play_video: bool,
    pub pause_video: bool,
    pub restart_video: bool,
    pub seek_position_bits: Option<u64>,
    pub set_loop: Option<bool>,
    pub set_volume_bits: Option<u64>,
    pub mute_audio: Option<bool>,
    pub toggle_mute: bool,
    pub start_webcam: bool,
    pub stop_webcam: bool,
}

/// What the shader's controls are asked to do this frame (the part that
/// remote commands can set; time and frame rate are `f32` and are set by
/// the host).  `f64` values are held by their bits.
pub struct ControlsRequest {
    pub is_paused: bool,
    pub should_reset: bool,
    pub should_clear_buffers: bool,
    pub window_size: Option<(u32, u32)>,
    pub load_media_path: Option<String>,
    pub unload_media: bool,
    pub play_video: bool,
    pub pause_video: bool,
    pub restart_video: bool,
    pub seek_position_bits: Option<u64>,
    pub set_loop: Option<bool>,
    pub set_volume_bits: Option<u64>,
    pub mute_audio: Option<bool>,
    pub toggle_mute: bool,
    pub start_webcam: bool,
    pub stop_webcam: bool,
}

/// The view of an optional string.
pub open spec fn opt_text(s: Option<String>) -> Option<Seq<char>> {
    match s {
        Some(t) => Some(t@),
        None => None,
    }
}

/// The model of a [`ControlsPatch`] and of a [`ControlsRequest`] alike:
/// the fields, with strings by their characters.
pub struct ControlsV {
    pub is_paused: Option<bool>,
    pub should_reset: bool,
    pub should_clear_buffers: bool,
    pub window_size: Option<(u32, u32)>,
    pub load_media_path: Option<Seq<char>>,
    pub unload_media: bool,
    pub play_video: bool,
    pub pause_video: bool,
    pub restart_video: bool,
    pub seek_position_bits: Option<u64>,
    pub set_loop: Option<bool>,
    pub set_volume_bits: Option<u64>,
    pub mute_audio: Option<bool>,
    pub toggle_mute: bool,
    pub start_webcam: bool,
    pub stop_webcam: bool,
}

impl View for ControlsPatch {
    type V = ControlsV;

    open spec fn view(&self) -> ControlsV {
        ControlsV {
            is_paused: self.is_paused,
            should_reset: self.should_reset,
            should_clear_buffers: self.should_clear_buffers,
            window_size: None,
            load_media_path: opt_text(self.load_media_path),
            unload_media: self.unload_media,
            play_video: self.play_video,
            pause_video: self.pause_video,
            restart_video: self.restart_video,
            seek_position_bits: self.seek_position_bits,
            set_loop: self.set_loop,
            set_volume_bits: self.set_volume_bits,
            mute_audio: self.mute_audio,
            toggle_mute: self.toggle_mute,
            start_webcam: self.start_webcam,
            stop_webcam: self.stop_webcam,
        }
    }
}

impl View for ControlsRequest {
    type V = ControlsV;

    open spec fn view(&self) -> ControlsV {
        ControlsV {
            is_paused: Some(self.is_paused),
            should_reset: self.should_reset,
            should_clear_buffers: self.should_clear_buffers,
            window_size: self.window_size,
            load_media_path: opt_text(self.load_media_path),
            unload_media: self.unload_media,
            play_video: self.play_video,
            pause_video: self.pause_video,
            restart_video: self.restart_video,
            seek_position_bits: self.seek_position_bits,
            set_loop: self.set_loop,
            set_volume_bits: self.set_volume_bits,
            mute_audio: self.mute_audio,
            toggle_mute: self.toggle_mute,
            start_webcam: self.start_webcam,
            stop_webcam: self.stop_webcam,
        }
    }
}

/// A patch that asks for nothing.
pub open spec fn empty_patch() -> ControlsV {
    ControlsV {
        is_paused: None,
        should_reset: false,
        should_clear_buffers: false,
        window_size: None,
        load_media_path: None,
        unload_media: false,
        play_video: false,
        pause_video: false,
        restart_video: false,
        seek_position_bits: None,
        set_loop: None,
        set_volume_bits: None,
        mute_audio: None,
        toggle_mute: false,
        start_webcam: false,
        stop_webcam: false,
    }
}

impl ControlsPatch {
    /// A patch that asks for nothing.
    pub fn new() -> (p: Self)
        ensures
            p@ == empty_patch(),
    {
        ControlsPatch {
            is_paused: None,
            should_reset: false,
            should_clear_buffers: false,
            load_media_path: None,
            unload_media: false,
            play_video: false,
            pause_video: false,
            restart_video: false,
            seek_position_bits: None,
            set_loop: None,
            set_volume_bits: None,
            mute_audio: None,
            toggle_mute: false,
            start_webcam: false,
            stop_webcam: false,
        }
    }
}

/// `new` if it is set, else `old`.
pub open spec fn or_keep<T>(new: Option<T>, old: Option<T>) -> Option<T> {
    match new {
        Some(v) => Some(v),
        None => old,
    }
}

/// A request after a patch and a remote resolution have been applied to
/// it: the patch's values replace the request's where the patch sets them,
/// its one-shot flags are added, and the remote resolution, when there is
/// one, becomes the window size.
pub open spec fn patched(req: ControlsV, patch: ControlsV, resolution: Option<(u32, u32)>) -> ControlsV {
    ControlsV {
        is_paused: or_keep(patch.is_paused, req.is_paused),
        should_reset: req.should_reset || patch.should_reset,
        should_clear_buffers: req.should_clear_buffers || patch.should_clear_buffers,
        window_size: or_keep(resolution, req.window_size),
        load_media_path: or_keep(patch.load_media_path, req.load_media_path),
        unload_media: req.unload_media || patch.unload_media,
        play_video: req.play_video || patch.play_video,
        pause_video: req.pause_video || patch.pause_video,
        restart_video: req.restart_video || patch.restart_video,
        seek_position_bits: or_keep(patch.seek_position_bits, req.seek_position_bits),
        set_loop: or_keep(patch.set_loop, req.set_loop),
        set_volume_bits: or_keep(patch.set_volume_bits, req.set_volume_bits),
        mute_audio: or_keep(patch.mute_audio, req.mute_audio),
        toggle_mute: req.toggle_mute || patch.toggle_mute,
        start_webcam: req.start_webcam || patch.start_webcam,
        stop_webcam: req.stop_webcam || patch.stop_webcam,
    }
}

/// The built-in controls that a numeric parameter id can address.
#[derive(Clone, Copy, Debug, PartialEq, Eq, Structural)]
pub enum BuiltinTarget {
    Pause,
    Loop,
    Mute,
    Volume,
    Seek,
    MouseX,
    MouseY,
    Key,
    /// Not a built-in control: the shader's own parameter.
    Param,
}

/// The built-in control that a numeric parameter id addresses.
pub open spec fn builtin_target_spec(id: Seq<char>) -> BuiltinTarget {
    if id == "control_pause"@ {
        BuiltinTarget::Pause
    } else if id == "video_loop"@ {
        BuiltinTarget::Loop
    } else if id == "video_mute"@ {
        BuiltinTarget::Mute
    } else if id == "video_volume"@ {
        BuiltinTarget::Volume
    } else if id == "video_seek"@ {
        BuiltinTarget::Seek
    } else if id == "mouse_x"@ {
        BuiltinTarget::MouseX
    } else if id == "mouse_y"@ {
        BuiltinTarget::MouseY
    } else if is_key_id(id) {
        BuiltinTarget::Key
    } else {
        BuiltinTarget::Param
    }
}

/// Ids that start with `key_` name remote keys.
pub open spec fn is_key_id(id: Seq<char>) -> bool {
    id.len() >= 4 && id.take(4) == "key_"@
}

/// Whether `id` names a remote key.
pub fn key_id(id: &str) -> (b: bool)
    ensures
        b == is_key_id(id@),
{
    proof {
        reveal_strlit("key_");
    }
    chars_start_with(&char_vec(id), "key_")
}

/// The built-in control that a numeric parameter id addresses.
pub fn builtin_target(id: &str) -> (t: BuiltinTarget)
    ensures
        t == builtin_target_spec(id@),
{
    if str_eq(id, "control_pause") {
        BuiltinTarget::Pause
    } else if str_eq(id, "video_loop") {
        BuiltinTarget::Loop
    } else if str_eq(id, "video_mute") {
        BuiltinTarget::Mute
    } else if str_eq(id, "video_volume") {
        BuiltinTarget::Volume
    } else if str_eq(id, "video_seek") {
        BuiltinTarget::Seek
    } else if str_eq(id, "mouse_x") {
        BuiltinTarget::MouseX
    } else if str_eq(id, "mouse_y") {
        BuiltinTarget::MouseY
    } else if key_id(id) {
        BuiltinTarget::Key
    } else {
        BuiltinTarget::Param
    }
}

/// Whether key `id` is down in the key table `keys` (absent keys are up).
pub open spec fn key_down_in(keys: Seq<(String, bool)>, id: Seq<char>) -> bool {
    exists|i: int| 0 <= i < keys.len() && (#[trigger] keys[i]).0@ == id && keys[i].1
}

/// No id occurs twice in the key table.
pub open spec fn keys_distinct(keys: Seq<(String, bool)>) -> bool {
    forall|i: int, j: int|
        0 <= i < keys.len() && 0 <= j < keys.len() && i != j ==> (#[trigger] keys[i]).0@ != (
        #[trigger] keys[j]).0@
}

/// The views of key events.
pub open spec fn event_views(v: Seq<(String, bool)>) -> Seq<(Seq<char>, bool)> {
    v.map_values(|e: (String, bool)| (e.0@, e.1))
}

/// The views of notes.
pub open spec fn note_views(v: Seq<(Scalar, Scalar)>) -> Seq<(ScalarV, ScalarV)> {
    v.map_values(|n: (Scalar, Scalar)| (n.0@, n.1@))
}

/// At least one: `max(v, 1)`.
pub open spec fn at_least_one(v: u32) -> u32 {
    if v < 1 {
        1
    } else {
        v
    }
}

/// The pending requests after action `id`: with `pressed` false nothing
/// changes; otherwise `control_reset` resets and clears the buffers,
/// `control_clear_buffers` clears them, and the media actions ask for
/// their one-shot operation.  Other ids change nothing.
pub open spec fn action_patch(p: ControlsV, id: Seq<char>, pressed: bool) -> ControlsV {
    if !pressed {
        p
    } else if id == "control_reset"@ {
        ControlsV { should_reset: true, should_clear_buffers: true, ..p }
    } else if id == "control_clear_buffers"@ {
        ControlsV { should_clear_buffers: true, ..p }
    } else if id == "media_start_webcam"@ {
        ControlsV { start_webcam: true, ..p }
    } else if id == "media_stop_webcam"@ {
        ControlsV { stop_webcam: true, ..p }
    } else if id == "media_unload"@ {
        ControlsV { unload_media: true, ..p }
    } else if id == "video_play"@ {
        ControlsV { play_video: true, ..p }
    } else if id == "video_pause"@ {
        ControlsV { pause_video: true, ..p }
    } else if id == "video_restart"@ {
        ControlsV { restart_video: true, ..p }
    } else if id == "video_mute_toggle"@ {
        ControlsV { toggle_mute: true, ..p }
    } else {
        p
    }
}

fn merge_flags(request: &mut ControlsRequest, p: &ControlsPatch)
    ensures
        final(request)@ == (ControlsV {
            should_reset: old(request)@.should_reset || p@.should_reset,
            should_clear_buffers: old(request)@.should_clear_buffers || p@.should_clear_buffers,
            unload_media: old(request)@.unload_media || p@.unload_media,
            play_video: old(request)@.play_video || p@.play_video,
            pause_video: old(request)@.pause_video || p@.pause_video,
            restart_video: old(request)@.restart_video || p@.restart_video,
            toggle_mute: old(request)@.toggle_mute || p@.toggle_mute,
            start_webcam: old(request)@.start_webcam || p@.start_webcam,
            stop_webcam: old(request)@.stop_webcam || p@.stop_webcam,
            ..old(request)@
        }),
{
    request.should_reset = request.should_reset || p.should_reset;
    request.should_clear_buffers = request.should_clear_buffers || p.should_clear_buffers;
    request.unload_media = request.unload_media || p.unload_media;
    request.play_video = request.play_video || p.play_video;
    request.pause_video = request.pause_video || p.pause_video;
    request.restart_video = request.restart_video || p.restart_video;
    request.toggle_mute = request.toggle_mute || p.toggle_mute;
    request.start_webcam = request.start_webcam || p.start_webcam;
    request.stop_webcam = request.stop_webcam || p.stop_webcam;
}

fn keep_or<T>(new: Option<T>, old: Option<T>) -> (r: Option<T>)
    ensures
        r == or_keep(new, old),
{
    match new {
        Some(v) => Some(v),
        None => old,
    }
}

fn merge_patch(request: &mut ControlsRequest, p: ControlsPatch, resolution: Option<(u32, u32)>)
    ensures
        final(request)@ == patched(old(request)@, p@, resolution),
{
    merge_flags(request, &p);
    let mut old_path: Option<String> = None;
    std::mem::swap(&mut old_path, &mut request.load_media_path);
    request.load_media_path = keep_or(p.load_media_path, old_path);
    request.window_size = keep_or(resolution, request.window_size);
    request.is_paused = match p.is_paused {
        Some(v) => v,
        None => request.is_paused,
    };
    request.seek_position_bits = keep_or(p.seek_position_bits, request.seek_position_bits);
    request.set_loop = keep_or(p.set_loop, request.set_loop);
    request.set_volume_bits = keep_or(p.set_volume_bits, request.set_volume_bits);
    request.mute_audio = keep_or(p.mute_audio, request.mute_audio);
}

/// What a remote command asks of the shader beyond the runtime's own
/// state; the host performs it.  Numbers are as the command carried them.
#[allow(inconsistent_fields)]
pub enum RuntimeEffect {
    /// Nothing more: the command only changed the runtime's state, or
    /// asks for nothing.
    Nothing,
    /// A numeric value for a built-in control or for a shader parameter.
    Value { target: BuiltinTarget, id: String, value: Scalar },
    /// A color for a shader parameter.
    Color3 { id: String, r: Scalar, g: Scalar, b: Scalar },
    /// A string for a shader parameter.
    Text { id: String, value: String },
    /// A boolean for a shader parameter.
    Flag { id: String, value: bool },
    /// A new transport position; the host keeps it when `bpm` is positive.
    Transport { bpm: Scalar, beat: Scalar, measure: Scalar },
    /// Send the catalog and the current values to the host.
    Discover,
    /// Turn feedback on or off; when on, also send the catalog.
    Subscribe { enabled: bool },
    /// Show or hide the overlay.
    Overlay { visible: bool },
    /// Flip the overlay.
    ToggleOverlay,
    /// Show or hide the window's title bar.
    Decorations { visible: bool },
    Title { title: String },
    Position { x: i32, y: i32 },
    /// Scale the window from its native size.
    Scale { scale: Scalar },
    /// Ask for this inner window size (each side at least 1).
    RequestSize { width: u32, height: u32 },
    Time { seconds: Scalar },
    Fps { fps: Scalar },
    /// Render at this resolution (already recorded by the runtime).
    Resize { width: u32, height: u32 },
    Spectrum { values: Vec<Scalar> },
    /// An action; the host triggers it when the value (1 when absent)
    /// reaches one half.
    Action { id: String, value: Option<Scalar> },
}

/// The model of a [`RuntimeEffect`].
#[allow(inconsistent_fields)]
pub enum EffectV {
    Nothing,
    Value { target: BuiltinTarget, id: Seq<char>, value: ScalarV },
    Color3 { id: Seq<char>, r: ScalarV, g: ScalarV, b: ScalarV },
    Text { id: Seq<char>, value: Seq<char> },
    Flag { id: Seq<char>, value: bool },
    Transport { bpm: ScalarV, beat: ScalarV, measure: ScalarV },
    Discover,
    Subscribe { enabled: bool },
    Overlay { visible: bool },
    ToggleOverlay,
    Decorations { visible: bool },
    Title { title: Seq<char> },
    Position { x: i32, y: i32 },
    Scale { scale: ScalarV },
    RequestSize { width: u32, height: u32 },
    Time { seconds: ScalarV },
    Fps { fps: ScalarV },
    Resize { width: u32, height: u32 },
    Spectrum { values: Seq<ScalarV> },
    Action { id: Seq<char>, value: Option<ScalarV> },
}

impl View for RuntimeEffect {
    type V = EffectV;

    open spec fn view(&self) -> EffectV {
        match self {
            RuntimeEffect::Nothing => EffectV::Nothing,
            RuntimeEffect::Value { target, id, value } => EffectV::Value {
                target: *target,
                id: id@,
                value: value@,
            },
            RuntimeEffect::Color3 { id, r, g, b } => EffectV::Color3 { id: id@, r: r@, g: g@, b: b@ },
            RuntimeEffect::Text { id, value } => EffectV::Text { id: id@, value: value@ },
            RuntimeEffect::Flag { id, value } => EffectV::Flag { id: id@, value: *value },
            RuntimeEffect::Transport { bpm, beat, measure } => EffectV::Transport {
                bpm: bpm@,
                beat: beat@,
                measure: measure@,
            },
            RuntimeEffect::Discover => EffectV::Discover,
            RuntimeEffect::Subscribe { enabled } => EffectV::Subscribe { enabled: *enabled },
            RuntimeEffect::Overlay { visible } => EffectV::Overlay { visible: *visible },
            RuntimeEffect::ToggleOverlay => EffectV::ToggleOverlay,
            RuntimeEffect::Decorations { visible } => EffectV::Decorations { visible: *visible },
            RuntimeEffect::Title { title } => EffectV::Title { title: title@ },
            RuntimeEffect::Position { x, y } => EffectV::Position { x: *x, y: *y },
            RuntimeEffect::Scale { scale } => EffectV::Scale { scale: scale@ },
            RuntimeEffect::RequestSize { width, height } => EffectV::RequestSize {
                width: *width,
                height: *height,
            },
            RuntimeEffect::Time { seconds } => EffectV::Time { seconds: seconds@ },
            RuntimeEffect::Fps { fps } => EffectV::Fps { fps: fps@ },
            RuntimeEffect::Resize { width, height } => EffectV::Resize {
                width: *width,
                height: *height,
            },
            RuntimeEffect::Spectrum { values } => EffectV::Spectrum { values: scalar_views(values@) },
            RuntimeEffect::Action { id, value } => EffectV::Action {
                id: id@,
                value: match value {
                    Some(v) => Some(v@),
                    None => None,
                },
            },
        }
    }
}

/// Whether a string parameter id names the built-in media loader.
pub open spec fn is_media_id(id: Seq<char>) -> bool {
    id == "media_path"@ || id == "load_media"@
}

/// What a command asks of the host.
pub open spec fn command_effect(c: CommandV) -> EffectV {
    match c {
        CommandV::SetF32 { id, value } => EffectV::Value { target: builtin_target_spec(id), id, value },
        CommandV::SetColor3 { id, r, g, b } => EffectV::Color3 { id, r, g, b },
        CommandV::SetString { id, value } => if is_media_id(id) {
            EffectV::Nothing
        } else {
            EffectV::Text { id, value }
        },
        CommandV::SetBool { id, value } => if is_key_id(id) {
            EffectV::Nothing
        } else {
            EffectV::Flag { id, value }
        },
        CommandV::Pulse { .. } => EffectV::Nothing,
        CommandV::Note { .. } => EffectV::Nothing,
        CommandV::Transport { bpm, beat, measure } => EffectV::Transport { bpm, beat, measure },
        CommandV::OverlayVisible { visible } => EffectV::Overlay { visible },
        CommandV::ToggleOverlay => EffectV::ToggleOverlay,
        CommandV::TitleBarVisible { visible } => EffectV::Decorations { visible },
        CommandV::HideTitleBar => EffectV::Decorations { visible: false },
        CommandV::WindowTitle { title } => EffectV::Title { title },
        CommandV::WindowPosition { x, y } => EffectV::Position { x, y },
        CommandV::WindowScale { scale } => EffectV::Scale { scale },
        CommandV::WindowSize { width, height } => EffectV::RequestSize {
            width: at_least_one(width),
            height: at_least_one(height),
        },
        CommandV::Time { seconds } => EffectV::Time { seconds },
        CommandV::Fps { fps } => EffectV::Fps { fps },
        CommandV::Resolution { width, height } => EffectV::Resize {
            width: at_least_one(width),
            height: at_least_one(height),
        },
        CommandV::AudioSpectrum { values } => EffectV::Spectrum { values },
        CommandV::Action { id, value } => EffectV::Action { id, value },
        CommandV::LoadMedia { .. } => EffectV::Nothing,
        CommandV::Discover => EffectV::Discover,
        CommandV::Subscribe { enabled } => EffectV::Subscribe { enabled },
    }
}

/// The remote control state of a running shader.
pub struct RemoteRuntime {
    config: RemoteRuntimeConfig,
    resolution: Option<(u32, u32)>,
    notes: Vec<(Scalar, Scalar)>,
    keys: Vec<(String, bool)>,
    key_events: Vec<(String, bool)>,
    patch: ControlsPatch,
}

impl RemoteRuntime {
    /// The runtime's invariant: the key table holds each id once.
    pub closed spec fn wf(&self) -> bool {
        keys_distinct(self.keys@)
    }

    /// Whether remote key `id` is down.
    pub closed spec fn key_state(&self, id: Seq<char>) -> bool {
        key_down_in(self.keys@, id)
    }

    /// The key changes not yet taken, oldest first.
    pub closed spec fn pending_key_events(&self) -> Seq<(Seq<char>, bool)> {
        event_views(self.key_events@)
    }

    /// The notes not yet taken, oldest first.
    pub closed spec fn pending_notes(&self) -> Seq<(ScalarV, ScalarV)> {
        note_views(self.notes@)
    }

    /// The shader this runtime serves.
    pub closed spec fn runtime_config(&self) -> RemoteRuntimeConfig {
        self.config
    }

    /// The pending requests to the shader's controls.
    pub closed spec fn pending(&self) -> ControlsV {
        self.patch@
    }

    /// The render resolution that a host has set, if any.
    pub closed spec fn remote_resolution(&self) -> Option<(u32, u32)> {
        self.resolution
    }

    /// A runtime with nothing pending, no keys down and no resolution set.
    pub fn new(config: RemoteRuntimeConfig) -> (r: Self)
        ensures
            r.wf(),
            r.runtime_config() == config,
            forall|id: Seq<char>| !r.key_state(id),
            r.pending_key_events() == Seq::<(Seq<char>, bool)>::empty(),
            r.pending_notes() == Seq::<(ScalarV, ScalarV)>::empty(),
            r.pending() == empty_patch(),
            r.remote_resolution() is None,
    {
        let r = RemoteRuntime {
            config,
            resolution: None,
            notes: Vec::new(),
            keys: Vec::new(),
            key_events: Vec::new(),
            patch: ControlsPatch::new(),
        };
        assert(r.pending_key_events() =~= Seq::<(Seq<char>, bool)>::empty());
        assert(r.pending_notes() =~= Seq::<(ScalarV, ScalarV)>::empty());
        r
    }

    /// The shader this runtime serves.
    pub fn config(&self) -> (c: RemoteRuntimeConfig)
        ensures
            c == self.runtime_config(),
    {
        self.config
    }

    /// Whether remote key `id` is down.
    pub fn key_down(&self, id: &str) -> (b: bool)
        ensures
            b == self.key_state(id@),
    {
        let mut i: usize = 0;
        while i < self.keys.len()
            invariant
                i <= self.keys@.len(),
                forall|j: int| 0 <= j < i ==> (#[trigger] self.keys@[j]).0@ != id@ || !self.keys@[j].1,
            decreases self.keys@.len() - i,
        {
            if str_eq(self.keys[i].0.as_str(), id) && self.keys[i].1 {
                return true;
            }
            i = i + 1;
        }
        false
    }

    /// Sets remote key `id` up or down, and records a key event when that
    /// changes whether the key is down.
    pub fn set_remote_key(&mut self, id: &str, down: bool)
        requires
            old(self).wf(),
        ensures
            final(self).wf(),
            final(self).key_state(id@) == down,
            forall|k: Seq<char>| k != id@ ==> final(self).key_state(k) == old(self).key_state(k),
            final(self).pending_key_events() == if old(self).key_state(id@) != down {
                old(self).pending_key_events().push((id@, down))
            } else {
                old(self).pending_key_events()
            },
            final(self).runtime_config() == old(self).runtime_config(),
            final(self).pending_notes() == old(self).pending_notes(),
            final(self).pending() == old(self).pending(),
            final(self).remote_resolution() == old(self).remote_resolution(),
    {
        let was = self.key_down(id);
        let mut i: usize = 0;
        while i < self.keys.len() && !str_eq(self.keys[i].0.as_str(), id)
            invariant
                i <= self.keys@.len(),
                forall|j: int| 0 <= j < i ==> (#[trigger] self.keys@[j]).0@ != id@,
            decreases self.keys@.len() - i,
        {
            i = i + 1;
        }
        let ghost old_keys = self.keys@;
        if i < self.keys.len() {
            self.keys.set(i, (id.to_owned(), down));
            proof {
                assert forall|k: Seq<char>| k != id@ implies key_down_in(self.keys@, k)
                    == key_down_in(old_keys, k) by {
                    if key_down_in(old_keys, k) {
                        let j = choose|j: int| 0 <= j < old_keys.len() && (#[trigger] old_keys[j]).0@ == k && old_keys[j].1;
                        assert(self.keys@[j] == old_keys[j]);
                    }
                    if key_down_in(self.keys@, k) {
                        let j = choose|j: int| 0 <= j < self.keys@.len() && (#[trigger] self.keys@[j]).0@ == k && self.keys@[j].1;
                        assert(j != i);
                        assert(self.keys@[j] == old_keys[j]);
                    }
                }
                if !down {
                    if key_down_in(self.keys@, id@) {
                        let j = choose|j: int| 0 <= j < self.keys@.len() && (#[trigger] self.keys@[j]).0@ == id@ && self.keys@[j].1;
                        assert(j != i);
                        assert(old_keys[j].0@ == old_keys[i as int].0@);
                    }
                } else {
                    assert(self.keys@[i as int].0@ == id@);
                }
            }
        } else {
            self.keys.push((id.to_owned(), down));
            proof {
                assert forall|k: Seq<char>| k != id@ implies key_down_in(self.keys@, k)
                    == key_down_in(old_keys, k) by {
                    if key_down_in(old_keys, k) {
                        let j = choose|j: int| 0 <= j < old_keys.len() && (#[trigger] old_keys[j]).0@ == k && old_keys[j].1;
                        assert(self.keys@[j] == old_keys[j]);
                    }
                    if key_down_in(self.keys@, k) {
                        let j = choose|j: int| 0 <= j < self.keys@.len() && (#[trigger] self.keys@[j]).0@ == k && self.keys@[j].1;
                        assert(self.keys@[j] == old_keys[j]);
                    }
                }
                let n = old_keys.len() as int;
                if down {
                    assert(self.keys@[n].0@ == id@);
                } else if key_down_in(self.keys@, id@) {
                    let j = choose|j: int| 0 <= j < self.keys@.len() && (#[trigger] self.keys@[j]).0@ == id@ && self.keys@[j].1;
                    assert(j != n);
                }
            }
        }
        if was != down {
            let ghost before = self.key_events@;
            self.key_events.push((id.to_owned(), down));
            assert(event_views(self.key_events@) =~= event_views(before).push((id@, down)));
        }
    }

    /// Everything but the pending requests is as in `o`.
    pub open spec fn same_but_pending(&self, o: &Self) -> bool {
        &&& self.wf() == o.wf()
        &&& self.runtime_config() == o.runtime_config()
        &&& self.remote_resolution() == o.remote_resolution()
        &&& self.pending_notes() == o.pending_notes()
        &&& self.pending_key_events() == o.pending_key_events()
        &&& forall|id: Seq<char>| self.key_state(id) == o.key_state(id)
    }

    /// Takes the key changes recorded since the last call, oldest first.
    pub fn take_key_events(&mut self) -> (v: Vec<(String, bool)>)
        ensures
            event_views(v@) == old(self).pending_key_events(),
            final(self).pending_key_events() == Seq::<(Seq<char>, bool)>::empty(),
            final(self).wf() == old(self).wf(),
            final(self).runtime_config() == old(self).runtime_config(),
            final(self).remote_resolution() == old(self).remote_resolution(),
            final(self).pending_notes() == old(self).pending_notes(),
            final(self).pending() == old(self).pending(),
            forall|id: Seq<char>| final(self).key_state(id) == old(self).key_state(id),
    {
        let mut v: Vec<(String, bool)> = Vec::new();
        std::mem::swap(&mut v, &mut self.key_events);
        assert(event_views(self.key_events@) =~= Seq::<(Seq<char>, bool)>::empty());
        v
    }

    /// Queues a note that a host played.
    pub fn push_note(&mut self, pitch: Scalar, velocity: Scalar)
        ensures
            final(self).pending_notes() == old(self).pending_notes().push((pitch@, velocity@)),
            final(self).wf() == old(self).wf(),
            final(self).runtime_config() == old(self).runtime_config(),
            final(self).remote_resolution() == old(self).remote_resolution(),
            final(self).pending_key_events() == old(self).pending_key_events(),
            final(self).pending() == old(self).pending(),
            forall|id: Seq<char>| final(self).key_state(id) == old(self).key_state(id),
    {
        let ghost before = self.notes@;
        self.notes.push((pitch, velocity));
        assert(note_views(self.notes@) =~= note_views(before).push((pitch@, velocity@)));
    }

    /// Takes the notes queued since the last call, oldest first.
    pub fn take_notes(&mut self) -> (v: Vec<(Scalar, Scalar)>)
        ensures
            note_views(v@) == old(self).pending_notes(),
            final(self).pending_notes() == Seq::<(ScalarV, ScalarV)>::empty(),
            final(self).wf() == old(self).wf(),
            final(self).runtime_config() == old(self).runtime_config(),
            final(self).remote_resolution() == old(self).remote_resolution(),
            final(self).pending_key_events() == old(self).pending_key_events(),
            final(self).pending() == old(self).pending(),
            forall|id: Seq<char>| final(self).key_state(id) == old(self).key_state(id),
    {
        let mut v: Vec<(Scalar, Scalar)> = Vec::new();
        std::mem::swap(&mut v, &mut self.notes);
        assert(note_views(self.notes@) =~= Seq::<(ScalarV, ScalarV)>::empty());
        v
    }

    /// Asks the shader to pause or resume.
    pub fn set_paused(&mut self, paused: bool)
        ensures
            final(self).pending() == (ControlsV { is_paused: Some(paused), ..old(self).pending() }),
            final(self).same_but_pending(&*old(self)),
    {
        self.patch.is_paused = Some(paused);
    }

    /// Asks the video to loop or not.
    pub fn set_video_loop(&mut self, on: bool)
        ensures
            final(self).pending() == (ControlsV { set_loop: Some(on), ..old(self).pending() }),
            final(self).same_but_pending(&*old(self)),
    {
        self.patch.set_loop = Some(on);
    }

    /// Asks the video's audio to be muted or not.
    pub fn set_video_mute(&mut self, on: bool)
        ensures
            final(self).pending() == (ControlsV { mute_audio: Some(on), ..old(self).pending() }),
            final(self).same_but_pending(&*old(self)),
    {
        self.patch.mute_audio = Some(on);
    }

    /// Asks for a video volume, given by the bits of an `f64`.
    pub fn set_video_volume_bits(&mut self, bits: u64)
        ensures
            final(self).pending() == (ControlsV {
                set_volume_bits: Some(bits),
                ..old(self).pending()
            }),
            final(self).same_but_pending(&*old(self)),
    {
        self.patch.set_volume_bits = Some(bits);
    }

    /// Asks for a seek, to a position given by the bits of an `f64`.
    pub fn set_video_seek_bits(&mut self, bits: u64)
        ensures
            final(self).pending() == (ControlsV {
                seek_position_bits: Some(bits),
                ..old(self).pending()
            }),
            final(self).same_but_pending(&*old(self)),
    {
        self.patch.seek_position_bits = Some(bits);
    }

    /// Asks the shader to load the media at `path` (unquoted and trimmed)
    /// and to play it.
    pub fn load_media(&mut self, path: String)
        ensures
            final(self).pending() == (ControlsV {
                load_media_path: Some(unquoted_path(path@)),
                play_video: true,
                ..old(self).pending()
            }),
            final(self).same_but_pending(&*old(self)),
    {
        self.patch.load_media_path = Some(media_path_from_string(path));
        self.patch.play_video = true;
    }

    /// A string parameter that names a built-in control: `media_path` and
    /// `load_media` load and play media.  Returns whether `id` was one.
    pub fn apply_builtin_string(&mut self, id: &str, value: String) -> (used: bool)
        ensures
            used == (id@ == "media_path"@ || id@ == "load_media"@),
            used ==> final(self).pending() == (ControlsV {
                load_media_path: Some(unquoted_path(value@)),
                play_video: true,
                ..old(self).pending()
            }),
            !used ==> final(self).pending() == old(self).pending(),
            final(self).same_but_pending(&*old(self)),
    {
        if str_eq(id, "media_path") || str_eq(id, "load_media") {
            self.load_media(value);
            true
        } else {
            false
        }
    }

    /// An action triggered by a host; it acts only when `pressed` (its value
    /// reached one half).
    pub fn apply_action(&mut self, id: &str, pressed: bool)
        ensures
            final(self).pending() == action_patch(old(self).pending(), id@, pressed),
            final(self).same_but_pending(&*old(self)),
    {
        if !pressed {
            return;
        }
        if str_eq(id, "control_reset") {
            self.patch.should_reset = true;
            self.patch.should_clear_buffers = true;
        } else if str_eq(id, "control_clear_buffers") {
            self.patch.should_clear_buffers = true;
        } else if str_eq(id, "media_start_webcam") {
            self.patch.start_webcam = true;
        } else if str_eq(id, "media_stop_webcam") {
            self.patch.stop_webcam = true;
        } else if str_eq(id, "media_unload") {
            self.patch.unload_media = true;
        } else if str_eq(id, "video_play") {
            self.patch.play_video = true;
        } else if str_eq(id, "video_pause") {
            self.patch.pause_video = true;
        } else if str_eq(id, "video_restart") {
            self.patch.restart_video = true;
        } else if str_eq(id, "video_mute_toggle") {
            self.patch.toggle_mute = true;
        }
    }

    /// Sets the render resolution, each side at least 1, and returns it.
    pub fn set_resolution(&mut self, width: u32, height: u32) -> (r: (u32, u32))
        ensures
            r == (at_least_one(width), at_least_one(height)),
            final(self).remote_resolution() == Some(r),
            final(self).wf() == old(self).wf(),
            final(self).runtime_config() == old(self).runtime_config(),
            final(self).pending() == old(self).pending(),
            final(self).pending_notes() == old(self).pending_notes(),
            final(self).pending_key_events() == old(self).pending_key_events(),
            forall|id: Seq<char>| final(self).key_state(id) == old(self).key_state(id),
    {
        let w = if width < 1 { 1 } else { width };
        let h = if height < 1 { 1 } else { height };
        self.resolution = Some((w, h));
        (w, h)
    }

    /// The render resolution that a host has set, if any.
    pub fn resolution(&self) -> (r: Option<(u32, u32)>)
        ensures
            r == self.remote_resolution(),
    {
        self.resolution
    }

    /// Hands the pending requests to the shader's controls: the request
    /// takes the patch's values and flags and the remote resolution, and
    /// the patch is emptied, so that each request is made once.
    pub fn apply_to_controls_request(&mut self, request: &mut ControlsRequest)
        ensures
            final(request)@ == patched(old(request)@, old(self).pending(), old(self).remote_resolution()),
            final(self).pending() == empty_patch(),
            final(self).same_but_pending(&*old(self)),
    {
        let mut p = ControlsPatch::new();
        std::mem::swap(&mut p, &mut self.patch);
        merge_patch(request, p, self.resolution);
    }

    /// Everything is as in `o`.
    pub open spec fn same_state(&self, o: &Self) -> bool {
        self.same_but_pending(o) && self.pending() == o.pending()
    }

    /// Takes one remote command: records what belongs to the runtime (key
    /// states, notes, media to load, the render resolution) and returns
    /// what the host must do.
    pub fn apply_command(&mut self, command: RemoteCommand) -> (e: RuntimeEffect)
        requires
            old(self).wf(),
        ensures
            final(self).wf(),
            e@ == command_effect(command@),
            match command@ {
                CommandV::SetString { id, value } => if is_media_id(id) {
                    &&& final(self).pending() == (ControlsV {
                        load_media_path: Some(unquoted_path(value)),
                        play_video: true,
                        ..old(self).pending()
                    })
                    &&& final(self).same_but_pending(&*old(self))
                } else {
                    final(self).same_state(&*old(self))
                },
                CommandV::LoadMedia { path } => {
                    &&& final(self).pending() == (ControlsV {
                        load_media_path: Some(unquoted_path(path)),
                        play_video: true,
                        ..old(self).pending()
                    })
                    &&& final(self).same_but_pending(&*old(self))
                },
                CommandV::SetBool { id, value } => if is_key_id(id) {
                    &&& final(self).key_state(id) == value
                    &&& forall|k: Seq<char>| k != id ==> final(self).key_state(k) == old(self).key_state(k)
                    &&& final(self).pending_key_events() == if old(self).key_state(id) != value {
                        old(self).pending_key_events().push((id, value))
                    } else {
                        old(self).pending_key_events()
                    }
                    &&& final(self).runtime_config() == old(self).runtime_config()
                    &&& final(self).pending_notes() == old(self).pending_notes()
                    &&& final(self).pending() == old(self).pending()
                    &&& final(self).remote_resolution() == old(self).remote_resolution()
                } else {
                    final(self).same_state(&*old(self))
                },
                CommandV::Note { pitch, velocity } => {
                    &&& final(self).pending_notes() == old(self).pending_notes().push((pitch, velocity))
                    &&& final(self).runtime_config() == old(self).runtime_config()
                    &&& final(self).remote_resolution() == old(self).remote_resolution()
                    &&& final(self).pending_key_events() == old(self).pending_key_events()
                    &&& final(self).pending() == old(self).pending()
                    &&& forall|k: Seq<char>| final(self).key_state(k) == old(self).key_state(k)
                },
                CommandV::Resolution { width, height } => {
                    &&& final(self).remote_resolution() == Some((at_least_one(width), at_least_one(height)))
                    &&& final(self).runtime_config() == old(self).runtime_config()
                    &&& final(self).pending() == old(self).pending()
                    &&& final(self).pending_notes() == old(self).pending_notes()
                    &&& final(self).pending_key_events() == old(self).pending_key_events()
                    &&& forall|k: Seq<char>| final(self).key_state(k) == old(self).key_state(k)
                },
                _ => final(self).same_state(&*old(self)),
            },
    {
        match command {
            RemoteCommand::SetF32 { id, value } => {
                let target = builtin_target(id.as_str());
                RuntimeEffect::Value { target, id, value }
            },
            RemoteCommand::SetColor3 { id, r, g, b } => RuntimeEffect::Color3 { id, r, g, b },
            RemoteCommand::SetString { id, value } => {
                if str_eq(id.as_str(), "media_path") || str_eq(id.as_str(), "load_media") {
                    self.load_media(value);
                    RuntimeEffect::Nothing
                } else {
                    RuntimeEffect::Text { id, value }
                }
            },
            RemoteCommand::SetBool { id, value } => {
                if key_id(id.as_str()) {
                    self.set_remote_key(id.as_str(), value);
                    RuntimeEffect::Nothing
                } else {
                    RuntimeEffect::Flag { id, value }
                }
            },
            RemoteCommand::Pulse { .. } => RuntimeEffect::Nothing,
            RemoteCommand::Note { pitch, velocity } => {
                self.push_note(pitch, velocity);
                RuntimeEffect::Nothing
            },
            RemoteCommand::Transport { bpm, beat, measure } => RuntimeEffect::Transport {
                bpm,
                beat,
                measure,
            },
            RemoteCommand::OverlayVisible { visible } => RuntimeEffect::Overlay { visible },
            RemoteCommand::ToggleOverlay => RuntimeEffect::ToggleOverlay,
            RemoteCommand::TitleBarVisible { visible } => RuntimeEffect::Decorations { visible },
            RemoteCommand::HideTitleBar => RuntimeEffect::Decorations { visible: false },
            RemoteCommand::WindowTitle { title } => RuntimeEffect::Title { title },
            RemoteCommand::WindowPosition { x, y } => RuntimeEffect::Position { x, y },
            RemoteCommand::WindowScale { scale } => RuntimeEffect::Scale { scale },
            RemoteCommand::WindowSize { width, height } => RuntimeEffect::RequestSize {
                width: if width < 1 { 1 } else { width },
                height: if height < 1 { 1 } else { height },
            },
            RemoteCommand::Time { seconds } => RuntimeEffect::Time { seconds },
            RemoteCommand::Fps { fps } => RuntimeEffect::Fps { fps },
            RemoteCommand::Resolution { width, height } => {
                let (w, h) = self.set_resolution(width, height);
                RuntimeEffect::Resize { width: w, height: h }
            },
            RemoteCommand::AudioSpectrum { values } => RuntimeEffect::Spectrum { values },
            RemoteCommand::Action { id, value } => RuntimeEffect::Action { id, value },
            RemoteCommand::LoadMedia { path } => {
                self.load_media(path);
                RuntimeEffect::Nothing
            },
            RemoteCommand::Discover => RuntimeEffect::Discover,
            RemoteCommand::Subscribe { enabled } => RuntimeEffect::Subscribe { enabled },
        }
    }
}

/// Each action sets only its own requests, and only when pressed:
/// `video_play` asks to play, `video_pause` to pause, `video_restart` to
/// restart, `video_mute_toggle` to toggle muting, `media_unload` to unload,
/// `media_start_webcam` and `media_stop_webcam` to start and stop the
/// webcam, `control_reset` to reset (and clear the buffers), and
/// `control_clear_buffers` to clear the buffers.  Requests already made
/// stay made, and the valued requests are never touched.
pub proof fn lemma_action_requests(p: ControlsV, id: Seq<char>, pressed: bool)
    ensures
        ({
            let q = action_patch(p, id, pressed);
            &&& q.play_video == (p.play_video || (pressed && id == "video_play"@))
            &&& q.pause_video == (p.pause_video || (pressed && id == "video_pause"@))
            &&& q.restart_video == (p.restart_video || (pressed && id == "video_restart"@))
            &&& q.toggle_mute == (p.toggle_mute || (pressed && id == "video_mute_toggle"@))
            &&& q.unload_media == (p.unload_media || (pressed && id == "media_unload"@))
            &&& q.start_webcam == (p.start_webcam || (pressed && id == "media_start_webcam"@))
            &&& q.stop_webcam == (p.stop_webcam || (pressed && id == "media_stop_webcam"@))
            &&& q.should_reset == (p.should_reset || (pressed && id == "control_reset"@))
            &&& q.should_clear_buffers == (p.should_clear_buffers || (pressed && (id
                == "control_reset"@ || id == "control_clear_buffers"@)))
            &&& q.is_paused == p.is_paused
            &&& q.window_size == p.window_size
            &&& q.load_media_path == p.load_media_path
            &&& q.seek_position_bits == p.seek_position_bits
            &&& q.set_loop == p.set_loop
            &&& q.set_volume_bits == p.set_volume_bits
            &&& q.mute_audio == p.mute_audio
        }),
{
    reveal_strlit("control_reset");
    reveal_strlit("control_clear_buffers");
    reveal_strlit("media_start_webcam");
    reveal_strlit("media_stop_webcam");
    reveal_strlit("media_unload");
    reveal_strlit("video_play");
    reveal_strlit("video_pause");
    reveal_strlit("video_restart");
    reveal_strlit("video_mute_toggle");
    assert("control_reset"@.len() == 13);
    assert("control_clear_buffers"@.len() == 21);
    assert("media_start_webcam"@.len() == 18);
    assert("media_stop_webcam"@.len() == 17);
    assert("media_unload"@.len() == 12);
    assert("video_play"@.len() == 10);
    assert("video_pause"@.len() == 11);
    assert("video_restart"@.len() == 13);
    assert("video_mute_toggle"@.len() == 17);
    assert("control_reset"@[0] == 'c' && "video_restart"@[0] == 'v');
    assert("media_stop_webcam"@[0] == 'm' && "video_mute_toggle"@[0] == 'v');
}

/// Handing pending requests to the controls adds each one-shot request to
/// those already made and leaves the others made; a play request never
/// comes from a pause request or the other way round.
pub proof fn lemma_request_flags(req: ControlsV, patch: ControlsV, resolution: Option<(u32, u32)>)
    ensures
        ({
            let r = patched(req, patch, resolution);
            &&& r.play_video <==> (req.play_video || patch.play_video)
            &&& r.pause_video <==> (req.pause_video || patch.pause_video)
            &&& r.restart_video <==> (req.restart_video || patch.restart_video)
            &&& r.toggle_mute <==> (req.toggle_mute || patch.toggle_mute)
            &&& r.unload_media <==> (req.unload_media || patch.unload_media)
            &&& r.start_webcam <==> (req.start_webcam || patch.start_webcam)
            &&& r.stop_webcam <==> (req.stop_webcam || patch.stop_webcam)
            &&& r.should_reset <==> (req.should_reset || patch.should_reset)
            &&& r.should_clear_buffers <==> (req.should_clear_buffers || patch.should_clear_buffers)
        }),
{
}

/// The requests of a patch are made once: handing an emptied patch to a
/// request that already took a patch changes nothing but what the remote
/// resolution sets, which it had set already.
pub proof fn lemma_patch_applied_once(req: ControlsV, patch: ControlsV, resolution: Option<(u32, u32)>)
    ensures
        patched(patched(req, patch, resolution), empty_patch(), resolution) == patched(
            req,
            patch,
            resolution,
        ),
{
}

/// An action that is not pressed changes nothing, and an action changes
/// only flags that it sets to true.
pub proof fn lemma_action_only_sets(p: ControlsV, id: Seq<char>, pressed: bool)
    ensures
        !pressed ==> action_patch(p, id, false) == p,
        action_patch(p, id, pressed).is_paused == p.is_paused,
        action_patch(p, id, pressed).load_media_path == p.load_media_path,
        p.should_reset ==> action_patch(p, id, pressed).should_reset,
        p.should_clear_buffers ==> action_patch(p, id, pressed).should_clear_buffers,
        action_patch(p, id, pressed).should_reset ==> action_patch(p, id, pressed).should_clear_buffers
            || p.should_reset,
{
}

} // verus!
