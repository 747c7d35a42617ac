//! The declarative configuration of compute shaders: passes, their
//! dependencies and resolutions, user storage buffers, and the engine
//! resources a shader asks for.
use vstd::prelude::*;

verus! {

/// One pass of a multi-pass compute pipeline: its entry point, the
/// buffers it reads (input slot `i` reads `inputs[i]`), and optional
/// dispatch and resolution overrides.  The scale is an `f32` held by its
/// bits.
pub struct PassDescription {
    pub name: String,
    pub inputs: Vec<String>,
    pub workgroup_size: Option<[u32; 3]>,
    pub resolution: Option<[u32; 2]>,
    pub resolution_scale_bits: Option<u32>,
}

/// The views of strings.
pub open spec fn string_views(v: Seq<String>) -> Seq<Seq<char>> {
    v.map_values(|s: String| s@)
}

/// The views of string slices.
pub open spec fn str_views(v: Seq<&str>) -> Seq<Seq<char>> {
    v.map_values(|s: &str| s@)
}

fn owned_strings(v: &[&str]) -> (r: Vec<String>)
    ensures
        string_views(r@) == str_views(v@),
{
    let mut r: Vec<String> = Vec::new();
    let mut i: usize = 0;
    while i < v.len()
        invariant
            i <= v@.len(),
            string_views(r@) == str_views(v@.take(i as int)),
        decreases v@.len() - i,
    {
        let ghost before = r@;
        r.push(v[i].to_owned());
        assert(string_views(r@) =~= string_views(before).push(v@[i as int]@));
        assert(str_views(v@.take(i + 1)) =~= str_views(v@.take(i as int)).push(v@[i as int]@));
        i = i + 1;
    }
    assert(v@.take(v@.len() as int) =~= v@);
    r
}

impl PassDescription {
    /// A pass with entry point `name` reading `inputs`, with no overrides.
    pub fn new(name: &str, inputs: &[&str]) -> (p: Self)
        ensures
            p.name@ == name@,
            string_views(p.inputs@) == str_views(inputs@),
            p.workgroup_size is None,
            p.resolution is None,
            p.resolution_scale_bits is None,
    {
        PassDescription {
            name: name.to_owned(),
            inputs: owned_strings(inputs),
            workgroup_size: None,
            resolution: None,
            resolution_scale_bits: None,
        }
    }

    /// Dispatches exactly `size` workgroups for this pass.
    pub fn with_workgroup_size(self, size: [u32; 3]) -> (p: Self)
        ensures
            p.workgroup_size == Some(size),
            p.name == self.name,
            p.inputs == self.inputs,
            p.resolution == self.resolution,
            p.resolution_scale_bits == self.resolution_scale_bits,
    {
        PassDescription { workgroup_size: Some(size), ..self }
    }

    /// Gives this pass's buffer a fixed resolution.
    pub fn with_resolution(self, width: u32, height: u32) -> (p: Self)
        ensures
            p.resolution == Some([width, height]),
            p.name == self.name,
            p.inputs == self.inputs,
            p.workgroup_size == self.workgroup_size,
            p.resolution_scale_bits == self.resolution_scale_bits,
    {
        PassDescription { resolution: Some([width, height]), ..self }
    }

    /// Scales this pass's buffer relative to the screen (the scale by its
    /// `f32` bits).
    pub fn with_resolution_scale_bits(self, scale_bits: u32) -> (p: Self)
        ensures
            p.resolution_scale_bits == Some(scale_bits),
            p.name == self.name,
            p.inputs == self.inputs,
            p.workgroup_size == self.workgroup_size,
            p.resolution == self.resolution,
    {
        PassDescription { resolution_scale_bits: Some(scale_bits), ..self }
    }
}

/// A user storage buffer bound in group 3.
pub struct StorageBufferSpec {
    pub name: String,
    pub size_bytes: u64,
}

impl StorageBufferSpec {
    /// A storage buffer named `name` of `size_bytes` bytes.
    pub fn new(name: &str, size_bytes: u64) -> (s: Self)
        ensures
            s.name@ == name@,
            s.size_bytes == size_bytes,
    {
        StorageBufferSpec { name: name.to_owned(), size_bytes }
    }
}

/// The output texture formats of compute shaders.
#[derive(Clone, Copy, Debug, PartialEq, Eq, Structural)]
pub enum OutputFormat {
    Rgba16Float,
    Rgba8Unorm,
}

/// What a compute shader is built with.
pub struct ComputeConfiguration {
    pub entry_points: Vec<String>,
    pub passes: Option<Vec<PassDescription>>,
    pub custom_uniform_size: Option<u64>,
    pub has_input_texture: bool,
    pub has_mouse: bool,
    pub has_fonts: bool,
    pub has_audio: bool,
    pub has_atomic_buffer: bool,
    pub atomic_buffer_channels: u32,
    pub audio_buffer_size: usize,
    pub has_audio_spectrum: bool,
    pub audio_spectrum_size: usize,
    pub storage_buffers: Vec<StorageBufferSpec>,
    pub workgroup_size: [u32; 3],
    pub dispatch_once: bool,
    pub texture_format: OutputFormat,
    pub label: String,
    pub num_channels: Option<u32>,
    pub hot_reload_path: Option<String>,
    pub max_input_deps: usize,
}

/// The model of a [`PassDescription`].
pub struct PassV {
    pub name: Seq<char>,
    pub inputs: Seq<Seq<char>>,
    pub workgroup_size: Option<[u32; 3]>,
    pub resolution: Option<[u32; 2]>,
    pub resolution_scale_bits: Option<u32>,
}

impl View for PassDescription {
    type V = PassV;

    open spec fn view(&self) -> PassV {
        PassV {
            name: self.name@,
            inputs: string_views(self.inputs@),
            workgroup_size: self.workgroup_size,
            resolution: self.resolution,
            resolution_scale_bits: self.resolution_scale_bits,
        }
    }
}

/// The views of passes.
pub open spec fn pass_views(v: Seq<PassDescription>) -> Seq<PassV> {
    v.map_values(|p: PassDescription| p@)
}

fn copy_strings(v: &Vec<String>) -> (r: Vec<String>)
    ensures
        string_views(r@) == string_views(v@),
{
    let mut r: Vec<String> = Vec::new();
    let mut i: usize = 0;
    while i < v.len()
        invariant
            i <= v@.len(),
            string_views(r@) == string_views(v@.take(i as int)),
        decreases v@.len() - i,
    {
        let ghost before = r@;
        r.push(v[i].as_str().to_owned());
        assert(string_views(r@) =~= string_views(before).push(v@[i as int]@));
        assert(string_views(v@.take(i + 1)) =~= string_views(v@.take(i as int)).push(v@[i as int]@));
        i = i + 1;
    }
    assert(v@.take(v@.len() as int) =~= v@);
    r
}

impl PassDescription {
    /// An equal copy of this pass.
    pub fn duplicate(&self) -> (p: Self)
        ensures
            p@ == self@,
    {
        PassDescription {
            name: self.name.as_str().to_owned(),
            inputs: copy_strings(&self.inputs),
            workgroup_size: self.workgroup_size,
            resolution: self.resolution,
            resolution_scale_bits: self.resolution_scale_bits,
        }
    }
}

/// The entry points of passes: their names, in order.
pub open spec fn pass_names(v: Seq<PassV>) -> Seq<Seq<char>> {
    v.map_values(|p: PassV| p.name)
}

/// The largest number of inputs of any pass, and at least 1.
pub open spec fn max_pass_inputs(v: Seq<PassV>) -> nat
    decreases v.len(),
{
    if v.len() == 0 {
        1
    } else {
        let rest = max_pass_inputs(v.drop_last());
        let n = v.last().inputs.len();
        if n > rest {
            n
        } else {
            rest
        }
    }
}

/// A declarative builder of compute shader configurations.
pub struct ComputeShaderBuilder {
    pub config: ComputeConfiguration,
}

impl ComputeShaderBuilder {
    /// The defaults: entry point `main`, no passes, no engine resources,
    /// 16 by 16 workgroups, `Rgba16Float` output, 1024-entry audio buffer,
    /// 128-entry spectrum, 3 atomic channels, up to 3 pass inputs.
    pub fn new() -> (b: Self)
        ensures
            string_views(b.config.entry_points@) == seq!["main"@],
            b.config.passes is None,
            b.config.custom_uniform_size is None,
            !b.config.has_input_texture && !b.config.has_mouse && !b.config.has_fonts,
            !b.config.has_audio && !b.config.has_atomic_buffer && !b.config.has_audio_spectrum,
            b.config.atomic_buffer_channels == 3,
            b.config.audio_buffer_size == 1024,
            b.config.audio_spectrum_size == 128,
            b.config.storage_buffers@.len() == 0,
            b.config.workgroup_size == [16u32, 16, 1],
            !b.config.dispatch_once,
            b.config.texture_format == OutputFormat::Rgba16Float,
            b.config.label@ == "Compute Shader"@,
            b.config.num_channels is None,
            b.config.hot_reload_path is None,
            b.config.max_input_deps == 3,
    {
        let mut entry_points: Vec<String> = Vec::new();
        entry_points.push("main".to_owned());
        let b = ComputeShaderBuilder {
            config: ComputeConfiguration {
                entry_points,
                passes: None,
                custom_uniform_size: None,
                has_input_texture: false,
                has_mouse: false,
                has_fonts: false,
                has_audio: false,
                has_atomic_buffer: false,
                atomic_buffer_channels: 3,
                audio_buffer_size: 1024,
                has_audio_spectrum: false,
                audio_spectrum_size: 128,
                storage_buffers: Vec::new(),
                workgroup_size: [16, 16, 1],
                dispatch_once: false,
                texture_format: OutputFormat::Rgba16Float,
                label: "Compute Shader".to_owned(),
                num_channels: None,
                hot_reload_path: None,
                max_input_deps: 3,
            },
        };
        assert(string_views(b.config.entry_points@) =~= seq!["main"@]);
        b
    }

    /// Sets the entry point of a single-pass shader.
    pub fn with_entry_point(self, entry_point: &str) -> (b: Self)
        ensures
            string_views(b.config.entry_points@) == seq![entry_point@],
            b.config == (ComputeConfiguration { entry_points: b.config.entry_points, ..self.config }),
    {
        let mut entry_points: Vec<String> = Vec::new();
        entry_points.push(entry_point.to_owned());
        assert(string_views(entry_points@) =~= seq![entry_point@]);
        ComputeShaderBuilder { config: ComputeConfiguration { entry_points, ..self.config } }
    }

    /// Makes the shader multi-pass: one entry point per pass, in order, and
    /// room for as many inputs as the pass with the most (at least one).
    pub fn with_multi_pass(self, passes: &[PassDescription]) -> (b: Self)
        ensures
            b.config.passes matches Some(ps) && pass_views(ps@) == pass_views(passes@),
            string_views(b.config.entry_points@) == pass_names(pass_views(passes@)),
            b.config.max_input_deps == max_pass_inputs(pass_views(passes@)),
            b.config == (ComputeConfiguration {
                passes: b.config.passes,
                entry_points: b.config.entry_points,
                max_input_deps: b.config.max_input_deps,
                ..self.config
            }),
    {
        let mut copies: Vec<PassDescription> = Vec::new();
        let mut names: Vec<String> = Vec::new();
        let mut most: usize = 1;
        let mut i: usize = 0;
        assert(max_pass_inputs(pass_views(passes@.take(0))) == 1);
        while i < passes.len()
            invariant
                i <= passes@.len(),
                pass_views(copies@) == pass_views(passes@.take(i as int)),
                string_views(names@) == pass_names(pass_views(passes@.take(i as int))),
                most == max_pass_inputs(pass_views(passes@.take(i as int))),
            decreases passes@.len() - i,
        {
            let p = passes[i].duplicate();
            let ghost pv = p@;
            let ghost cs = copies@;
            let ghost ns = names@;
            names.push(passes[i].name.as_str().to_owned());
            let n = passes[i].inputs.len();
            copies.push(p);
            if n > most {
                most = n;
            }
            proof {
                let ghost t1 = pass_views(passes@.take(i + 1));
                assert(pass_views(passes@.take(i + 1)) =~= pass_views(passes@.take(i as int)).push(pv));
                assert(pass_views(copies@) =~= pass_views(cs).push(pv));
                assert(string_views(names@) =~= string_views(ns).push(pv.name));
                assert(pass_names(t1) =~= pass_names(pass_views(passes@.take(i as int))).push(pv.name));
                assert(t1.drop_last() =~= pass_views(passes@.take(i as int)));
                assert(t1.last().inputs.len() == n);
            }
            i = i + 1;
        }
        assert(passes@.take(passes@.len() as int) =~= passes@);
        ComputeShaderBuilder {
            config: ComputeConfiguration {
                passes: Some(copies),
                entry_points: names,
                max_input_deps: most,
                ..self.config
            },
        }
    }

    /// Adds a custom uniform of type `T` to group 1.
    pub fn with_custom_uniforms<T>(self) -> (b: Self)
        ensures
            b.config == (ComputeConfiguration {
                custom_uniform_size: Some(vstd::layout::size_of::<T>() as u64),
                ..self.config
            }),
    {
        let size = core::mem::size_of::<T>();
        ComputeShaderBuilder {
            config: ComputeConfiguration { custom_uniform_size: Some(size as u64), ..self.config },
        }
    }

    /// Adds an input texture to group 1.
    pub fn with_input_texture(self) -> (b: Self)
        ensures
            b.config == (ComputeConfiguration { has_input_texture: true, ..self.config }),
    {
        ComputeShaderBuilder { config: ComputeConfiguration { has_input_texture: true, ..self.config } }
    }

    /// Adds `num_channels` external texture channels to group 2.
    pub fn with_channels(self, num_channels: u32) -> (b: Self)
        ensures
            b.config == (ComputeConfiguration { num_channels: Some(num_channels), ..self.config }),
    {
        ComputeShaderBuilder {
            config: ComputeConfiguration { num_channels: Some(num_channels), ..self.config },
        }
    }

    /// Adds the mouse uniform to group 2.
    pub fn with_mouse(self) -> (b: Self)
        ensures
            b.config == (ComputeConfiguration { has_mouse: true, ..self.config }),
    {
        ComputeShaderBuilder { config: ComputeConfiguration { has_mouse: true, ..self.config } }
    }

    /// Adds the font texture and uniform to group 2.
    pub fn with_fonts(self) -> (b: Self)
        ensures
            b.config == (ComputeConfiguration { has_fonts: true, ..self.config }),
    {
        ComputeShaderBuilder { config: ComputeConfiguration { has_fonts: true, ..self.config } }
    }

    /// Adds a read-write audio buffer of `buffer_size` entries to group 2.
    pub fn with_audio(self, buffer_size: usize) -> (b: Self)
        ensures
            b.config == (ComputeConfiguration {
                has_audio: true,
                audio_buffer_size: buffer_size,
                ..self.config
            }),
    {
        ComputeShaderBuilder {
            config: ComputeConfiguration { has_audio: true, audio_buffer_size: buffer_size, ..self.config },
        }
    }

    /// Adds a read-only audio spectrum of `spectrum_size` entries to group 2.
    pub fn with_audio_spectrum(self, spectrum_size: usize) -> (b: Self)
        ensures
            b.config == (ComputeConfiguration {
                has_audio_spectrum: true,
                audio_spectrum_size: spectrum_size,
                ..self.config
            }),
    {
        ComputeShaderBuilder {
            config: ComputeConfiguration {
                has_audio_spectrum: true,
                audio_spectrum_size: spectrum_size,
                ..self.config
            },
        }
    }

    /// Adds an atomic buffer of `channels` counters per pixel to group 2.
    pub fn with_atomic_buffer(self, channels: u32) -> (b: Self)
        ensures
            b.config == (ComputeConfiguration {
                has_atomic_buffer: true,
                atomic_buffer_channels: channels,
                ..self.config
            }),
    {
        ComputeShaderBuilder {
            config: ComputeConfiguration {
                has_atomic_buffer: true,
                atomic_buffer_channels: channels,
                ..self.config
            },
        }
    }

    /// Adds a user storage buffer to group 3.
    pub fn with_storage_buffer(self, buffer: StorageBufferSpec) -> (b: Self)
        ensures
            b.config.storage_buffers@ == self.config.storage_buffers@.push(buffer),
            b.config == (ComputeConfiguration { storage_buffers: b.config.storage_buffers, ..self.config }),
    {
        let mut config = self.config;
        config.storage_buffers.push(buffer);
        ComputeShaderBuilder { config }
    }

    /// Adds several user storage buffers to group 3, in order.
    pub fn with_storage_buffers(self, buffers: &[StorageBufferSpec]) -> (b: Self)
        ensures
            b.config.storage_buffers@.len() == self.config.storage_buffers@.len() + buffers@.len(),
            forall|i: int|
                0 <= i < self.config.storage_buffers@.len() ==> b.config.storage_buffers@[i]
                    == self.config.storage_buffers@[i],
            forall|i: int|
                0 <= i < buffers@.len() ==> {
                    let s = #[trigger] b.config.storage_buffers@[self.config.storage_buffers@.len() + i];
                    s.name@ == buffers@[i].name@ && s.size_bytes == buffers@[i].size_bytes
                },
            b.config == (ComputeConfiguration { storage_buffers: b.config.storage_buffers, ..self.config }),
    {
        let mut config = self.config;
        let ghost start = config.storage_buffers@;
        let mut i: usize = 0;
        while i < buffers.len()
            invariant
                i <= buffers@.len(),
                config.storage_buffers@.len() == start.len() + i,
                forall|j: int| 0 <= j < start.len() ==> config.storage_buffers@[j] == start[j],
                forall|j: int|
                    0 <= j < i ==> {
                        let s = #[trigger] config.storage_buffers@[start.len() + j];
                        s.name@ == buffers@[j].name@ && s.size_bytes == buffers@[j].size_bytes
                    },
                config == (ComputeConfiguration { storage_buffers: config.storage_buffers, ..self.config }),
            decreases buffers@.len() - i,
        {
            config.storage_buffers.push(StorageBufferSpec::new(buffers[i].name.as_str(), buffers[i].size_bytes));
            i = i + 1;
        }
        ComputeShaderBuilder { config }
    }

    /// Sets the workgroup size that dispatch counts are computed with.
    pub fn with_workgroup_size(self, size: [u32; 3]) -> (b: Self)
        ensures
            b.config == (ComputeConfiguration { workgroup_size: size, ..self.config }),
    {
        ComputeShaderBuilder { config: ComputeConfiguration { workgroup_size: size, ..self.config } }
    }

    /// Runs the pipeline in the first frame only.
    pub fn dispatch_once(self) -> (b: Self)
        ensures
            b.config == (ComputeConfiguration { dispatch_once: true, ..self.config }),
    {
        ComputeShaderBuilder { config: ComputeConfiguration { dispatch_once: true, ..self.config } }
    }

    /// Sets the output texture format.
    pub fn with_texture_format(self, format: OutputFormat) -> (b: Self)
        ensures
            b.config == (ComputeConfiguration { texture_format: format, ..self.config }),
    {
        ComputeShaderBuilder { config: ComputeConfiguration { texture_format: format, ..self.config } }
    }

    /// Sets the debug label.
    pub fn with_label(self, label: &str) -> (b: Self)
        ensures
            b.config.label@ == label@,
            b.config == (ComputeConfiguration { label: b.config.label, ..self.config }),
    {
        ComputeShaderBuilder { config: ComputeConfiguration { label: label.to_owned(), ..self.config } }
    }

    /// Watches the shader file at `shader_path` for changes.
    pub fn with_hot_reload(self, shader_path: &str) -> (b: Self)
        ensures
            b.config.hot_reload_path matches Some(p) && p@ == shader_path@,
            b.config == (ComputeConfiguration { hot_reload_path: b.config.hot_reload_path, ..self.config }),
    {
        ComputeShaderBuilder {
            config: ComputeConfiguration { hot_reload_path: Some(shader_path.to_owned()), ..self.config },
        }
    }

    /// The configuration built.
    pub fn build(self) -> (c: ComputeConfiguration)
        ensures
            c == self.config,
    {
        self.config
    }
}

/// The position of the last `c` in `s`, if any.
pub open spec fn last_index_of(s: Seq<char>, c: char) -> Option<int>
    decreases s.len(),
{
    if s.len() == 0 {
        None
    } else if s.last() == c {
        Some(s.len() - 1)
    } else {
        last_index_of(s.drop_last(), c)
    }
}

/// The directory part of a source file path: everything before its last
/// `/`, else before its last `\`, else nothing.
pub open spec fn source_dir(file: Seq<char>) -> Seq<char> {
    match last_index_of(file, '/') {
        Some(i) => file.take(i),
        None => match last_index_of(file, '\\') {
            Some(i) => file.take(i),
            None => seq![],
        },
    }
}

/// The path watched for hot reload of a shader file named relative to the
/// source file that builds it: joined to that file's directory with `/`,
/// or as given when the source file has no directory.
pub open spec fn hot_reload_spec(caller_file: Seq<char>, shader_path: Seq<char>) -> Seq<char> {
    let dir = source_dir(caller_file);
    if dir.len() == 0 {
        shader_path
    } else {
        dir + seq!['/'] + shader_path
    }
}

fn find_last(cs: &Vec<char>, c: char) -> (r: Option<usize>)
    ensures
        match r {
            Some(i) => last_index_of(cs@, c) == Some(i as int) && i < cs@.len(),
            None => last_index_of(cs@, c) is None,
        },
{
    let mut i: usize = cs.len();
    assert(cs@.take(cs@.len() as int) =~= cs@);
    while i > 0
        invariant
            i <= cs@.len(),
            last_index_of(cs@, c) == last_index_of(cs@.take(i as int), c),
        decreases i,
    {
        assert(cs@.take(i as int).drop_last() =~= cs@.take(i - 1));
        if cs[i - 1] == c {
            return Some(i - 1);
        }
        i = i - 1;
    }
    None
}

/// The hot reload path of a shader file: `shader_path` joined to the
/// directory of `caller_file`.
pub fn hot_reload_path(caller_file: &str, shader_path: &str) -> (r: String)
    ensures
        r@ == hot_reload_spec(caller_file@, shader_path@),
{
    let cs = crate::text::char_vec(caller_file);
    assert(cs@.take(cs@.len() as int) =~= cs@);
    let end = match find_last(&cs, '/') {
        Some(i) => i,
        None => match find_last(&cs, '\\') {
            Some(i) => i,
            None => 0,
        },
    };
    if end == 0 {
        proof {
            if let Some(i) = last_index_of(cs@, '/') {
                assert(cs@.take(i) =~= seq![]);
            } else if let Some(i) = last_index_of(cs@, '\\') {
                assert(cs@.take(i) =~= seq![]);
            }
        }
        shader_path.to_owned()
    } else {
        let mut out = crate::text::char_vec(caller_file);
        out.truncate(end);
        out.push('/');
        let mut tail = crate::text::char_vec(shader_path);
        out.append(&mut tail);
        assert(out@ =~= cs@.take(end as int) + seq!['/'] + shader_path@);
        crate::text::string_from_chars(out.as_slice())
    }
}

} // verus!
