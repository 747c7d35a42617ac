//! The catalog of shaders that a host can open, and the parameters each
//! one exposes to remote control.  Parameter bounds and defaults are `f32`
//! values held by their IEEE-754 bits.
use vstd::prelude::*;

use crate::text::str_eq;

verus! {

/// The kind of control a parameter offers.
#[derive(Clone, Copy, Debug, PartialEq, Eq, Structural)]
pub enum BinParamType {
    F32,
    Color3,
    Action,
    String,
    Bool,
    Select,
}

/// One remotely controllable parameter of a shader.
#[derive(Clone, Copy, Debug)]
pub struct BinParamSpec {
    pub id: &'static str,
    pub label: &'static str,
    pub group: &'static str,
    pub param_type: BinParamType,
    /// The bits of the `f32` lower bound.
    pub min_value_bits: u32,
    /// The bits of the `f32` upper bound.
    pub max_value_bits: u32,
    /// The bits of the `f32` default.
    pub default_value_bits: u32,
    pub flags: u32,
    /// The choices of a `Select` parameter.
    pub options: Option<&'static str>,
}

impl BinParamSpec {
    pub fn id_str(&self) -> (r: &'static str)
        ensures
            r == self.id,
    {
        self.id
    }

    pub fn label_str(&self) -> (r: &'static str)
        ensures
            r == self.label,
    {
        self.label
    }

    pub fn group_str(&self) -> (r: &'static str)
        ensures
            r == self.group,
    {
        self.group
    }

    pub fn options_str(&self) -> (r: Option<&'static str>)
        ensures
            r == self.options,
    {
        self.options
    }
}

/// A catalog entry of an ungrouped parameter with no flags and no options.
pub open spec fn param_spec(
    id: &'static str,
    label: &'static str,
    param_type: BinParamType,
    min_value_bits: u32,
    max_value_bits: u32,
    default_value_bits: u32,
) -> BinParamSpec {
    BinParamSpec {
        id,
        label,
        group: "",
        param_type,
        min_value_bits,
        max_value_bits,
        default_value_bits,
        flags: 0,
        options: None,
    }
}

fn param(
    id: &'static str,
    label: &'static str,
    param_type: BinParamType,
    min_value_bits: u32,
    max_value_bits: u32,
    default_value_bits: u32,
) -> (p: BinParamSpec)
    ensures
        p == param_spec(id, label, param_type, min_value_bits, max_value_bits, default_value_bits),
{
    BinParamSpec {
        id,
        label,
        group: "",
        param_type,
        min_value_bits,
        max_value_bits,
        default_value_bits,
        flags: 0,
        options: None,
    }
}

/// The parameters of the `roto` shader.
pub open spec fn roto_params() -> Seq<BinParamSpec> {
    seq![
        param_spec("square_size", "Square Size", BinParamType::F32, 0x3d4ccccd, 0x3f000000, 0x3e4ccccd),
        param_spec("circle_radius", "Circle Radius", BinParamType::F32, 0x3d4ccccd, 0x3e4ccccd, 0x3de147ae),
        param_spec("edge_thickness", "Edge Thickness", BinParamType::F32, 0x3a83126f, 0x3c23d70a, 0x3b449ba6),
        param_spec("animation_speed", "Animation Speed", BinParamType::F32, 0x3f800000, 0x41f00000, 0x41400000),
        param_spec("background_color", "Background Color", BinParamType::Color3, 0x00000000, 0x3f800000, 0x3f000000),
        param_spec("edge_color_intensity", "Edge Brightness", BinParamType::F32, 0x3dcccccd, 0x40000000, 0x3f800000),
    ]
}

fn roto_table() -> (v: Vec<BinParamSpec>)
    ensures
        v@ == roto_params(),
{
    let mut v: Vec<BinParamSpec> = Vec::new();
    v.push(param("square_size", "Square Size", BinParamType::F32, 0x3d4ccccd, 0x3f000000, 0x3e4ccccd));
    v.push(param("circle_radius", "Circle Radius", BinParamType::F32, 0x3d4ccccd, 0x3e4ccccd, 0x3de147ae));
    v.push(param("edge_thickness", "Edge Thickness", BinParamType::F32, 0x3a83126f, 0x3c23d70a, 0x3b449ba6));
    v.push(param("animation_speed", "Animation Speed", BinParamType::F32, 0x3f800000, 0x41f00000, 0x41400000));
    v.push(param("background_color", "Background Color", BinParamType::Color3, 0x00000000, 0x3f800000, 0x3f000000));
    v.push(param("edge_color_intensity", "Edge Brightness", BinParamType::F32, 0x3dcccccd, 0x40000000, 0x3f800000));
    assert(v@ =~= roto_params());
    v
}

/// The parameters of the `cuneus` shader.
pub open spec fn cuneus_params() -> Seq<BinParamSpec> {
    seq![
        param_spec("background_color", "Background", BinParamType::F32, 0x00000000, 0x3f800000, 0x3ecccccd),
        param_spec("hue_color", "Base Color", BinParamType::Color3, 0x00000000, 0x40400000, 0x3f800000),
        param_spec("light_intensity", "Light Intensity", BinParamType::F32, 0x00000000, 0x404ccccd, 0x3fe66666),
        param_spec("ao_strength", "AO Strength", BinParamType::F32, 0x00000000, 0x41200000, 0x3dcccccd),
        param_spec("global_light", "Global Light", BinParamType::F32, 0x3dcccccd, 0x40000000, 0x3f800000),
        param_spec("rim_power", "Rim Power", BinParamType::F32, 0x3dcccccd, 0x41200000, 0x40400000),
        param_spec("env_light_strength", "Environment Light", BinParamType::F32, 0x00000000, 0x3f800000, 0x3f000000),
        param_spec("alpha_threshold", "Alpha Threshold", BinParamType::F32, 0x00000000, 0x40400000, 0x3f800000),
        param_spec("mix_factor_scale", "Mix Factor Scale", BinParamType::F32, 0x00000000, 0x3fc00000, 0x3e99999a),
        param_spec("iridescence_power", "Iridescence", BinParamType::F32, 0x00000000, 0x3f800000, 0x3e4ccccd),
        param_spec("falloff_distance", "Light Falloff", BinParamType::F32, 0x3f000000, 0x40a00000, 0x3f800000),
    ]
}

fn cuneus_table() -> (v: Vec<BinParamSpec>)
    ensures
        v@ == cuneus_params(),
{
    let mut v: Vec<BinParamSpec> = Vec::new();
    v.push(param("background_color", "Background", BinParamType::F32, 0x00000000, 0x3f800000, 0x3ecccccd));
    v.push(param("hue_color", "Base Color", BinParamType::Color3, 0x00000000, 0x40400000, 0x3f800000));
    v.push(param("light_intensity", "Light Intensity", BinParamType::F32, 0x00000000, 0x404ccccd, 0x3fe66666));
    v.push(param("ao_strength", "AO Strength", BinParamType::F32, 0x00000000, 0x41200000, 0x3dcccccd));
    v.push(param("global_light", "Global Light", BinParamType::F32, 0x3dcccccd, 0x40000000, 0x3f800000));
    v.push(param("rim_power", "Rim Power", BinParamType::F32, 0x3dcccccd, 0x41200000, 0x40400000));
    v.push(param("env_light_strength", "Environment Light", BinParamType::F32, 0x00000000, 0x3f800000, 0x3f000000));
    v.push(param("alpha_threshold", "Alpha Threshold", BinParamType::F32, 0x00000000, 0x40400000, 0x3f800000));
    v.push(param("mix_factor_scale", "Mix Factor Scale", BinParamType::F32, 0x00000000, 0x3fc00000, 0x3e99999a));
    v.push(param("iridescence_power", "Iridescence", BinParamType::F32, 0x00000000, 0x3f800000, 0x3e4ccccd));
    v.push(param("falloff_distance", "Light Falloff", BinParamType::F32, 0x3f000000, 0x40a00000, 0x3f800000));
    assert(v@ =~= cuneus_params());
    v
}

/// The parameters of the `spiral` shader.
pub open spec fn spiral_params() -> Seq<BinParamSpec> {
    seq![
        param_spec("lambda", "Lambda", BinParamType::F32, 0x3f800000, 0x43b40000, 0x420c0000),
        param_spec("theta", "Theta", BinParamType::F32, 0xc0c66666, 0x40c66666, 0x3f333333),
        param_spec("alpha", "Alpha", BinParamType::F32, 0x00000000, 0x3f800000, 0x3f333333),
        param_spec("sigma", "Sigma", BinParamType::F32, 0x00000000, 0x3f800000, 0x3dcccccd),
        param_spec("gamma", "Gamma", BinParamType::F32, 0x00000000, 0x3f800000, 0x3dcccccd),
        param_spec("blue", "Blue", BinParamType::F32, 0x00000000, 0x3f800000, 0x3dcccccd),
        param_spec("use_texture_colors", "Use Texture Colors", BinParamType::F32, 0x00000000, 0x3f800000, 0x00000000),
    ]
}

fn spiral_table() -> (v: Vec<BinParamSpec>)
    ensures
        v@ == spiral_params(),
{
    let mut v: Vec<BinParamSpec> = Vec::new();
    v.push(param("lambda", "Lambda", BinParamType::F32, 0x3f800000, 0x43b40000, 0x420c0000));
    v.push(param("theta", "Theta", BinParamType::F32, 0xc0c66666, 0x40c66666, 0x3f333333));
    v.push(param("alpha", "Alpha", BinParamType::F32, 0x00000000, 0x3f800000, 0x3f333333));
    v.push(param("sigma", "Sigma", BinParamType::F32, 0x00000000, 0x3f800000, 0x3dcccccd));
    v.push(param("gamma", "Gamma", BinParamType::F32, 0x00000000, 0x3f800000, 0x3dcccccd));
    v.push(param("blue", "Blue", BinParamType::F32, 0x00000000, 0x3f800000, 0x3dcccccd));
    v.push(param("use_texture_colors", "Use Texture Colors", BinParamType::F32, 0x00000000, 0x3f800000, 0x00000000));
    assert(v@ =~= spiral_params());
    v
}

/// The parameters of the `voronoi` shader.
pub open spec fn voronoi_params() -> Seq<BinParamSpec> {
    seq![
        param_spec("scale", "Cell Scale", BinParamType::F32, 0x3f800000, 0x42c80000, 0x41c00000),
        param_spec("offset_value", "Pattern Offset", BinParamType::F32, 0xbf800000, 0x40000000, 0xbf800000),
        param_spec("cell_index", "Cell Index", BinParamType::F32, 0x00000000, 0x40400000, 0x00000000),
        param_spec("edge_width", "Edge Width", BinParamType::F32, 0x00000000, 0x3f800000, 0x3dcccccd),
        param_spec("highlight", "Edge Highlight", BinParamType::F32, 0x00000000, 0x41700000, 0x3e19999a),
    ]
}

fn voronoi_table() -> (v: Vec<BinParamSpec>)
    ensures
        v@ == voronoi_params(),
{
    let mut v: Vec<BinParamSpec> = Vec::new();
    v.push(param("scale", "Cell Scale", BinParamType::F32, 0x3f800000, 0x42c80000, 0x41c00000));
    v.push(param("offset_value", "Pattern Offset", BinParamType::F32, 0xbf800000, 0x40000000, 0xbf800000));
    v.push(param("cell_index", "Cell Index", BinParamType::F32, 0x00000000, 0x40400000, 0x00000000));
    v.push(param("edge_width", "Edge Width", BinParamType::F32, 0x00000000, 0x3f800000, 0x3dcccccd));
    v.push(param("highlight", "Edge Highlight", BinParamType::F32, 0x00000000, 0x41700000, 0x3e19999a));
    assert(v@ =~= voronoi_params());
    v
}

/// The parameters of the `matrix` shader.
pub open spec fn matrix_params() -> Seq<BinParamSpec> {
    seq![
        param_spec("red_power", "Red Power", BinParamType::F32, 0x3f000000, 0x40400000, 0x3f7ae148),
        param_spec("green_power", "Green Power", BinParamType::F32, 0x3f000000, 0x40400000, 0x3f59999a),
        param_spec("blue_power", "Blue Power", BinParamType::F32, 0x3f000000, 0x40400000, 0x3f666666),
        param_spec("green_boost", "Green Boost", BinParamType::F32, 0x3f000000, 0x40000000, 0x3fcf5c29),
        param_spec("contrast", "Contrast", BinParamType::F32, 0x3f000000, 0x40000000, 0x3f800000),
        param_spec("gamma", "Gamma", BinParamType::F32, 0x3e4ccccd, 0x40000000, 0x3f800000),
        param_spec("glow", "Glow", BinParamType::F32, 0xbf800000, 0x3f800000, 0x3d4ccccd),
    ]
}

fn matrix_table() -> (v: Vec<BinParamSpec>)
    ensures
        v@ == matrix_params(),
{
    let mut v: Vec<BinParamSpec> = Vec::new();
    v.push(param("red_power", "Red Power", BinParamType::F32, 0x3f000000, 0x40400000, 0x3f7ae148));
    v.push(param("green_power", "Green Power", BinParamType::F32, 0x3f000000, 0x40400000, 0x3f59999a));
    v.push(param("blue_power", "Blue Power", BinParamType::F32, 0x3f000000, 0x40400000, 0x3f666666));
    v.push(param("green_boost", "Green Boost", BinParamType::F32, 0x3f000000, 0x40000000, 0x3fcf5c29));
    v.push(param("contrast", "Contrast", BinParamType::F32, 0x3f000000, 0x40000000, 0x3f800000));
    v.push(param("gamma", "Gamma", BinParamType::F32, 0x3e4ccccd, 0x40000000, 0x3f800000));
    v.push(param("glow", "Glow", BinParamType::F32, 0xbf800000, 0x3f800000, 0x3d4ccccd));
    assert(v@ =~= matrix_params());
    v
}

/// The parameters of the `tree` shader.
pub open spec fn tree_params() -> Seq<BinParamSpec> {
    seq![
        param_spec("pixel_offset", "Pixel Offset Y", BinParamType::F32, 0xc048f5c3, 0x4048f5c3, 0xbf800000),
        param_spec("pixel_offset2", "Pixel Offset X", BinParamType::F32, 0xc048f5c3, 0x4048f5c3, 0x3f800000),
        param_spec("lights", "Lights", BinParamType::F32, 0x00000000, 0x41433333, 0x400ccccd),
        param_spec("exp", "Exp", BinParamType::F32, 0x3f800000, 0x42f00000, 0x40800000),
        param_spec("frame", "Frame", BinParamType::F32, 0x00000000, 0x400ccccd, 0x3f800000),
        param_spec("col1", "Iter", BinParamType::F32, 0x00000000, 0x43960000, 0x42c80000),
        param_spec("col2", "Col2", BinParamType::F32, 0x00000000, 0x41200000, 0x3f800000),
        param_spec("decay", "Feedback", BinParamType::F32, 0x00000000, 0x3f800000, 0x3f800000),
    ]
}

fn tree_table() -> (v: Vec<BinParamSpec>)
    ensures
        v@ == tree_params(),
{
    let mut v: Vec<BinParamSpec> = Vec::new();
    v.push(param("pixel_offset", "Pixel Offset Y", BinParamType::F32, 0xc048f5c3, 0x4048f5c3, 0xbf800000));
    v.push(param("pixel_offset2", "Pixel Offset X", BinParamType::F32, 0xc048f5c3, 0x4048f5c3, 0x3f800000));
    v.push(param("lights", "Lights", BinParamType::F32, 0x00000000, 0x41433333, 0x400ccccd));
    v.push(param("exp", "Exp", BinParamType::F32, 0x3f800000, 0x42f00000, 0x40800000));
    v.push(param("frame", "Frame", BinParamType::F32, 0x00000000, 0x400ccccd, 0x3f800000));
    v.push(param("col1", "Iter", BinParamType::F32, 0x00000000, 0x43960000, 0x42c80000));
    v.push(param("col2", "Col2", BinParamType::F32, 0x00000000, 0x41200000, 0x3f800000));
    v.push(param("decay", "Feedback", BinParamType::F32, 0x00000000, 0x3f800000, 0x3f800000));
    assert(v@ =~= tree_params());
    v
}

/// The parameters of the `neuron2d` shader.
pub open spec fn neuron2d_params() -> Seq<BinParamSpec> {
    seq![
        param_spec("pixel_offset", "Pixel Offset Y", BinParamType::F32, 0xc048f5c3, 0x4048f5c3, 0xbf800000),
        param_spec("pixel_offset2", "Pixel Offset X", BinParamType::F32, 0xc048f5c3, 0x4048f5c3, 0x3f800000),
        param_spec("lights", "Lights", BinParamType::F32, 0x00000000, 0x41433333, 0x400ccccd),
        param_spec("exp", "Exp", BinParamType::F32, 0x3f800000, 0x42f00000, 0x40800000),
        param_spec("frame", "Frame", BinParamType::F32, 0x00000000, 0x40a66666, 0x3f800000),
        param_spec("col1", "Iter", BinParamType::F32, 0x00000000, 0x43160000, 0x42c80000),
        param_spec("col2", "Col2", BinParamType::F32, 0x00000000, 0x41a00000, 0x3f800000),
        param_spec("decay", "Feedback", BinParamType::F32, 0x00000000, 0x3f800000, 0x3f800000),
    ]
}

fn neuron2d_table() -> (v: Vec<BinParamSpec>)
    ensures
        v@ == neuron2d_params(),
{
    let mut v: Vec<BinParamSpec> = Vec::new();
    v.push(param("pixel_offset", "Pixel Offset Y", BinParamType::F32, 0xc048f5c3, 0x4048f5c3, 0xbf800000));
    v.push(param("pixel_offset2", "Pixel Offset X", BinParamType::F32, 0xc048f5c3, 0x4048f5c3, 0x3f800000));
    v.push(param("lights", "Lights", BinParamType::F32, 0x00000000, 0x41433333, 0x400ccccd));
    v.push(param("exp", "Exp", BinParamType::F32, 0x3f800000, 0x42f00000, 0x40800000));
    v.push(param("frame", "Frame", BinParamType::F32, 0x00000000, 0x40a66666, 0x3f800000));
    v.push(param("col1", "Iter", BinParamType::F32, 0x00000000, 0x43160000, 0x42c80000));
    v.push(param("col2", "Col2", BinParamType::F32, 0x00000000, 0x41a00000, 0x3f800000));
    v.push(param("decay", "Feedback", BinParamType::F32, 0x00000000, 0x3f800000, 0x3f800000));
    assert(v@ =~= neuron2d_params());
    v
}

/// The parameters of the `gabor` shader.
pub open spec fn gabor_params() -> Seq<BinParamSpec> {
    seq![
        param_spec("frequency", "Frequency", BinParamType::F32, 0x3dcccccd, 0x41200000, 0x40400000),
        param_spec("orientation", "Orientation", BinParamType::F32, 0xc0490fdb, 0x40490fdb, 0x00000000),
        param_spec("phase", "Phase", BinParamType::F32, 0xc0490fdb, 0x40490fdb, 0x00000000),
        param_spec("speed", "Speed", BinParamType::F32, 0x00000000, 0x40a00000, 0x3f800000),
        param_spec("sigma_x", "Sigma X", BinParamType::F32, 0x3dcccccd, 0x40400000, 0x3f800000),
        param_spec("sigma_y", "Sigma Y", BinParamType::F32, 0x3dcccccd, 0x40400000, 0x3f800000),
        param_spec("amplitude", "Amplitude", BinParamType::F32, 0x00000000, 0x40000000, 0x3f800000),
        param_spec("aspect_ratio", "Aspect Ratio", BinParamType::F32, 0x3f000000, 0x40000000, 0x3f800000),
        param_spec("z_scale", "Z Depth Scale", BinParamType::F32, 0x00000000, 0x3f800000, 0x3e800000),
        param_spec("brightness", "Brightness", BinParamType::F32, 0x3727c5ac, 0x38d1b717, 0x37fba882),
        param_spec("rotation_x", "Rotation X", BinParamType::F32, 0xbf800000, 0x3f800000, 0x00000000),
        param_spec("rotation_y", "Rotation Y", BinParamType::F32, 0xbf800000, 0x3f800000, 0x00000000),
        param_spec("dof_amount", "DOF Amount", BinParamType::F32, 0x00000000, 0x40400000, 0x00000000),
        param_spec("dof_focal_dist", "Focal Distance", BinParamType::F32, 0x00000000, 0x3f800000, 0x3f000000),
        param_spec("color1_r", "Positive Red", BinParamType::F32, 0x00000000, 0x3f800000, 0x00000000),
        param_spec("color1_g", "Positive Green", BinParamType::F32, 0x00000000, 0x3f800000, 0x3f333333),
        param_spec("color1_b", "Positive Blue", BinParamType::F32, 0x00000000, 0x3f800000, 0x3f800000),
        param_spec("color2_r", "Negative Red", BinParamType::F32, 0x00000000, 0x3f800000, 0x3f800000),
        param_spec("color2_g", "Negative Green", BinParamType::F32, 0x00000000, 0x3f800000, 0x3e99999a),
        param_spec("color2_b", "Negative Blue", BinParamType::F32, 0x00000000, 0x3f800000, 0x00000000),
    ]
}

fn gabor_table() -> (v: Vec<BinParamSpec>)
    ensures
        v@ == gabor_params(),
{
    let mut v: Vec<BinParamSpec> = Vec::new();
    v.push(param("frequency", "Frequency", BinParamType::F32, 0x3dcccccd, 0x41200000, 0x40400000));
    v.push(param("orientation", "Orientation", BinParamType::F32, 0xc0490fdb, 0x40490fdb, 0x00000000));
    v.push(param("phase", "Phase", BinParamType::F32, 0xc0490fdb, 0x40490fdb, 0x00000000));
    v.push(param("speed", "Speed", BinParamType::F32, 0x00000000, 0x40a00000, 0x3f800000));
    v.push(param("sigma_x", "Sigma X", BinParamType::F32, 0x3dcccccd, 0x40400000, 0x3f800000));
    v.push(param("sigma_y", "Sigma Y", BinParamType::F32, 0x3dcccccd, 0x40400000, 0x3f800000));
    v.push(param("amplitude", "Amplitude", BinParamType::F32, 0x00000000, 0x40000000, 0x3f800000));
    v.push(param("aspect_ratio", "Aspect Ratio", BinParamType::F32, 0x3f000000, 0x40000000, 0x3f800000));
    v.push(param("z_scale", "Z Depth Scale", BinParamType::F32, 0x00000000, 0x3f800000, 0x3e800000));
    v.push(param("brightness", "Brightness", BinParamType::F32, 0x3727c5ac, 0x38d1b717, 0x37fba882));
    v.push(param("rotation_x", "Rotation X", BinParamType::F32, 0xbf800000, 0x3f800000, 0x00000000));
    v.push(param("rotation_y", "Rotation Y", BinParamType::F32, 0xbf800000, 0x3f800000, 0x00000000));
    v.push(param("dof_amount", "DOF Amount", BinParamType::F32, 0x00000000, 0x40400000, 0x00000000));
    v.push(param("dof_focal_dist", "Focal Distance", BinParamType::F32, 0x00000000, 0x3f800000, 0x3f000000));
    v.push(param("color1_r", "Positive Red", BinParamType::F32, 0x00000000, 0x3f800000, 0x00000000));
    v.push(param("color1_g", "Positive Green", BinParamType::F32, 0x00000000, 0x3f800000, 0x3f333333));
    v.push(param("color1_b", "Positive Blue", BinParamType::F32, 0x00000000, 0x3f800000, 0x3f800000));
    v.push(param("color2_r", "Negative Red", BinParamType::F32, 0x00000000, 0x3f800000, 0x3f800000));
    v.push(param("color2_g", "Negative Green", BinParamType::F32, 0x00000000, 0x3f800000, 0x3e99999a));
    v.push(param("color2_b", "Negative Blue", BinParamType::F32, 0x00000000, 0x3f800000, 0x00000000));
    assert(v@ =~= gabor_params());
    v
}

/// The parameters of the `plasma` shader.
pub open spec fn plasma_params() -> Seq<BinParamSpec> {
    seq![
        param_spec("detail", "Detail", BinParamType::F32, 0x40400000, 0x42340000, 0x41900000),
        param_spec("animation_speed", "Animation Speed", BinParamType::F32, 0x3dcccccd, 0x40c00000, 0x3f800000),
        param_spec("pattern", "Pattern", BinParamType::F32, 0x00000000, 0x3f800000, 0x00000000),
        param_spec("structure_smoothness", "Smoothness", BinParamType::F32, 0x3f800000, 0x40600000, 0x40000000),
        param_spec("saturation", "Saturation", BinParamType::F32, 0x3dcccccd, 0x3f800000, 0x3f333333),
        param_spec("base_rotation", "Rotation", BinParamType::F32, 0x40400000, 0x41400000, 0x40c00000),
        param_spec("rot_variation", "Rotation Variation", BinParamType::F32, 0x00000000, 0x3dcccccd, 0x3ca3d70a),
        param_spec("brightness_mult", "Brightness", BinParamType::F32, 0x3727c5ac, 0x38d1b717, 0x37fba882),
        param_spec("rotation_x", "Rotation X", BinParamType::F32, 0xbf800000, 0x3f800000, 0x00000000),
        param_spec("rotation_y", "Rotation Y", BinParamType::F32, 0xbf800000, 0x3f800000, 0x00000000),
        param_spec("dof_amount", "DOF Amount", BinParamType::F32, 0x00000000, 0x40400000, 0x00000000),
        param_spec("dof_focal_dist", "Focal Distance", BinParamType::F32, 0x00000000, 0x40400000, 0x3f800000),
        param_spec("color1_r", "Base Red", BinParamType::F32, 0x00000000, 0x3f800000, 0x3f000000),
        param_spec("color1_g", "Base Green", BinParamType::F32, 0x00000000, 0x3f800000, 0x3dcccccd),
        param_spec("color1_b", "Base Blue", BinParamType::F32, 0x00000000, 0x3f800000, 0x3f4ccccd),
        param_spec("color2_r", "Highlight Red", BinParamType::F32, 0x00000000, 0x3f800000, 0x00000000),
        param_spec("color2_g", "Highlight Green", BinParamType::F32, 0x00000000, 0x3f800000, 0x3f333333),
        param_spec("color2_b", "Highlight Blue", BinParamType::F32, 0x00000000, 0x3f800000, 0x3f800000),
    ]
}

fn plasma_table() -> (v: Vec<BinParamSpec>)
    ensures
        v@ == plasma_params(),
{
    let mut v: Vec<BinParamSpec> = Vec::new();
    v.push(param("detail", "Detail", BinParamType::F32, 0x40400000, 0x42340000, 0x41900000));
    v.push(param("animation_speed", "Animation Speed", BinParamType::F32, 0x3dcccccd, 0x40c00000, 0x3f800000));
    v.push(param("pattern", "Pattern", BinParamType::F32, 0x00000000, 0x3f800000, 0x00000000));
    v.push(param("structure_smoothness", "Smoothness", BinParamType::F32, 0x3f800000, 0x40600000, 0x40000000));
    v.push(param("saturation", "Saturation", BinParamType::F32, 0x3dcccccd, 0x3f800000, 0x3f333333));
    v.push(param("base_rotation", "Rotation", BinParamType::F32, 0x40400000, 0x41400000, 0x40c00000));
    v.push(param("rot_variation", "Rotation Variation", BinParamType::F32, 0x00000000, 0x3dcccccd, 0x3ca3d70a));
    v.push(param("brightness_mult", "Brightness", BinParamType::F32, 0x3727c5ac, 0x38d1b717, 0x37fba882));
    v.push(param("rotation_x", "Rotation X", BinParamType::F32, 0xbf800000, 0x3f800000, 0x00000000));
    v.push(param("rotation_y", "Rotation Y", BinParamType::F32, 0xbf800000, 0x3f800000, 0x00000000));
    v.push(param("dof_amount", "DOF Amount", BinParamType::F32, 0x00000000, 0x40400000, 0x00000000));
    v.push(param("dof_focal_dist", "Focal Distance", BinParamType::F32, 0x00000000, 0x40400000, 0x3f800000));
    v.push(param("color1_r", "Base Red", BinParamType::F32, 0x00000000, 0x3f800000, 0x3f000000));
    v.push(param("color1_g", "Base Green", BinParamType::F32, 0x00000000, 0x3f800000, 0x3dcccccd));
    v.push(param("color1_b", "Base Blue", BinParamType::F32, 0x00000000, 0x3f800000, 0x3f4ccccd));
    v.push(param("color2_r", "Highlight Red", BinParamType::F32, 0x00000000, 0x3f800000, 0x00000000));
    v.push(param("color2_g", "Highlight Green", BinParamType::F32, 0x00000000, 0x3f800000, 0x3f333333));
    v.push(param("color2_b", "Highlight Blue", BinParamType::F32, 0x00000000, 0x3f800000, 0x3f800000));
    assert(v@ =~= plasma_params());
    v
}

/// The parameters of the `lorenz` shader.
pub open spec fn lorenz_params() -> Seq<BinParamSpec> {
    seq![
        param_spec("sigma", "Sigma", BinParamType::F32, 0x00000000, 0x42200000, 0x41200000),
        param_spec("rho", "Rho", BinParamType::F32, 0x00000000, 0x42c80000, 0x41e00000),
        param_spec("beta", "Beta", BinParamType::F32, 0x00000000, 0x41200000, 0x402aaaab),
        param_spec("step_size", "Step Size", BinParamType::F32, 0x3a83126f, 0x3ca3d70a, 0x3ba3d70a),
        param_spec("motion_speed", "Motion Speed", BinParamType::F32, 0x00000000, 0x40a00000, 0x3f800000),
        param_spec("brightness", "Brightness", BinParamType::F32, 0x38d1b717, 0x3c23d70a, 0x3a83126f),
        param_spec("scale", "Scale", BinParamType::F32, 0x3a83126f, 0x3dcccccd, 0x3ca3d70a),
        param_spec("exposure", "Exposure", BinParamType::F32, 0x3dcccccd, 0x40a00000, 0x3f800000),
        param_spec("gamma", "Gamma", BinParamType::F32, 0x3f000000, 0x40800000, 0x400ccccd),
        param_spec("particle_count", "Particle Count", BinParamType::F32, 0x42c80000, 0x459c4000, 0x447a0000),
        param_spec("dof_amount", "DOF Amount", BinParamType::F32, 0x00000000, 0x3f800000, 0x00000000),
        param_spec("dof_focal_dist", "DOF Focal Distance", BinParamType::F32, 0x00000000, 0x3f800000, 0x3f000000),
        param_spec("color1_r", "Color 1 Red", BinParamType::F32, 0x00000000, 0x3f800000, 0x3f800000),
        param_spec("color1_g", "Color 1 Green", BinParamType::F32, 0x00000000, 0x3f800000, 0x3f000000),
        param_spec("color1_b", "Color 1 Blue", BinParamType::F32, 0x00000000, 0x3f800000, 0x00000000),
        param_spec("color2_r", "Color 2 Red", BinParamType::F32, 0x00000000, 0x3f800000, 0x00000000),
        param_spec("color2_g", "Color 2 Green", BinParamType::F32, 0x00000000, 0x3f800000, 0x3f000000),
        param_spec("color2_b", "Color 2 Blue", BinParamType::F32, 0x00000000, 0x3f800000, 0x3f800000),
    ]
}

fn lorenz_table() -> (v: Vec<BinParamSpec>)
    ensures
        v@ == lorenz_params(),
{
    let mut v: Vec<BinParamSpec> = Vec::new();
    v.push(param("sigma", "Sigma", BinParamType::F32, 0x00000000, 0x42200000, 0x41200000));
    v.push(param("rho", "Rho", BinParamType::F32, 0x00000000, 0x42c80000, 0x41e00000));
    v.push(param("beta", "Beta", BinParamType::F32, 0x00000000, 0x41200000, 0x402aaaab));
    v.push(param("step_size", "Step Size", BinParamType::F32, 0x3a83126f, 0x3ca3d70a, 0x3ba3d70a));
    v.push(param("motion_speed", "Motion Speed", BinParamType::F32, 0x00000000, 0x40a00000, 0x3f800000));
    v.push(param("brightness", "Brightness", BinParamType::F32, 0x38d1b717, 0x3c23d70a, 0x3a83126f));
    v.push(param("scale", "Scale", BinParamType::F32, 0x3a83126f, 0x3dcccccd, 0x3ca3d70a));
    v.push(param("exposure", "Exposure", BinParamType::F32, 0x3dcccccd, 0x40a00000, 0x3f800000));
    v.push(param("gamma", "Gamma", BinParamType::F32, 0x3f000000, 0x40800000, 0x400ccccd));
    v.push(param("particle_count", "Particle Count", BinParamType::F32, 0x42c80000, 0x459c4000, 0x447a0000));
    v.push(param("dof_amount", "DOF Amount", BinParamType::F32, 0x00000000, 0x3f800000, 0x00000000));
    v.push(param("dof_focal_dist", "DOF Focal Distance", BinParamType::F32, 0x00000000, 0x3f800000, 0x3f000000));
    v.push(param("color1_r", "Color 1 Red", BinParamType::F32, 0x00000000, 0x3f800000, 0x3f800000));
    v.push(param("color1_g", "Color 1 Green", BinParamType::F32, 0x00000000, 0x3f800000, 0x3f000000));
    v.push(param("color1_b", "Color 1 Blue", BinParamType::F32, 0x00000000, 0x3f800000, 0x00000000));
    v.push(param("color2_r", "Color 2 Red", BinParamType::F32, 0x00000000, 0x3f800000, 0x00000000));
    v.push(param("color2_g", "Color 2 Green", BinParamType::F32, 0x00000000, 0x3f800000, 0x3f000000));
    v.push(param("color2_b", "Color 2 Blue", BinParamType::F32, 0x00000000, 0x3f800000, 0x3f800000));
    assert(v@ =~= lorenz_params());
    v
}

/// The parameters of the `nebula` shader.
pub open spec fn nebula_params() -> Seq<BinParamSpec> {
    seq![
        param_spec("zoom_base", "Zoom Base", BinParamType::F32, 0xc1400000, 0x41400000, 0x00000000),
        param_spec("space_distort_x", "Space Distort X", BinParamType::F32, 0xbf333333, 0x00000000, 0xbe4ccccd),
        param_spec("space_distort_y", "Space Distort Y", BinParamType::F32, 0xbf333333, 0x00000000, 0xbe4ccccd),
        param_spec("space_distort_z", "Space Distort Z", BinParamType::F32, 0xbfc00000, 0x3dcccccd, 0xbf000000),
        param_spec("zoom_delay", "Zoom Delay", BinParamType::F32, 0x00000000, 0x447a0000, 0x00000000),
        param_spec("zoom_speed", "Zoom Speed", BinParamType::F32, 0x3c23d70a, 0x3f800000, 0x3dcccccd),
        param_spec("min_zoom", "Min Zoom", BinParamType::F32, 0x3dcccccd, 0x3f800000, 0x3e4ccccd),
        param_spec("noise_scale", "Noise Scale", BinParamType::F32, 0x00000000, 0x43480000, 0x42480000),
        param_spec("time_scale", "Time Scale", BinParamType::F32, 0x00000000, 0x40400000, 0x3f800000),
    ]
}

fn nebula_table() -> (v: Vec<BinParamSpec>)
    ensures
        v@ == nebula_params(),
{
    let mut v: Vec<BinParamSpec> = Vec::new();
    v.push(param("zoom_base", "Zoom Base", BinParamType::F32, 0xc1400000, 0x41400000, 0x00000000));
    v.push(param("space_distort_x", "Space Distort X", BinParamType::F32, 0xbf333333, 0x00000000, 0xbe4ccccd));
    v.push(param("space_distort_y", "Space Distort Y", BinParamType::F32, 0xbf333333, 0x00000000, 0xbe4ccccd));
    v.push(param("space_distort_z", "Space Distort Z", BinParamType::F32, 0xbfc00000, 0x3dcccccd, 0xbf000000));
    v.push(param("zoom_delay", "Zoom Delay", BinParamType::F32, 0x00000000, 0x447a0000, 0x00000000));
    v.push(param("zoom_speed", "Zoom Speed", BinParamType::F32, 0x3c23d70a, 0x3f800000, 0x3dcccccd));
    v.push(param("min_zoom", "Min Zoom", BinParamType::F32, 0x3dcccccd, 0x3f800000, 0x3e4ccccd));
    v.push(param("noise_scale", "Noise Scale", BinParamType::F32, 0x00000000, 0x43480000, 0x42480000));
    v.push(param("time_scale", "Time Scale", BinParamType::F32, 0x00000000, 0x40400000, 0x3f800000));
    assert(v@ =~= nebula_params());
    v
}

/// The parameters of the `satan` shader.
pub open spec fn satan_params() -> Seq<BinParamSpec> {
    seq![
        param_spec("min_radius", "Freq", BinParamType::F32, 0x00000000, 0x41200000, 0x40000000),
        param_spec("max_radius", "Blend", BinParamType::F32, 0xc0400000, 0x40400000, 0x3ecccccd),
        param_spec("size", "Darkness", BinParamType::F32, 0xc040a3d7, 0x41433333, 0x3f000000),
        param_spec("decay", "Vig", BinParamType::F32, 0x00000000, 0x407f5c29, 0x3f800000),
        param_spec("smoke_color", "Smoke Color", BinParamType::Color3, 0x00000000, 0x3f800000, 0x3e99999a),
        param_spec("color2", "Color 2", BinParamType::Color3, 0x00000000, 0x3f800000, 0x3f000000),
    ]
}

fn satan_table() -> (v: Vec<BinParamSpec>)
    ensures
        v@ == satan_params(),
{
    let mut v: Vec<BinParamSpec> = Vec::new();
    v.push(param("min_radius", "Freq", BinParamType::F32, 0x00000000, 0x41200000, 0x40000000));
    v.push(param("max_radius", "Blend", BinParamType::F32, 0xc0400000, 0x40400000, 0x3ecccccd));
    v.push(param("size", "Darkness", BinParamType::F32, 0xc040a3d7, 0x41433333, 0x3f000000));
    v.push(param("decay", "Vig", BinParamType::F32, 0x00000000, 0x407f5c29, 0x3f800000));
    v.push(param("smoke_color", "Smoke Color", BinParamType::Color3, 0x00000000, 0x3f800000, 0x3e99999a));
    v.push(param("color2", "Color 2", BinParamType::Color3, 0x00000000, 0x3f800000, 0x3f000000));
    assert(v@ =~= satan_params());
    v
}

/// The parameters of the `sdvert` shader.
pub open spec fn sdvert_params() -> Seq<BinParamSpec> {
    seq![
        param_spec("lambda", "Vertices", BinParamType::F32, 0x3f800000, 0x41a00000, 0x40400000),
        param_spec("theta", "Angle Scale", BinParamType::F32, 0x00000000, 0x41200000, 0x40000000),
        param_spec("gamma", "Layer Size", BinParamType::F32, 0x3dcccccd, 0x40400000, 0x3fc00000),
        param_spec("alpha", "Layer Min", BinParamType::F32, 0x3a83126f, 0x3f000000, 0x3e99999a),
        param_spec("sigma", "Layer Max", BinParamType::F32, 0x3c23d70a, 0x3f000000, 0x3d8f5c29),
        param_spec("a", "Depth Factor", BinParamType::F32, 0x00000000, 0x40a00000, 0x40000000),
        param_spec("b", "Fold Pattern", BinParamType::F32, 0x00000000, 0x40a00000, 0x3f000000),
        param_spec("blue", "Hue Shift", BinParamType::F32, 0x00000000, 0x40a00000, 0x3f800000),
        param_spec("base_color_r", "Base Red", BinParamType::F32, 0x00000000, 0x3f800000, 0x3f800000),
        param_spec("base_color_g", "Base Green", BinParamType::F32, 0x00000000, 0x3f800000, 0x3f800000),
        param_spec("base_color_b", "Base Blue", BinParamType::F32, 0x00000000, 0x3f800000, 0x3f800000),
        param_spec("accent_color_r", "Accent Red", BinParamType::F32, 0x00000000, 0x3f800000, 0x3f800000),
        param_spec("accent_color_g", "Accent Green", BinParamType::F32, 0x00000000, 0x3f800000, 0x3f800000),
        param_spec("accent_color_b", "Accent Blue", BinParamType::F32, 0x00000000, 0x3f800000, 0x3f800000),
        param_spec("background_r", "Background Red", BinParamType::F32, 0x00000000, 0x3f800000, 0x3f19999a),
        param_spec("background_g", "Background Green", BinParamType::F32, 0x00000000, 0x3f800000, 0x3f666666),
        param_spec("background_b", "Background Blue", BinParamType::F32, 0x00000000, 0x3f800000, 0x3f666666),
        param_spec("gamma_correction", "Gamma Correction", BinParamType::F32, 0x3dcccccd, 0x40400000, 0x3ed1eb85),
        param_spec("aces_tonemapping", "ACES Tonemapping", BinParamType::F32, 0x00000000, 0x40000000, 0x3ecccccd),
    ]
}

fn sdvert_table() -> (v: Vec<BinParamSpec>)
    ensures
        v@ == sdvert_params(),
{
    let mut v: Vec<BinParamSpec> = Vec::new();
    v.push(param("lambda", "Vertices", BinParamType::F32, 0x3f800000, 0x41a00000, 0x40400000));
    v.push(param("theta", "Angle Scale", BinParamType::F32, 0x00000000, 0x41200000, 0x40000000));
    v.push(param("gamma", "Layer Size", BinParamType::F32, 0x3dcccccd, 0x40400000, 0x3fc00000));
    v.push(param("alpha", "Layer Min", BinParamType::F32, 0x3a83126f, 0x3f000000, 0x3e99999a));
    v.push(param("sigma", "Layer Max", BinParamType::F32, 0x3c23d70a, 0x3f000000, 0x3d8f5c29));
    v.push(param("a", "Depth Factor", BinParamType::F32, 0x00000000, 0x40a00000, 0x40000000));
    v.push(param("b", "Fold Pattern", BinParamType::F32, 0x00000000, 0x40a00000, 0x3f000000));
    v.push(param("blue", "Hue Shift", BinParamType::F32, 0x00000000, 0x40a00000, 0x3f800000));
    v.push(param("base_color_r", "Base Red", BinParamType::F32, 0x00000000, 0x3f800000, 0x3f800000));
    v.push(param("base_color_g", "Base Green", BinParamType::F32, 0x00000000, 0x3f800000, 0x3f800000));
    v.push(param("base_color_b", "Base Blue", BinParamType::F32, 0x00000000, 0x3f800000, 0x3f800000));
    v.push(param("accent_color_r", "Accent Red", BinParamType::F32, 0x00000000, 0x3f800000, 0x3f800000));
    v.push(param("accent_color_g", "Accent Green", BinParamType::F32, 0x00000000, 0x3f800000, 0x3f800000));
    v.push(param("accent_color_b", "Accent Blue", BinParamType::F32, 0x00000000, 0x3f800000, 0x3f800000));
    v.push(param("background_r", "Background Red", BinParamType::F32, 0x00000000, 0x3f800000, 0x3f19999a));
    v.push(param("background_g", "Background Green", BinParamType::F32, 0x00000000, 0x3f800000, 0x3f666666));
    v.push(param("background_b", "Background Blue", BinParamType::F32, 0x00000000, 0x3f800000, 0x3f666666));
    v.push(param("gamma_correction", "Gamma Correction", BinParamType::F32, 0x3dcccccd, 0x40400000, 0x3ed1eb85));
    v.push(param("aces_tonemapping", "ACES Tonemapping", BinParamType::F32, 0x00000000, 0x40000000, 0x3ecccccd));
    assert(v@ =~= sdvert_params());
    v
}

/// The parameters of the `asahi` shader.
pub open spec fn asahi_params() -> Seq<BinParamSpec> {
    seq![
        param_spec("color_petal_start_a", "Left Start Color", BinParamType::Color3, 0x00000000, 0x3f800000, 0x3f000000),
        param_spec("color_petal_end_a", "Left End Color", BinParamType::Color3, 0x00000000, 0x3f800000, 0x00000000),
        param_spec("color_petal_start_b", "Right Start Color", BinParamType::Color3, 0x00000000, 0x3f800000, 0x00000000),
        param_spec("color_petal_end_b", "Right End Color", BinParamType::Color3, 0x00000000, 0x3f800000, 0x3f000000),
        param_spec("bg_color", "Background Color", BinParamType::Color3, 0x00000000, 0x3f800000, 0x3f800000),
        param_spec("animation_speed", "Animation Speed", BinParamType::F32, 0x00000000, 0x41400000, 0x40800000),
    ]
}

fn asahi_table() -> (v: Vec<BinParamSpec>)
    ensures
        v@ == asahi_params(),
{
    let mut v: Vec<BinParamSpec> = Vec::new();
    v.push(param("color_petal_start_a", "Left Start Color", BinParamType::Color3, 0x00000000, 0x3f800000, 0x3f000000));
    v.push(param("color_petal_end_a", "Left End Color", BinParamType::Color3, 0x00000000, 0x3f800000, 0x00000000));
    v.push(param("color_petal_start_b", "Right Start Color", BinParamType::Color3, 0x00000000, 0x3f800000, 0x00000000));
    v.push(param("color_petal_end_b", "Right End Color", BinParamType::Color3, 0x00000000, 0x3f800000, 0x3f000000));
    v.push(param("bg_color", "Background Color", BinParamType::Color3, 0x00000000, 0x3f800000, 0x3f800000));
    v.push(param("animation_speed", "Animation Speed", BinParamType::F32, 0x00000000, 0x41400000, 0x40800000));
    assert(v@ =~= asahi_params());
    v
}

/// The parameters of the shader named `name`, for the shaders that have
/// remote parameters.
pub open spec fn bin_params(name: Seq<char>) -> Option<Seq<BinParamSpec>> {
    if name == "roto"@ {
        Some(roto_params())
    } else if name == "cuneus"@ {
        Some(cuneus_params())
    } else if name == "spiral"@ {
        Some(spiral_params())
    } else if name == "voronoi"@ {
        Some(voronoi_params())
    } else if name == "matrix"@ {
        Some(matrix_params())
    } else if name == "tree"@ {
        Some(tree_params())
    } else if name == "2dneuron"@ {
        Some(neuron2d_params())
    } else if name == "gabor"@ {
        Some(gabor_params())
    } else if name == "plasma"@ {
        Some(plasma_params())
    } else if name == "lorenz"@ {
        Some(lorenz_params())
    } else if name == "nebula"@ {
        Some(nebula_params())
    } else if name == "satan"@ {
        Some(satan_params())
    } else if name == "sdvert"@ {
        Some(sdvert_params())
    } else if name == "asahi"@ {
        Some(asahi_params())
    } else {
        None
    }
}

/// The remote parameters of the shader `bin_name`, or `None` for a shader
/// that the catalog does not list.
pub fn params_for_bin(bin_name: &str) -> (r: Option<Vec<BinParamSpec>>)
    ensures
        match r {
            Some(v) => bin_params(bin_name@) == Some(v@),
            None => bin_params(bin_name@) is None,
        },
{
    if str_eq(bin_name, "roto") {
        Some(roto_table())
    } else if str_eq(bin_name, "cuneus") {
        Some(cuneus_table())
    } else if str_eq(bin_name, "spiral") {
        Some(spiral_table())
    } else if str_eq(bin_name, "voronoi") {
        Some(voronoi_table())
    } else if str_eq(bin_name, "matrix") {
        Some(matrix_table())
    } else if str_eq(bin_name, "tree") {
        Some(tree_table())
    } else if str_eq(bin_name, "2dneuron") {
        Some(neuron2d_table())
    } else if str_eq(bin_name, "gabor") {
        Some(gabor_table())
    } else if str_eq(bin_name, "plasma") {
        Some(plasma_table())
    } else if str_eq(bin_name, "lorenz") {
        Some(lorenz_table())
    } else if str_eq(bin_name, "nebula") {
        Some(nebula_table())
    } else if str_eq(bin_name, "satan") {
        Some(satan_table())
    } else if str_eq(bin_name, "sdvert") {
        Some(sdvert_table())
    } else if str_eq(bin_name, "asahi") {
        Some(asahi_table())
    } else {
        None
    }
}

/// The shaders that the runner offers, in catalog order.
pub open spec fn bin_names() -> Seq<&'static str> {
    seq!["roto", "cuneus", "tree", "2dneuron", "gabor", "plasma", "lorenz", "nebula", "satan", "sdvert", "asahi"]
}

/// The names of the shaders that the runner offers.
pub fn bins() -> (v: Vec<&'static str>)
    ensures
        v@ == bin_names(),
{
    let mut v: Vec<&'static str> = Vec::new();
    v.push("roto");
    v.push("cuneus");
    v.push("tree");
    v.push("2dneuron");
    v.push("gabor");
    v.push("plasma");
    v.push("lorenz");
    v.push("nebula");
    v.push("satan");
    v.push("sdvert");
    v.push("asahi");
    assert(v@ =~= bin_names());
    v
}

/// The name under which a parameter type is announced to hosts.
pub open spec fn param_type_name_spec(t: BinParamType) -> Seq<char> {
    match t {
        BinParamType::F32 => "f32"@,
        BinParamType::Color3 => "color3"@,
        BinParamType::Action => "action"@,
        BinParamType::String => "string"@,
        BinParamType::Bool => "bool"@,
        BinParamType::Select => "select"@,
    }
}

/// The name under which a parameter type is announced to hosts.
pub fn param_type_name(t: BinParamType) -> (s: &'static str)
    ensures
        s@ == param_type_name_spec(t),
{
    match t {
        BinParamType::F32 => "f32",
        BinParamType::Color3 => "color3",
        BinParamType::Action => "action",
        BinParamType::String => "string",
        BinParamType::Bool => "bool",
        BinParamType::Select => "select",
    }
}

/// Every shader that the runner offers has a parameter table.
pub proof fn lemma_offered_bins_have_params(i: int)
    requires
        0 <= i < bin_names().len(),
    ensures
        bin_params(bin_names()[i]@) is Some,
{
    reveal_strlit("roto");
    reveal_strlit("cuneus");
    reveal_strlit("spiral");
    reveal_strlit("voronoi");
    reveal_strlit("matrix");
    reveal_strlit("tree");
    reveal_strlit("2dneuron");
    reveal_strlit("gabor");
    reveal_strlit("plasma");
    reveal_strlit("lorenz");
    reveal_strlit("nebula");
    reveal_strlit("satan");
    reveal_strlit("sdvert");
    reveal_strlit("asahi");
}

/// Where a finite `f32` lies on the number line, from its bits (sign and
/// magnitude): keys are ordered as the numbers are, and `-0` and `0` share
/// one.
pub open spec fn f32_order_key(bits: u32) -> int {
    if bits >= 0x8000_0000 {
        -(bits - 0x8000_0000)
    } else {
        bits as int
    }
}

/// The bits are those of a finite `f32` (the exponent is not all ones).
pub open spec fn f32_bits_finite(bits: u32) -> bool {
    bits % 0x8000_0000 < 0x7f80_0000
}

/// A parameter's bounds and default are finite, with the default between
/// the bounds, and its id is not empty.
pub open spec fn param_well_formed(p: BinParamSpec) -> bool {
    &&& p.id@.len() > 0
    &&& f32_bits_finite(p.min_value_bits)
    &&& f32_bits_finite(p.max_value_bits)
    &&& f32_bits_finite(p.default_value_bits)
    &&& f32_order_key(p.min_value_bits) <= f32_order_key(p.default_value_bits)
    &&& f32_order_key(p.default_value_bits) <= f32_order_key(p.max_value_bits)
}

/// A parameter table is well formed: every parameter is, and no two share
/// an id.
pub open spec fn table_well_formed(ps: Seq<BinParamSpec>) -> bool {
    &&& forall|i: int| 0 <= i < ps.len() ==> param_well_formed(#[trigger] ps[i])
    &&& forall|i: int, j: int|
        0 <= i < j < ps.len() ==> (#[trigger] ps[i]).id@ != (#[trigger] ps[j]).id@
}

spec fn id_unused(id: Seq<char>, ps: Seq<BinParamSpec>) -> bool
    decreases ps.len(),
{
    if ps.len() == 0 {
        true
    } else {
        ps.last().id@ != id && id_unused(id, ps.drop_last())
    }
}

spec fn table_checked(ps: Seq<BinParamSpec>) -> bool
    decreases ps.len(),
{
    if ps.len() == 0 {
        true
    } else {
        param_well_formed(ps.last()) && id_unused(ps.last().id@, ps.drop_last())
            && table_checked(ps.drop_last())
    }
}

proof fn lemma_id_unused(id: Seq<char>, ps: Seq<BinParamSpec>, i: int)
    requires
        id_unused(id, ps),
        0 <= i < ps.len(),
    ensures
        ps[i].id@ != id,
    decreases ps.len(),
{
    if i < ps.len() - 1 {
        lemma_id_unused(id, ps.drop_last(), i);
    }
}

proof fn lemma_table_checked(ps: Seq<BinParamSpec>)
    requires
        table_checked(ps),
    ensures
        table_well_formed(ps),
    decreases ps.len(),
{
    if ps.len() > 0 {
        let q = ps.drop_last();
        lemma_table_checked(q);
        assert forall|i: int| 0 <= i < ps.len() implies param_well_formed(#[trigger] ps[i]) by {
            if i < q.len() {
                assert(q[i] == ps[i]);
            }
        }
        assert forall|i: int, j: int|
            0 <= i < j < ps.len() implies (#[trigger] ps[i]).id@ != (#[trigger] ps[j]).id@ by {
            if j < q.len() {
                assert(q[i] == ps[i] && q[j] == ps[j]);
            } else {
                lemma_id_unused(ps.last().id@, q, i);
                assert(q[i] == ps[i]);
            }
        }
    }
}

proof fn lemma_roto_checked()
    ensures
        table_checked(roto_params()),
{
    reveal_with_fuel(table_checked, 7);
    reveal_with_fuel(id_unused, 7);
    reveal_strlit("square_size");
    reveal_strlit("circle_radius");
    reveal_strlit("edge_thickness");
    reveal_strlit("animation_speed");
    reveal_strlit("background_color");
    reveal_strlit("edge_color_intensity");
    assert("square_size"@.len() == 11);
    assert("circle_radius"@.len() == 13);
    assert("edge_thickness"@.len() == 14);
    assert("animation_speed"@.len() == 15);
    assert("background_color"@.len() == 16);
    assert("edge_color_intensity"@.len() == 20);
}

proof fn lemma_cuneus_checked()
    ensures
        table_checked(cuneus_params()),
{
    reveal_with_fuel(table_checked, 12);
    reveal_with_fuel(id_unused, 12);
    reveal_strlit("background_color");
    reveal_strlit("hue_color");
    reveal_strlit("light_intensity");
    reveal_strlit("ao_strength");
    reveal_strlit("global_light");
    reveal_strlit("rim_power");
    reveal_strlit("env_light_strength");
    reveal_strlit("alpha_threshold");
    reveal_strlit("mix_factor_scale");
    reveal_strlit("iridescence_power");
    reveal_strlit("falloff_distance");
    assert("background_color"@.len() == 16);
    assert("hue_color"@.len() == 9);
    assert("light_intensity"@.len() == 15);
    assert("ao_strength"@.len() == 11);
    assert("global_light"@.len() == 12);
    assert("rim_power"@.len() == 9);
    assert("env_light_strength"@.len() == 18);
    assert("alpha_threshold"@.len() == 15);
    assert("mix_factor_scale"@.len() == 16);
    assert("iridescence_power"@.len() == 17);
    assert("falloff_distance"@.len() == 16);
    assert("background_color"@[0] == 'b' && "mix_factor_scale"@[0] == 'm');
    assert("background_color"@[0] == 'b' && "falloff_distance"@[0] == 'f');
    assert("hue_color"@[0] == 'h' && "rim_power"@[0] == 'r');
    assert("light_intensity"@[0] == 'l' && "alpha_threshold"@[0] == 'a');
    assert("mix_factor_scale"@[0] == 'm' && "falloff_distance"@[0] == 'f');
}

proof fn lemma_spiral_checked()
    ensures
        table_checked(spiral_params()),
{
    reveal_with_fuel(table_checked, 8);
    reveal_with_fuel(id_unused, 8);
    reveal_strlit("lambda");
    reveal_strlit("theta");
    reveal_strlit("alpha");
    reveal_strlit("sigma");
    reveal_strlit("gamma");
    reveal_strlit("blue");
    reveal_strlit("use_texture_colors");
    assert("lambda"@.len() == 6);
    assert("theta"@.len() == 5);
    assert("alpha"@.len() == 5);
    assert("sigma"@.len() == 5);
    assert("gamma"@.len() == 5);
    assert("blue"@.len() == 4);
    assert("use_texture_colors"@.len() == 18);
    assert("theta"@[0] == 't' && "alpha"@[0] == 'a');
    assert("theta"@[0] == 't' && "sigma"@[0] == 's');
    assert("theta"@[0] == 't' && "gamma"@[0] == 'g');
    assert("alpha"@[0] == 'a' && "sigma"@[0] == 's');
    assert("alpha"@[0] == 'a' && "gamma"@[0] == 'g');
    assert("sigma"@[0] == 's' && "gamma"@[0] == 'g');
}

proof fn lemma_voronoi_checked()
    ensures
        table_checked(voronoi_params()),
{
    reveal_with_fuel(table_checked, 6);
    reveal_with_fuel(id_unused, 6);
    reveal_strlit("scale");
    reveal_strlit("offset_value");
    reveal_strlit("cell_index");
    reveal_strlit("edge_width");
    reveal_strlit("highlight");
    assert("scale"@.len() == 5);
    assert("offset_value"@.len() == 12);
    assert("cell_index"@.len() == 10);
    assert("edge_width"@.len() == 10);
    assert("highlight"@.len() == 9);
    assert("cell_index"@[0] == 'c' && "edge_width"@[0] == 'e');
}

proof fn lemma_matrix_checked()
    ensures
        table_checked(matrix_params()),
{
    reveal_with_fuel(table_checked, 8);
    reveal_with_fuel(id_unused, 8);
    reveal_strlit("red_power");
    reveal_strlit("green_power");
    reveal_strlit("blue_power");
    reveal_strlit("green_boost");
    reveal_strlit("contrast");
    reveal_strlit("gamma");
    reveal_strlit("glow");
    assert("red_power"@.len() == 9);
    assert("green_power"@.len() == 11);
    assert("blue_power"@.len() == 10);
    assert("green_boost"@.len() == 11);
    assert("contrast"@.len() == 8);
    assert("gamma"@.len() == 5);
    assert("glow"@.len() == 4);
    assert("green_power"@[6] == 'p' && "green_boost"@[6] == 'b');
}

proof fn lemma_tree_checked()
    ensures
        table_checked(tree_params()),
{
    reveal_with_fuel(table_checked, 9);
    reveal_with_fuel(id_unused, 9);
    reveal_strlit("pixel_offset");
    reveal_strlit("pixel_offset2");
    reveal_strlit("lights");
    reveal_strlit("exp");
    reveal_strlit("frame");
    reveal_strlit("col1");
    reveal_strlit("col2");
    reveal_strlit("decay");
    assert("pixel_offset"@.len() == 12);
    assert("pixel_offset2"@.len() == 13);
    assert("lights"@.len() == 6);
    assert("exp"@.len() == 3);
    assert("frame"@.len() == 5);
    assert("col1"@.len() == 4);
    assert("col2"@.len() == 4);
    assert("decay"@.len() == 5);
    assert("frame"@[0] == 'f' && "decay"@[0] == 'd');
    assert("col1"@[3] == '1' && "col2"@[3] == '2');
}

proof fn lemma_neuron2d_checked()
    ensures
        table_checked(neuron2d_params()),
{
    reveal_with_fuel(table_checked, 9);
    reveal_with_fuel(id_unused, 9);
    reveal_strlit("pixel_offset");
    reveal_strlit("pixel_offset2");
    reveal_strlit("lights");
    reveal_strlit("exp");
    reveal_strlit("frame");
    reveal_strlit("col1");
    reveal_strlit("col2");
    reveal_strlit("decay");
    assert("pixel_offset"@.len() == 12);
    assert("pixel_offset2"@.len() == 13);
    assert("lights"@.len() == 6);
    assert("exp"@.len() == 3);
    assert("frame"@.len() == 5);
    assert("col1"@.len() == 4);
    assert("col2"@.len() == 4);
    assert("decay"@.len() == 5);
    assert("frame"@[0] == 'f' && "decay"@[0] == 'd');
    assert("col1"@[3] == '1' && "col2"@[3] == '2');
}

proof fn lemma_gabor_checked()
    ensures
        table_checked(gabor_params()),
{
    reveal_with_fuel(table_checked, 21);
    reveal_with_fuel(id_unused, 21);
    reveal_strlit("frequency");
    reveal_strlit("orientation");
    reveal_strlit("phase");
    reveal_strlit("speed");
    reveal_strlit("sigma_x");
    reveal_strlit("sigma_y");
    reveal_strlit("amplitude");
    reveal_strlit("aspect_ratio");
    reveal_strlit("z_scale");
    reveal_strlit("brightness");
    reveal_strlit("rotation_x");
    reveal_strlit("rotation_y");
    reveal_strlit("dof_amount");
    reveal_strlit("dof_focal_dist");
    reveal_strlit("color1_r");
    reveal_strlit("color1_g");
    reveal_strlit("color1_b");
    reveal_strlit("color2_r");
    reveal_strlit("color2_g");
    reveal_strlit("color2_b");
    assert("frequency"@.len() == 9);
    assert("orientation"@.len() == 11);
    assert("phase"@.len() == 5);
    assert("speed"@.len() == 5);
    assert("sigma_x"@.len() == 7);
    assert("sigma_y"@.len() == 7);
    assert("amplitude"@.len() == 9);
    assert("aspect_ratio"@.len() == 12);
    assert("z_scale"@.len() == 7);
    assert("brightness"@.len() == 10);
    assert("rotation_x"@.len() == 10);
    assert("rotation_y"@.len() == 10);
    assert("dof_amount"@.len() == 10);
    assert("dof_focal_dist"@.len() == 14);
    assert("color1_r"@.len() == 8);
    assert("color1_g"@.len() == 8);
    assert("color1_b"@.len() == 8);
    assert("color2_r"@.len() == 8);
    assert("color2_g"@.len() == 8);
    assert("color2_b"@.len() == 8);
    assert("frequency"@[0] == 'f' && "amplitude"@[0] == 'a');
    assert("phase"@[0] == 'p' && "speed"@[0] == 's');
    assert("sigma_x"@[6] == 'x' && "sigma_y"@[6] == 'y');
    assert("sigma_x"@[0] == 's' && "z_scale"@[0] == 'z');
    assert("sigma_y"@[0] == 's' && "z_scale"@[0] == 'z');
    assert("brightness"@[0] == 'b' && "rotation_x"@[0] == 'r');
    assert("brightness"@[0] == 'b' && "rotation_y"@[0] == 'r');
    assert("brightness"@[0] == 'b' && "dof_amount"@[0] == 'd');
    assert("rotation_x"@[9] == 'x' && "rotation_y"@[9] == 'y');
    assert("rotation_x"@[0] == 'r' && "dof_amount"@[0] == 'd');
    assert("rotation_y"@[0] == 'r' && "dof_amount"@[0] == 'd');
    assert("color1_r"@[7] == 'r' && "color1_g"@[7] == 'g');
    assert("color1_r"@[7] == 'r' && "color1_b"@[7] == 'b');
    assert("color1_r"@[5] == '1' && "color2_r"@[5] == '2');
    assert("color1_r"@[5] == '1' && "color2_g"@[5] == '2');
    assert("color1_r"@[5] == '1' && "color2_b"@[5] == '2');
    assert("color1_g"@[7] == 'g' && "color1_b"@[7] == 'b');
    assert("color1_g"@[5] == '1' && "color2_r"@[5] == '2');
    assert("color1_g"@[5] == '1' && "color2_g"@[5] == '2');
    assert("color1_g"@[5] == '1' && "color2_b"@[5] == '2');
    assert("color1_b"@[5] == '1' && "color2_r"@[5] == '2');
    assert("color1_b"@[5] == '1' && "color2_g"@[5] == '2');
    assert("color1_b"@[5] == '1' && "color2_b"@[5] == '2');
    assert("color2_r"@[7] == 'r' && "color2_g"@[7] == 'g');
    assert("color2_r"@[7] == 'r' && "color2_b"@[7] == 'b');
    assert("color2_g"@[7] == 'g' && "color2_b"@[7] == 'b');
}

proof fn lemma_plasma_checked()
    ensures
        table_checked(plasma_params()),
{
    reveal_with_fuel(table_checked, 19);
    reveal_with_fuel(id_unused, 19);
    reveal_strlit("detail");
    reveal_strlit("animation_speed");
    reveal_strlit("pattern");
    reveal_strlit("structure_smoothness");
    reveal_strlit("saturation");
    reveal_strlit("base_rotation");
    reveal_strlit("rot_variation");
    reveal_strlit("brightness_mult");
    reveal_strlit("rotation_x");
    reveal_strlit("rotation_y");
    reveal_strlit("dof_amount");
    reveal_strlit("dof_focal_dist");
    reveal_strlit("color1_r");
    reveal_strlit("color1_g");
    reveal_strlit("color1_b");
    reveal_strlit("color2_r");
    reveal_strlit("color2_g");
    reveal_strlit("color2_b");
    assert("detail"@.len() == 6);
    assert("animation_speed"@.len() == 15);
    assert("pattern"@.len() == 7);
    assert("structure_smoothness"@.len() == 20);
    assert("saturation"@.len() == 10);
    assert("base_rotation"@.len() == 13);
    assert("rot_variation"@.len() == 13);
    assert("brightness_mult"@.len() == 15);
    assert("rotation_x"@.len() == 10);
    assert("rotation_y"@.len() == 10);
    assert("dof_amount"@.len() == 10);
    assert("dof_focal_dist"@.len() == 14);
    assert("color1_r"@.len() == 8);
    assert("color1_g"@.len() == 8);
    assert("color1_b"@.len() == 8);
    assert("color2_r"@.len() == 8);
    assert("color2_g"@.len() == 8);
    assert("color2_b"@.len() == 8);
    assert("animation_speed"@[0] == 'a' && "brightness_mult"@[0] == 'b');
    assert("saturation"@[0] == 's' && "rotation_x"@[0] == 'r');
    assert("saturation"@[0] == 's' && "rotation_y"@[0] == 'r');
    assert("saturation"@[0] == 's' && "dof_amount"@[0] == 'd');
    assert("base_rotation"@[0] == 'b' && "rot_variation"@[0] == 'r');
    assert("rotation_x"@[9] == 'x' && "rotation_y"@[9] == 'y');
    assert("rotation_x"@[0] == 'r' && "dof_amount"@[0] == 'd');
    assert("rotation_y"@[0] == 'r' && "dof_amount"@[0] == 'd');
    assert("color1_r"@[7] == 'r' && "color1_g"@[7] == 'g');
    assert("color1_r"@[7] == 'r' && "color1_b"@[7] == 'b');
    assert("color1_r"@[5] == '1' && "color2_r"@[5] == '2');
    assert("color1_r"@[5] == '1' && "color2_g"@[5] == '2');
    assert("color1_r"@[5] == '1' && "color2_b"@[5] == '2');
    assert("color1_g"@[7] == 'g' && "color1_b"@[7] == 'b');
    assert("color1_g"@[5] == '1' && "color2_r"@[5] == '2');
    assert("color1_g"@[5] == '1' && "color2_g"@[5] == '2');
    assert("color1_g"@[5] == '1' && "color2_b"@[5] == '2');
    assert("color1_b"@[5] == '1' && "color2_r"@[5] == '2');
    assert("color1_b"@[5] == '1' && "color2_g"@[5] == '2');
    assert("color1_b"@[5] == '1' && "color2_b"@[5] == '2');
    assert("color2_r"@[7] == 'r' && "color2_g"@[7] == 'g');
    assert("color2_r"@[7] == 'r' && "color2_b"@[7] == 'b');
    assert("color2_g"@[7] == 'g' && "color2_b"@[7] == 'b');
}

proof fn lemma_lorenz_checked()
    ensures
        table_checked(lorenz_params()),
{
    reveal_with_fuel(table_checked, 19);
    reveal_with_fuel(id_unused, 19);
    reveal_strlit("sigma");
    reveal_strlit("rho");
    reveal_strlit("beta");
    reveal_strlit("step_size");
    reveal_strlit("motion_speed");
    reveal_strlit("brightness");
    reveal_strlit("scale");
    reveal_strlit("exposure");
    reveal_strlit("gamma");
    reveal_strlit("particle_count");
    reveal_strlit("dof_amount");
    reveal_strlit("dof_focal_dist");
    reveal_strlit("color1_r");
    reveal_strlit("color1_g");
    reveal_strlit("color1_b");
    reveal_strlit("color2_r");
    reveal_strlit("color2_g");
    reveal_strlit("color2_b");
    assert("sigma"@.len() == 5);
    assert("rho"@.len() == 3);
    assert("beta"@.len() == 4);
    assert("step_size"@.len() == 9);
    assert("motion_speed"@.len() == 12);
    assert("brightness"@.len() == 10);
    assert("scale"@.len() == 5);
    assert("exposure"@.len() == 8);
    assert("gamma"@.len() == 5);
    assert("particle_count"@.len() == 14);
    assert("dof_amount"@.len() == 10);
    assert("dof_focal_dist"@.len() == 14);
    assert("color1_r"@.len() == 8);
    assert("color1_g"@.len() == 8);
    assert("color1_b"@.len() == 8);
    assert("color2_r"@.len() == 8);
    assert("color2_g"@.len() == 8);
    assert("color2_b"@.len() == 8);
    assert("sigma"@[1] == 'i' && "scale"@[1] == 'c');
    assert("sigma"@[0] == 's' && "gamma"@[0] == 'g');
    assert("brightness"@[0] == 'b' && "dof_amount"@[0] == 'd');
    assert("scale"@[0] == 's' && "gamma"@[0] == 'g');
    assert("exposure"@[0] == 'e' && "color1_r"@[0] == 'c');
    assert("exposure"@[0] == 'e' && "color1_g"@[0] == 'c');
    assert("exposure"@[0] == 'e' && "color1_b"@[0] == 'c');
    assert("exposure"@[0] == 'e' && "color2_r"@[0] == 'c');
    assert("exposure"@[0] == 'e' && "color2_g"@[0] == 'c');
    assert("exposure"@[0] == 'e' && "color2_b"@[0] == 'c');
    assert("particle_count"@[0] == 'p' && "dof_focal_dist"@[0] == 'd');
    assert("color1_r"@[7] == 'r' && "color1_g"@[7] == 'g');
    assert("color1_r"@[7] == 'r' && "color1_b"@[7] == 'b');
    assert("color1_r"@[5] == '1' && "color2_r"@[5] == '2');
    assert("color1_r"@[5] == '1' && "color2_g"@[5] == '2');
    assert("color1_r"@[5] == '1' && "color2_b"@[5] == '2');
    assert("color1_g"@[7] == 'g' && "color1_b"@[7] == 'b');
    assert("color1_g"@[5] == '1' && "color2_r"@[5] == '2');
    assert("color1_g"@[5] == '1' && "color2_g"@[5] == '2');
    assert("color1_g"@[5] == '1' && "color2_b"@[5] == '2');
    assert("color1_b"@[5] == '1' && "color2_r"@[5] == '2');
    assert("color1_b"@[5] == '1' && "color2_g"@[5] == '2');
    assert("color1_b"@[5] == '1' && "color2_b"@[5] == '2');
    assert("color2_r"@[7] == 'r' && "color2_g"@[7] == 'g');
    assert("color2_r"@[7] == 'r' && "color2_b"@[7] == 'b');
    assert("color2_g"@[7] == 'g' && "color2_b"@[7] == 'b');
}

proof fn lemma_nebula_checked()
    ensures
        table_checked(nebula_params()),
{
    reveal_with_fuel(table_checked, 10);
    reveal_with_fuel(id_unused, 10);
    reveal_strlit("zoom_base");
    reveal_strlit("space_distort_x");
    reveal_strlit("space_distort_y");
    reveal_strlit("space_distort_z");
    reveal_strlit("zoom_delay");
    reveal_strlit("zoom_speed");
    reveal_strlit("min_zoom");
    reveal_strlit("noise_scale");
    reveal_strlit("time_scale");
    assert("zoom_base"@.len() == 9);
    assert("space_distort_x"@.len() == 15);
    assert("space_distort_y"@.len() == 15);
    assert("space_distort_z"@.len() == 15);
    assert("zoom_delay"@.len() == 10);
    assert("zoom_speed"@.len() == 10);
    assert("min_zoom"@.len() == 8);
    assert("noise_scale"@.len() == 11);
    assert("time_scale"@.len() == 10);
    assert("space_distort_x"@[14] == 'x' && "space_distort_y"@[14] == 'y');
    assert("space_distort_x"@[14] == 'x' && "space_distort_z"@[14] == 'z');
    assert("space_distort_y"@[14] == 'y' && "space_distort_z"@[14] == 'z');
    assert("zoom_delay"@[5] == 'd' && "zoom_speed"@[5] == 's');
    assert("zoom_delay"@[0] == 'z' && "time_scale"@[0] == 't');
    assert("zoom_speed"@[0] == 'z' && "time_scale"@[0] == 't');
}

proof fn lemma_satan_checked()
    ensures
        table_checked(satan_params()),
{
    reveal_with_fuel(table_checked, 7);
    reveal_with_fuel(id_unused, 7);
    reveal_strlit("min_radius");
    reveal_strlit("max_radius");
    reveal_strlit("size");
    reveal_strlit("decay");
    reveal_strlit("smoke_color");
    reveal_strlit("color2");
    assert("min_radius"@.len() == 10);
    assert("max_radius"@.len() == 10);
    assert("size"@.len() == 4);
    assert("decay"@.len() == 5);
    assert("smoke_color"@.len() == 11);
    assert("color2"@.len() == 6);
    assert("min_radius"@[1] == 'i' && "max_radius"@[1] == 'a');
}

proof fn lemma_sdvert_checked()
    ensures
        table_checked(sdvert_params()),
{
    reveal_with_fuel(table_checked, 20);
    reveal_with_fuel(id_unused, 20);
    reveal_strlit("lambda");
    reveal_strlit("theta");
    reveal_strlit("gamma");
    reveal_strlit("alpha");
    reveal_strlit("sigma");
    reveal_strlit("a");
    reveal_strlit("b");
    reveal_strlit("blue");
    reveal_strlit("base_color_r");
    reveal_strlit("base_color_g");
    reveal_strlit("base_color_b");
    reveal_strlit("accent_color_r");
    reveal_strlit("accent_color_g");
    reveal_strlit("accent_color_b");
    reveal_strlit("background_r");
    reveal_strlit("background_g");
    reveal_strlit("background_b");
    reveal_strlit("gamma_correction");
    reveal_strlit("aces_tonemapping");
    assert("lambda"@.len() == 6);
    assert("theta"@.len() == 5);
    assert("gamma"@.len() == 5);
    assert("alpha"@.len() == 5);
    assert("sigma"@.len() == 5);
    assert("a"@.len() == 1);
    assert("b"@.len() == 1);
    assert("blue"@.len() == 4);
    assert("base_color_r"@.len() == 12);
    assert("base_color_g"@.len() == 12);
    assert("base_color_b"@.len() == 12);
    assert("accent_color_r"@.len() == 14);
    assert("accent_color_g"@.len() == 14);
    assert("accent_color_b"@.len() == 14);
    assert("background_r"@.len() == 12);
    assert("background_g"@.len() == 12);
    assert("background_b"@.len() == 12);
    assert("gamma_correction"@.len() == 16);
    assert("aces_tonemapping"@.len() == 16);
    assert("theta"@[0] == 't' && "gamma"@[0] == 'g');
    assert("theta"@[0] == 't' && "alpha"@[0] == 'a');
    assert("theta"@[0] == 't' && "sigma"@[0] == 's');
    assert("gamma"@[0] == 'g' && "alpha"@[0] == 'a');
    assert("gamma"@[0] == 'g' && "sigma"@[0] == 's');
    assert("alpha"@[0] == 'a' && "sigma"@[0] == 's');
    assert("a"@[0] == 'a' && "b"@[0] == 'b');
    assert("base_color_r"@[11] == 'r' && "base_color_g"@[11] == 'g');
    assert("base_color_r"@[11] == 'r' && "base_color_b"@[11] == 'b');
    assert("base_color_r"@[2] == 's' && "background_r"@[2] == 'c');
    assert("base_color_r"@[2] == 's' && "background_g"@[2] == 'c');
    assert("base_color_r"@[2] == 's' && "background_b"@[2] == 'c');
    assert("base_color_g"@[11] == 'g' && "base_color_b"@[11] == 'b');
    assert("base_color_g"@[2] == 's' && "background_r"@[2] == 'c');
    assert("base_color_g"@[2] == 's' && "background_g"@[2] == 'c');
    assert("base_color_g"@[2] == 's' && "background_b"@[2] == 'c');
    assert("base_color_b"@[2] == 's' && "background_r"@[2] == 'c');
    assert("base_color_b"@[2] == 's' && "background_g"@[2] == 'c');
    assert("base_color_b"@[2] == 's' && "background_b"@[2] == 'c');
    assert("accent_color_r"@[13] == 'r' && "accent_color_g"@[13] == 'g');
    assert("accent_color_r"@[13] == 'r' && "accent_color_b"@[13] == 'b');
    assert("accent_color_g"@[13] == 'g' && "accent_color_b"@[13] == 'b');
    assert("background_r"@[11] == 'r' && "background_g"@[11] == 'g');
    assert("background_r"@[11] == 'r' && "background_b"@[11] == 'b');
    assert("background_g"@[11] == 'g' && "background_b"@[11] == 'b');
    assert("gamma_correction"@[0] == 'g' && "aces_tonemapping"@[0] == 'a');
}

proof fn lemma_asahi_checked()
    ensures
        table_checked(asahi_params()),
{
    reveal_with_fuel(table_checked, 7);
    reveal_with_fuel(id_unused, 7);
    reveal_strlit("color_petal_start_a");
    reveal_strlit("color_petal_end_a");
    reveal_strlit("color_petal_start_b");
    reveal_strlit("color_petal_end_b");
    reveal_strlit("bg_color");
    reveal_strlit("animation_speed");
    assert("color_petal_start_a"@.len() == 19);
    assert("color_petal_end_a"@.len() == 17);
    assert("color_petal_start_b"@.len() == 19);
    assert("color_petal_end_b"@.len() == 17);
    assert("bg_color"@.len() == 8);
    assert("animation_speed"@.len() == 15);
    assert("color_petal_start_a"@[18] == 'a' && "color_petal_start_b"@[18] == 'b');
    assert("color_petal_end_a"@[16] == 'a' && "color_petal_end_b"@[16] == 'b');
}

/// Every parameter table of the catalog is well formed: ids are not empty
/// and not shared within a shader, and each default lies between the
/// parameter's bounds.
pub proof fn lemma_catalog_well_formed(name: Seq<char>)
    requires
        bin_params(name) is Some,
    ensures
        table_well_formed(bin_params(name)->0),
{
    lemma_roto_checked();
    lemma_cuneus_checked();
    lemma_spiral_checked();
    lemma_voronoi_checked();
    lemma_matrix_checked();
    lemma_tree_checked();
    lemma_neuron2d_checked();
    lemma_gabor_checked();
    lemma_plasma_checked();
    lemma_lorenz_checked();
    lemma_nebula_checked();
    lemma_satan_checked();
    lemma_sdvert_checked();
    lemma_asahi_checked();
    let ps = bin_params(name)->0;
    lemma_table_checked(ps);
}

} // verus!
