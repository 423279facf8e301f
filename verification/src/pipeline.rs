//! Specialization of the line and line-joint gizmo pipelines for a key.
//!
//! A pipeline is described by everything but its GPU handles (the shader and
//! the two bind group layouts, which it names by slot), its shader
//! definitions (set only for WebGL builds), and the two
//! floating-point parts of its depth bias, which are zero.

use vstd::prelude::*;
use crate::config::GizmoLineJoint;
use crate::config::GizmoLineStyle;
use crate::mesh_key::msaa_samples_of;
use crate::mesh_key::HDR_BIT;
use crate::mesh_key::Mesh2dPipelineKey;

verus! {

/// The format of the color target.
#[derive(Clone, Copy, Debug, PartialEq, Eq, Hash)]
pub enum ColorTargetFormat {
    /// The format of a view's HDR target.
    Hdr,
    /// The default format of a view's target.
    BevyDefault,
}

/// The vertex buffer layouts a pipeline reads.
#[derive(Clone, Copy, Debug, PartialEq, Eq, Hash)]
pub enum VertexBufferLayouts {
    /// The layouts of a line gizmo, as a list of segments or as a strip.
    LineGizmo { strip: bool },
    /// The layouts of the joints of a line strip.
    LineJointGizmo,
}

/// How a color target blends what is drawn with what is there.
#[derive(Clone, Copy, Debug, PartialEq, Eq, Hash)]
pub enum BlendMode {
    /// The new color replaces the old one.
    Replace,
    /// Standard alpha blending of straight alpha.
    AlphaBlending,
    /// Alpha blending of premultiplied alpha.
    PremultipliedAlphaBlending,
}

/// A bind group layout, by what it holds.
#[derive(Clone, Copy, Debug, PartialEq, Eq, Hash)]
pub enum BindGroupSlot {
    /// The 2D mesh pipeline's view layout.
    MeshView,
    /// The layout of a line gizmo's uniform.
    GizmoUniform,
}

/// A shader, by whose it is.
#[derive(Clone, Copy, Debug, PartialEq, Eq, Hash)]
pub enum ShaderSlot {
    /// The shader the pipeline was made with.
    Pipeline,
}

/// The format of the depth-stencil attachment.
#[derive(Clone, Copy, Debug, PartialEq, Eq, Hash)]
pub enum DepthFormat {
    /// The depth format of the core 2D pass.
    Core2d,
}

/// When a depth test passes.
#[derive(Clone, Copy, Debug, PartialEq, Eq, Hash)]
pub enum CompareFunction {
    Never,
    Less,
    Equal,
    LessEqual,
    Greater,
    NotEqual,
    GreaterEqual,
    Always,
}

/// What the stencil test does for one face.
#[derive(Clone, Copy, Debug, PartialEq, Eq, Hash)]
pub enum StencilFace {
    /// The stencil always passes and is left as it is.
    Ignore,
}

/// How vertices are assembled into primitives.
#[derive(Clone, Copy, Debug, PartialEq, Eq, Hash)]
pub enum PrimitiveSetup {
    /// Triangle lists, counter-clockwise front faces, no culling, filled polygons.
    Default,
}

/// Bits of the color channels a target writes: red, green, blue, alpha.
pub const COLOR_WRITES_ALL: u32 = 15u32;

/// A specialized pipeline, but for its GPU handles and the floating-point
/// parts of its depth bias (zero).
#[derive(Clone, Copy, Debug, PartialEq, Eq)]
pub struct PipelineSpec {
    pub label: &'static str,
    /// The bind group layouts, in the order of their group indices.
    pub bind_group_layouts: [BindGroupSlot; 2],
    pub push_constant_range_count: usize,
    pub vertex_shader: ShaderSlot,
    pub vertex_entry_point: &'static str,
    pub vertex_buffers: VertexBufferLayouts,
    pub fragment_shader: ShaderSlot,
    pub fragment_entry_point: &'static str,
    pub color_format: ColorTargetFormat,
    pub blend: BlendMode,
    pub color_write_mask: u32,
    pub primitive: PrimitiveSetup,
    pub depth_format: DepthFormat,
    pub depth_write_enabled: bool,
    pub depth_compare: CompareFunction,
    pub stencil_front: StencilFace,
    pub stencil_back: StencilFace,
    pub stencil_read_mask: u32,
    pub stencil_write_mask: u32,
    pub depth_bias_constant: i32,
    pub sample_count: u32,
    pub sample_mask: u64,
    pub alpha_to_coverage_enabled: bool,
    pub zero_initialize_workgroup_memory: bool,
}

/// The key of the line gizmo pipeline.
#[derive(Clone, Copy, Debug, PartialEq, Eq, Hash)]
pub struct LineGizmoPipelineKey {
    pub mesh_key: Mesh2dPipelineKey,
    pub strip: bool,
    pub line_style: GizmoLineStyle,
}

/// The key of the line-joint gizmo pipeline.
#[derive(Clone, Copy, Debug, PartialEq, Eq, Hash)]
pub struct LineJointGizmoPipelineKey {
    pub mesh_key: Mesh2dPipelineKey,
    pub joints: GizmoLineJoint,
}

/// The color format for a mesh key: the HDR format when the key's HDR flag is set.
pub open spec fn color_format_for(mesh_key_bits: u32) -> ColorTargetFormat {
    if mesh_key_bits & HDR_BIT == HDR_BIT {
        ColorTargetFormat::Hdr
    } else {
        ColorTargetFormat::BevyDefault
    }
}

/// The fragment entry point that draws a line style.
pub open spec fn line_fragment_entry(style: GizmoLineStyle) -> Seq<char> {
    match style {
        GizmoLineStyle::Solid => "fragment_solid"@,
        GizmoLineStyle::Dotted => "fragment_dotted"@,
        GizmoLineStyle::Dashed { .. } => "fragment_dashed"@,
    }
}

/// The vertex entry point that draws a kind of joint; a key without joints
/// falls back to the bevel.
pub open spec fn joint_vertex_entry(joints: GizmoLineJoint) -> Seq<char> {
    match joints {
        GizmoLineJoint::Miter => "vertex_miter"@,
        GizmoLineJoint::Round(_) => "vertex_round"@,
        GizmoLineJoint::NoJoint => "vertex_bevel"@,
        GizmoLineJoint::Bevel => "vertex_bevel"@,
    }
}

/// What every gizmo pipeline specialized for a mesh key shares: the view
/// layout at group 0 and the gizmo uniform at group 1, no push constants,
/// the pipeline's own shader for both the vertex and the fragment stage,
/// one color target in the key's format that alpha-blends and writes all
/// channels, the default primitive setup, the core 2D depth format with an
/// always-passing test, no depth writes, an ignored stencil and no depth
/// bias, the key's sample count with all samples and no alpha to coverage,
/// and workgroup memory that is not zeroed.
pub open spec fn follows_mesh_key(spec: PipelineSpec, mesh_key: Mesh2dPipelineKey) -> bool {
    &&& spec.bind_group_layouts@ == seq![BindGroupSlot::MeshView, BindGroupSlot::GizmoUniform]
    &&& spec.push_constant_range_count == 0
    &&& spec.vertex_shader == ShaderSlot::Pipeline
    &&& spec.fragment_shader == ShaderSlot::Pipeline
    &&& spec.color_format == color_format_for(mesh_key.bits)
    &&& spec.blend == BlendMode::AlphaBlending
    &&& spec.color_write_mask == COLOR_WRITES_ALL
    &&& spec.primitive == PrimitiveSetup::Default
    &&& spec.depth_format == DepthFormat::Core2d
    &&& !spec.depth_write_enabled
    &&& spec.depth_compare == CompareFunction::Always
    &&& spec.stencil_front == StencilFace::Ignore
    &&& spec.stencil_back == StencilFace::Ignore
    &&& spec.stencil_read_mask == 0
    &&& spec.stencil_write_mask == 0
    &&& spec.depth_bias_constant == 0
    &&& spec.sample_count == msaa_samples_of(mesh_key.bits)
    &&& spec.sample_mask == u64::MAX
    &&& !spec.alpha_to_coverage_enabled
    &&& !spec.zero_initialize_workgroup_memory
}

/// The pipeline state shared by every gizmo pipeline specialized for a mesh key.
fn gizmo_pipeline_spec(
    mesh_key: &Mesh2dPipelineKey,
    label: &'static str,
    vertex_entry_point: &'static str,
    vertex_buffers: VertexBufferLayouts,
    fragment_entry_point: &'static str,
) -> (r: PipelineSpec)
    ensures
        r.label == label,
        r.vertex_entry_point == vertex_entry_point,
        r.vertex_buffers == vertex_buffers,
        r.fragment_entry_point == fragment_entry_point,
        follows_mesh_key(r, *mesh_key),
{
    PipelineSpec {
        label,
        bind_group_layouts: [BindGroupSlot::MeshView, BindGroupSlot::GizmoUniform],
        push_constant_range_count: 0,
        vertex_shader: ShaderSlot::Pipeline,
        vertex_entry_point,
        vertex_buffers,
        fragment_shader: ShaderSlot::Pipeline,
        fragment_entry_point,
        color_format: color_format(mesh_key),
        blend: BlendMode::AlphaBlending,
        color_write_mask: COLOR_WRITES_ALL,
        primitive: PrimitiveSetup::Default,
        depth_format: DepthFormat::Core2d,
        depth_write_enabled: false,
        depth_compare: CompareFunction::Always,
        stencil_front: StencilFace::Ignore,
        stencil_back: StencilFace::Ignore,
        stencil_read_mask: 0,
        stencil_write_mask: 0,
        depth_bias_constant: 0,
        sample_count: mesh_key.msaa_samples(),
        sample_mask: u64::MAX,
        alpha_to_coverage_enabled: false,
        zero_initialize_workgroup_memory: false,
    }
}

/// The color format for a mesh key.
pub fn color_format(mesh_key: &Mesh2dPipelineKey) -> (r: ColorTargetFormat)
    ensures
        r == color_format_for(mesh_key.bits),
{
    if mesh_key.is_hdr() {
        ColorTargetFormat::Hdr
    } else {
        ColorTargetFormat::BevyDefault
    }
}

/// The fragment entry point that draws a line style.
pub fn line_fragment_entry_point(style: &GizmoLineStyle) -> (r: &'static str)
    ensures
        r@ == line_fragment_entry(*style),
        *style is Solid ==> r@ == "fragment_solid"@,
        *style is Dotted ==> r@ == "fragment_dotted"@,
        *style is Dashed ==> r@ == "fragment_dashed"@,
{
    match style {
        GizmoLineStyle::Solid => "fragment_solid",
        GizmoLineStyle::Dotted => "fragment_dotted",
        GizmoLineStyle::Dashed { .. } => "fragment_dashed",
    }
}

/// The vertex entry point that draws a kind of joint.
pub fn joint_vertex_entry_point(joints: &GizmoLineJoint) -> (r: &'static str)
    ensures
        r@ == joint_vertex_entry(*joints),
        *joints is Miter ==> r@ == "vertex_miter"@,
        *joints is Round ==> r@ == "vertex_round"@,
        *joints is Bevel ==> r@ == "vertex_bevel"@,
        *joints is NoJoint ==> r@ == "vertex_bevel"@,
{
    match joints {
        GizmoLineJoint::Miter => "vertex_miter",
        GizmoLineJoint::Round(_) => "vertex_round",
        GizmoLineJoint::NoJoint => "vertex_bevel",
        GizmoLineJoint::Bevel => "vertex_bevel",
    }
}

/// The line gizmo pipeline specialized for a key.
pub fn specialize_line_gizmo_pipeline(key: &LineGizmoPipelineKey) -> (r: PipelineSpec)
    ensures
        r.label@ == "LineGizmo Pipeline 2D"@,
        r.vertex_entry_point@ == "vertex"@,
        r.vertex_buffers == (VertexBufferLayouts::LineGizmo { strip: key.strip }),
        r.fragment_entry_point@ == line_fragment_entry(key.line_style),
        key.line_style is Solid ==> r.fragment_entry_point@ == "fragment_solid"@,
        key.line_style is Dotted ==> r.fragment_entry_point@ == "fragment_dotted"@,
        key.line_style is Dashed ==> r.fragment_entry_point@ == "fragment_dashed"@,
        follows_mesh_key(r, key.mesh_key),
{
    gizmo_pipeline_spec(
        &key.mesh_key,
        "LineGizmo Pipeline 2D",
        "vertex",
        VertexBufferLayouts::LineGizmo { strip: key.strip },
        line_fragment_entry_point(&key.line_style),
    )
}

/// The line-joint gizmo pipeline specialized for a key. A key without
/// joints has no entry point of its own; it gets the bevel's.
pub fn specialize_line_joint_gizmo_pipeline(key: &LineJointGizmoPipelineKey) -> (r: PipelineSpec)
    ensures
        r.label@ == "LineJointGizmo Pipeline 2D"@,
        r.vertex_entry_point@ == joint_vertex_entry(key.joints),
        key.joints is Miter ==> r.vertex_entry_point@ == "vertex_miter"@,
        key.joints is Round ==> r.vertex_entry_point@ == "vertex_round"@,
        key.joints is Bevel ==> r.vertex_entry_point@ == "vertex_bevel"@,
        key.joints is NoJoint ==> r.vertex_entry_point@ == "vertex_bevel"@,
        r.vertex_buffers == VertexBufferLayouts::LineJointGizmo,
        r.fragment_entry_point@ == "fragment"@,
        follows_mesh_key(r, key.mesh_key),
{
    gizmo_pipeline_spec(
        &key.mesh_key,
        "LineJointGizmo Pipeline 2D",
        joint_vertex_entry_point(&key.joints),
        VertexBufferLayouts::LineJointGizmo,
        "fragment",
    )
}

/// Each kind of line style has its own fragment entry point, whatever the
/// scales of a dashed line: solid, dotted and dashed lines are drawn by
/// three different entry points.
pub proof fn lemma_fragment_entry_by_style_kind(a: GizmoLineStyle, b: GizmoLineStyle)
    ensures
        a is Solid ==> line_fragment_entry(a) == "fragment_solid"@,
        a is Dotted ==> line_fragment_entry(a) == "fragment_dotted"@,
        a is Dashed ==> line_fragment_entry(a) == "fragment_dashed"@,
        (line_fragment_entry(a) == line_fragment_entry(b)) <==> (
        (a is Solid && b is Solid) || (a is Dotted && b is Dotted) || (a is Dashed && b is Dashed)),
{
    reveal_strlit("fragment_solid");
    reveal_strlit("fragment_dotted");
    reveal_strlit("fragment_dashed");
    assert("fragment_solid"@[9] != "fragment_dotted"@[9]);
    assert("fragment_solid"@[9] != "fragment_dashed"@[9]);
    assert("fragment_dotted"@[10] != "fragment_dashed"@[10]);
}

/// Miter, round and bevel joints each have their own vertex entry point,
/// whatever the resolution of a round joint; a key without joints gets the
/// bevel's.
pub proof fn lemma_joint_entry_by_joint_kind(a: GizmoLineJoint, b: GizmoLineJoint)
    ensures
        a is Miter ==> joint_vertex_entry(a) == "vertex_miter"@,
        a is Round ==> joint_vertex_entry(a) == "vertex_round"@,
        a is Bevel ==> joint_vertex_entry(a) == "vertex_bevel"@,
        a is NoJoint ==> joint_vertex_entry(a) == "vertex_bevel"@,
        (joint_vertex_entry(a) == joint_vertex_entry(b)) <==> (
        (a is Miter && b is Miter) || (a is Round && b is Round) || ((a is Bevel || a is NoJoint)
            && (b is Bevel || b is NoJoint))),
{
    reveal_strlit("vertex_miter");
    reveal_strlit("vertex_round");
    reveal_strlit("vertex_bevel");
    assert("vertex_miter"@[7] != "vertex_round"@[7]);
    assert("vertex_miter"@[7] != "vertex_bevel"@[7]);
    assert("vertex_round"@[7] != "vertex_bevel"@[7]);
}

} // verus!
