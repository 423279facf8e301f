use gizmo_pipeline_2d::config::GizmoLineJoint;
use gizmo_pipeline_2d::config::GizmoLineStyle;
use gizmo_pipeline_2d::mesh_key::Mesh2dPipelineKey;
use gizmo_pipeline_2d::pipeline::specialize_line_gizmo_pipeline;
use gizmo_pipeline_2d::pipeline::specialize_line_joint_gizmo_pipeline;
use gizmo_pipeline_2d::pipeline::ColorTargetFormat;
use gizmo_pipeline_2d::pipeline::LineGizmoPipelineKey;
use gizmo_pipeline_2d::pipeline::LineJointGizmoPipelineKey;
use gizmo_pipeline_2d::pipeline::VertexBufferLayouts;
use gizmo_pipeline_2d::pipeline::BindGroupSlot;
use gizmo_pipeline_2d::pipeline::BlendMode;
use gizmo_pipeline_2d::pipeline::CompareFunction;
use gizmo_pipeline_2d::pipeline::DepthFormat;
use gizmo_pipeline_2d::pipeline::PipelineSpec;
use gizmo_pipeline_2d::pipeline::PrimitiveSetup;
use gizmo_pipeline_2d::pipeline::StencilFace;
use gizmo_pipeline_2d::pipeline::ShaderSlot;

#[test]
fn line_pipeline_picks_fragment_entry_by_style() {
    let mesh_key = Mesh2dPipelineKey::for_view(4, false);
    let styles = [
        (GizmoLineStyle::Solid, "fragment_solid"),
        (GizmoLineStyle::Dotted, "fragment_dotted"),
        (
            GizmoLineStyle::Dashed { gap_scale_bits: 1.0f32.to_bits(), line_scale_bits: 2.0f32.to_bits() },
            "fragment_dashed",
        ),
    ];
    for (line_style, entry) in styles {
        let spec = specialize_line_gizmo_pipeline(&LineGizmoPipelineKey { mesh_key, strip: false, line_style });
        assert_eq!(spec.fragment_entry_point, entry);
        assert_eq!(spec.vertex_entry_point, "vertex");
        assert_eq!(spec.label, "LineGizmo Pipeline 2D");
    }
}

#[test]
fn line_pipeline_follows_the_mesh_key() {
    let key = LineGizmoPipelineKey {
        mesh_key: Mesh2dPipelineKey::for_view(8, true),
        strip: true,
        line_style: GizmoLineStyle::Solid,
    };
    let spec = specialize_line_gizmo_pipeline(&key);
    assert_eq!(spec.color_format, ColorTargetFormat::Hdr);
    assert_eq!(spec.sample_count, 8);
    assert_eq!(spec.sample_mask, u64::MAX);
    assert!(!spec.alpha_to_coverage_enabled);
    assert!(!spec.depth_write_enabled);
    assert_eq!(spec.vertex_buffers, VertexBufferLayouts::LineGizmo { strip: true });

    let key = LineGizmoPipelineKey { mesh_key: Mesh2dPipelineKey::for_view(1, false), strip: false, ..key };
    let spec = specialize_line_gizmo_pipeline(&key);
    assert_eq!(spec.color_format, ColorTargetFormat::BevyDefault);
    assert_eq!(spec.sample_count, 1);
    assert_eq!(spec.vertex_buffers, VertexBufferLayouts::LineGizmo { strip: false });
}

#[test]
fn joint_pipeline_picks_vertex_entry_by_joint() {
    let mesh_key = Mesh2dPipelineKey::for_view(2, true);
    let joints = [
        (GizmoLineJoint::Miter, "vertex_miter"),
        (GizmoLineJoint::Round(4), "vertex_round"),
        (GizmoLineJoint::Bevel, "vertex_bevel"),
        (GizmoLineJoint::NoJoint, "vertex_bevel"),
    ];
    for (joints, entry) in joints {
        let spec = specialize_line_joint_gizmo_pipeline(&LineJointGizmoPipelineKey { mesh_key, joints });
        assert_eq!(spec.vertex_entry_point, entry);
        assert_eq!(spec.fragment_entry_point, "fragment");
        assert_eq!(spec.label, "LineJointGizmo Pipeline 2D");
        assert_eq!(spec.vertex_buffers, VertexBufferLayouts::LineJointGizmo);
        assert_eq!(spec.color_format, ColorTargetFormat::Hdr);
        assert_eq!(spec.sample_count, 2);
        assert_eq!(spec.sample_mask, u64::MAX);
    }
}

fn assert_fixed_state(spec: &PipelineSpec) {
    assert_eq!(spec.bind_group_layouts, [BindGroupSlot::MeshView, BindGroupSlot::GizmoUniform]);
    assert_eq!(spec.push_constant_range_count, 0);
    assert_eq!(spec.vertex_shader, ShaderSlot::Pipeline);
    assert_eq!(spec.fragment_shader, ShaderSlot::Pipeline);
    assert_eq!(spec.blend, BlendMode::AlphaBlending);
    assert_eq!(spec.color_write_mask, 0b1111);
    assert_eq!(spec.primitive, PrimitiveSetup::Default);
    assert_eq!(spec.depth_format, DepthFormat::Core2d);
    assert!(!spec.depth_write_enabled);
    assert_eq!(spec.depth_compare, CompareFunction::Always);
    assert_eq!(spec.stencil_front, StencilFace::Ignore);
    assert_eq!(spec.stencil_back, StencilFace::Ignore);
    assert_eq!(spec.stencil_read_mask, 0);
    assert_eq!(spec.stencil_write_mask, 0);
    assert_eq!(spec.depth_bias_constant, 0);
    assert!(!spec.alpha_to_coverage_enabled);
    assert!(!spec.zero_initialize_workgroup_memory);
}

#[test]
fn both_pipelines_share_their_fixed_state() {
    let mesh_key = Mesh2dPipelineKey::for_view(4, true);
    let line = specialize_line_gizmo_pipeline(&LineGizmoPipelineKey { mesh_key, strip: true, line_style: GizmoLineStyle::Solid });
    let joint = specialize_line_joint_gizmo_pipeline(&LineJointGizmoPipelineKey { mesh_key, joints: GizmoLineJoint::Miter });
    assert_fixed_state(&line);
    assert_fixed_state(&joint);
    let same = PipelineSpec {
        label: joint.label,
        vertex_entry_point: joint.vertex_entry_point,
        vertex_buffers: joint.vertex_buffers,
        fragment_entry_point: joint.fragment_entry_point,
        ..line
    };
    assert_eq!(same, joint);
    assert_ne!(line.label, joint.label);
}

#[test]
fn dashed_styles_compare_their_scales_as_floats() {
    let dashed = |g: f32, l: f32| GizmoLineStyle::Dashed { gap_scale_bits: g.to_bits(), line_scale_bits: l.to_bits() };
    assert_eq!(dashed(0.0, 1.0), dashed(-0.0, 1.0));
    assert_eq!(dashed(2.5, 1.0), dashed(2.5, 1.0));
    assert_ne!(dashed(2.5, 1.0), dashed(2.5, 1.5));
    assert_ne!(dashed(f32::NAN, 1.0), dashed(f32::NAN, 1.0));
    assert_ne!(dashed(1.0, 1.0), GizmoLineStyle::Solid);
    assert_eq!(GizmoLineStyle::Dotted, GizmoLineStyle::Dotted);
}
