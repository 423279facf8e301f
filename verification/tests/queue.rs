use gizmo_pipeline_2d::config::GizmoLineJoint;
use gizmo_pipeline_2d::config::GizmoLineStyle;
use gizmo_pipeline_2d::mesh_key::Mesh2dPipelineKey;
use gizmo_pipeline_2d::pipeline::specialize_line_gizmo_pipeline;
use gizmo_pipeline_2d::pipeline::specialize_line_joint_gizmo_pipeline;
use gizmo_pipeline_2d::pipeline::ColorTargetFormat;
use gizmo_pipeline_2d::queue::queue_line_gizmos_2d;
use gizmo_pipeline_2d::queue::DrawFunction;
use gizmo_pipeline_2d::queue::ExtraIndex;
use gizmo_pipeline_2d::queue::GizmoEntity;
use gizmo_pipeline_2d::queue::Msaa;
use gizmo_pipeline_2d::queue::queue_line_joint_gizmos_2d;
use gizmo_pipeline_2d::queue::GizmoView;
use gizmo_pipeline_2d::queue::LineGizmoCounts;
use gizmo_pipeline_2d::queue::LineGizmoInstance;
use gizmo_pipeline_2d::render_layers::RenderLayers;

fn view(msaa_samples: u32, hdr: bool, layers: Option<Vec<u64>>) -> GizmoView {
    let msaa = match msaa_samples {
        1 => Msaa::Off,
        2 => Msaa::Sample2,
        4 => Msaa::Sample4,
        _ => Msaa::Sample8,
    };
    GizmoView { has_phase: true, msaa, hdr, render_layers: layers.map(RenderLayers::from_words) }
}

fn gizmo(layers: Vec<u64>, list: u32, strip: u32, joints: GizmoLineJoint) -> LineGizmoInstance {
    LineGizmoInstance {
        entity: GizmoEntity { render: 100 + list as u64, main: 200 + strip as u64 },
        render_layers: RenderLayers::from_words(layers),
        line_style: GizmoLineStyle::Dotted,
        line_joints: joints,
        counts: Some(LineGizmoCounts { list_vertex_count: list, strip_vertex_count: strip }),
    }
}

#[test]
fn list_then_strip_per_gizmo() {
    let views = vec![view(4, false, None)];
    let gizmos = vec![gizmo(vec![1], 6, 5, GizmoLineJoint::Miter)];
    let items = queue_line_gizmos_2d(&views, &gizmos);
    assert_eq!(items.len(), 2);
    assert_eq!((items[0].view, items[0].gizmo, items[0].key.strip), (0, 0, false));
    assert_eq!((items[1].view, items[1].gizmo, items[1].key.strip), (0, 0, true));
    for item in &items {
        assert_eq!(item.key.mesh_key, Mesh2dPipelineKey::for_view(4, false));
        assert_eq!(item.key.line_style, GizmoLineStyle::Dotted);
    }
}

#[test]
fn vertex_count_thresholds() {
    let views = vec![view(1, false, None)];
    let gizmos = vec![
        gizmo(vec![1], 0, 1, GizmoLineJoint::Bevel),
        gizmo(vec![1], 1, 2, GizmoLineJoint::Bevel),
        gizmo(vec![1], 0, 3, GizmoLineJoint::Bevel),
    ];
    let items = queue_line_gizmos_2d(&views, &gizmos);
    let got: Vec<(usize, bool)> = items.iter().map(|i| (i.gizmo, i.key.strip)).collect();
    assert_eq!(got, vec![(1, false), (1, true), (2, true)]);

    let joints = queue_line_joint_gizmos_2d(&views, &gizmos);
    let got: Vec<usize> = joints.iter().map(|i| i.gizmo).collect();
    assert_eq!(got, vec![2]);
}

#[test]
fn gizmos_without_prepared_buffers_are_skipped() {
    let views = vec![view(1, false, None)];
    let mut g = gizmo(vec![1], 4, 4, GizmoLineJoint::Round(8));
    g.counts = None;
    assert!(queue_line_gizmos_2d(&views, &vec![g.clone()]).is_empty());
    assert!(queue_line_joint_gizmos_2d(&views, &vec![g]).is_empty());
}

#[test]
fn views_without_phase_are_skipped() {
    let mut v = view(1, false, None);
    v.has_phase = false;
    let views = vec![v, view(2, true, None)];
    let gizmos = vec![gizmo(vec![1], 2, 3, GizmoLineJoint::Miter)];
    let items = queue_line_gizmos_2d(&views, &gizmos);
    assert_eq!(items.len(), 2);
    assert!(items.iter().all(|i| i.view == 1));
    let joints = queue_line_joint_gizmos_2d(&views, &gizmos);
    assert_eq!(joints.len(), 1);
    assert_eq!(joints[0].view, 1);
    assert_eq!(joints[0].key.mesh_key, Mesh2dPipelineKey::for_view(2, true));
}

#[test]
fn render_layers_filter_gizmos() {
    let views = vec![view(1, false, None), view(1, false, Some(vec![0b10])), view(1, false, Some(vec![0b11]))];
    let gizmos = vec![gizmo(vec![0b01], 2, 0, GizmoLineJoint::Bevel), gizmo(vec![0b10], 2, 0, GizmoLineJoint::Bevel)];
    let items = queue_line_gizmos_2d(&views, &gizmos);
    let got: Vec<(usize, usize)> = items.iter().map(|i| (i.view, i.gizmo)).collect();
    // View 0 has no layers and is on layer 0; view 1 on layer 1; view 2 on both.
    assert_eq!(got, vec![(0, 0), (1, 1), (2, 0), (2, 1)]);
}

#[test]
fn joints_need_three_strip_vertices_and_a_joint() {
    let views = vec![view(1, false, None)];
    let gizmos = vec![
        gizmo(vec![1], 0, 2, GizmoLineJoint::Miter),
        gizmo(vec![1], 0, 3, GizmoLineJoint::NoJoint),
        gizmo(vec![1], 0, 3, GizmoLineJoint::Round(16)),
        gizmo(vec![1], 0, 10, GizmoLineJoint::Bevel),
    ];
    let joints = queue_line_joint_gizmos_2d(&views, &gizmos);
    let got: Vec<(usize, GizmoLineJoint)> = joints.iter().map(|i| (i.gizmo, i.key.joints)).collect();
    assert_eq!(got, vec![(2, GizmoLineJoint::Round(16)), (3, GizmoLineJoint::Bevel)]);
    assert!(joints.iter().all(|i| i.key.joints != GizmoLineJoint::NoJoint));
}

#[test]
fn empty_inputs_give_nothing() {
    assert!(queue_line_gizmos_2d(&vec![], &vec![gizmo(vec![1], 2, 2, GizmoLineJoint::Miter)]).is_empty());
    assert!(queue_line_gizmos_2d(&vec![view(1, false, None)], &vec![]).is_empty());
    assert!(queue_line_joint_gizmos_2d(&vec![], &vec![]).is_empty());
}

#[test]
fn queued_items_specialize_to_their_view() {
    let views = vec![view(8, true, None), view(2, false, None)];
    let gizmos = vec![gizmo(vec![1], 2, 4, GizmoLineJoint::Miter)];
    for item in queue_line_gizmos_2d(&views, &gizmos) {
        let spec = specialize_line_gizmo_pipeline(&item.key);
        let v = &views[item.view];
        assert_eq!(spec.sample_count, v.msaa.samples());
        assert_eq!(spec.color_format == ColorTargetFormat::Hdr, v.hdr);
    }
    for item in queue_line_joint_gizmos_2d(&views, &gizmos) {
        let spec = specialize_line_joint_gizmo_pipeline(&item.key);
        let v = &views[item.view];
        assert_eq!(spec.sample_count, v.msaa.samples());
        assert_eq!(spec.color_format == ColorTargetFormat::Hdr, v.hdr);
    }
}

#[test]
fn queued_items_carry_entity_draw_function_and_phase_setup() {
    let views = vec![view(1, false, None)];
    let gizmos = vec![gizmo(vec![1], 6, 5, GizmoLineJoint::Round(3))];
    let items = queue_line_gizmos_2d(&views, &gizmos);
    assert_eq!(items[0].draw_function, DrawFunction::LineGizmoList);
    assert_eq!(items[1].draw_function, DrawFunction::LineGizmoStrip);
    for item in &items {
        assert_eq!(item.entity, GizmoEntity { render: 106, main: 205 });
        assert_eq!(item.phase_item.batch_range_start, 0);
        assert_eq!(item.phase_item.batch_range_end, 1);
        assert_eq!(item.phase_item.extra_index, ExtraIndex::NoIndex);
        assert_eq!(item.phase_item.extracted_index, usize::MAX);
        assert!(!item.phase_item.indexed);
    }
    let joints = queue_line_joint_gizmos_2d(&views, &gizmos);
    assert_eq!(joints.len(), 1);
    assert_eq!(joints[0].draw_function, DrawFunction::LineJointGizmo);
    assert_eq!(joints[0].entity, GizmoEntity { render: 106, main: 205 });
    assert_eq!(joints[0].phase_item, items[0].phase_item);
}

#[test]
fn msaa_settings_and_their_sample_counts() {
    assert_eq!(Msaa::Off.samples(), 1);
    assert_eq!(Msaa::Sample2.samples(), 2);
    assert_eq!(Msaa::Sample4.samples(), 4);
    assert_eq!(Msaa::Sample8.samples(), 8);
    for msaa in [Msaa::Off, Msaa::Sample2, Msaa::Sample4, Msaa::Sample8] {
        let views = vec![GizmoView { has_phase: true, msaa, hdr: false, render_layers: None }];
        let gizmos = vec![gizmo(vec![1], 2, 3, GizmoLineJoint::Bevel)];
        for item in queue_line_gizmos_2d(&views, &gizmos) {
            assert_eq!(specialize_line_gizmo_pipeline(&item.key).sample_count, msaa.samples());
            assert_eq!(item.key.strip, item.draw_function == DrawFunction::LineGizmoStrip);
        }
    }
}
