//! What holds of the queues as a whole: which items they hold, and that the
//! pipeline each item is specialized into draws with its view's target
//! format and sample count.

use vstd::prelude::*;
use vstd::seq_lib::group_seq_properties;
use crate::mesh_key::lemma_view_key_roundtrip;
use crate::pipeline::follows_mesh_key;
use crate::pipeline::ColorTargetFormat;
use crate::pipeline::PipelineSpec;
use crate::mesh_key::Mesh2dPipelineKey;
use crate::queue::gizmo_joint_items;
use crate::queue::gizmo_line_items;
use crate::queue::joint_item;
use crate::queue::line_item;
use crate::queue::queued_line_gizmos;
use crate::queue::queued_line_joint_gizmos;
use crate::queue::view_joint_items;
use crate::queue::view_layer_words;
use crate::queue::view_line_items;
use crate::queue::view_mesh_key;
use crate::queue::GizmoView;
use crate::queue::line_queue_item_ok;
use crate::queue::line_item_before;
use crate::queue::joint_item_before;
use crate::queue::line_gizmo_drawn;
use crate::queue::line_joints_drawn;
use crate::queue::joint_queue_item_ok;
use crate::queue::DrawFunction;
use crate::queue::lemma_msaa_sample_count_encodable;
use crate::queue::msaa_sample_count;
use crate::queue::LineGizmoInstance;
use crate::queue::QueuedLineGizmo;
use crate::queue::QueuedLineJointGizmo;
use crate::render_layers::layers_intersect;
use crate::render_layers::lemma_intersects_iff_shared_layer;

verus! {

/// Gizmo `g` is drawn as a list (`strip` false) or as a strip in a view on
/// the layers `view_words`: it shares a layer with the view, its buffers are
/// prepared, and it has list vertices, or at least two strip vertices.
pub open spec fn line_drawn_in(g: LineGizmoInstance, view_words: Seq<u64>, strip: bool) -> bool {
    &&& layers_intersect(g.render_layers.words@, view_words)
    &&& match g.counts {
        None => false,
        Some(c) => if strip {
            c.strip_vertex_count >= 2
        } else {
            c.list_vertex_count > 0
        },
    }
}

/// Gizmo `g` has its joints drawn in a view on the layers `view_words`: it
/// shares a layer with the view, its buffers are prepared, it draws joints
/// and its strip has at least three vertices.
pub open spec fn joints_drawn_in(g: LineGizmoInstance, view_words: Seq<u64>) -> bool {
    &&& layers_intersect(g.render_layers.words@, view_words)
    &&& match g.counts {
        None => false,
        Some(c) => c.strip_vertex_count >= 3,
    }
    &&& !(g.line_joints is NoJoint)
}

/// `item` is the line item of gizmo `gi` in view `vi`, which has a phase.
pub open spec fn is_line_item_of(
    views: Seq<GizmoView>,
    gizmos: Seq<LineGizmoInstance>,
    item: QueuedLineGizmo,
    vi: int,
    gi: int,
    strip: bool,
) -> bool {
    &&& 0 <= vi < views.len()
    &&& 0 <= gi < gizmos.len()
    &&& views[vi].has_phase
    &&& line_drawn_in(gizmos[gi], view_layer_words(views[vi]), strip)
    &&& item == line_item(vi, gi, view_mesh_key(views[vi]), gizmos[gi], strip)
}

/// `item` is the joint item of gizmo `gi` in view `vi`, which has a phase.
pub open spec fn is_joint_item_of(
    views: Seq<GizmoView>,
    gizmos: Seq<LineGizmoInstance>,
    item: QueuedLineJointGizmo,
    vi: int,
    gi: int,
) -> bool {
    &&& 0 <= vi < views.len()
    &&& 0 <= gi < gizmos.len()
    &&& views[vi].has_phase
    &&& joints_drawn_in(gizmos[gi], view_layer_words(views[vi]))
    &&& item == joint_item(vi, gi, view_mesh_key(views[vi]), gizmos[gi])
}

proof fn lemma_gizmo_line_items_contains(
    vi: int,
    gi: int,
    v: GizmoView,
    g: LineGizmoInstance,
    item: QueuedLineGizmo,
)
    ensures
        gizmo_line_items(vi, gi, view_mesh_key(v), view_layer_words(v), g).contains(item) <==> (
        line_drawn_in(g, view_layer_words(v), false) && item == line_item(
            vi,
            gi,
            view_mesh_key(v),
            g,
            false,
        )) || (line_drawn_in(g, view_layer_words(v), true) && item == line_item(
            vi,
            gi,
            view_mesh_key(v),
            g,
            true,
        )),
{
    broadcast use group_seq_properties;

    let mk = view_mesh_key(v);
    let l = seq![line_item(vi, gi, mk, g, false)];
    let s = seq![line_item(vi, gi, mk, g, true)];
    assert(l[0] == line_item(vi, gi, mk, g, false));
    assert(s[0] == line_item(vi, gi, mk, g, true));
    assert(line_item(vi, gi, mk, g, false) != line_item(
        vi,
        gi,
        mk,
        g,
        true,
    ));
}

proof fn lemma_gizmo_joint_items_contains(
    vi: int,
    gi: int,
    v: GizmoView,
    g: LineGizmoInstance,
    item: QueuedLineJointGizmo,
)
    ensures
        gizmo_joint_items(vi, gi, view_mesh_key(v), view_layer_words(v), g).contains(item) <==> (
        joints_drawn_in(g, view_layer_words(v)) && item == joint_item(
            vi,
            gi,
            view_mesh_key(v),
            g,
        )),
{
    broadcast use group_seq_properties;

    let j = seq![joint_item(vi, gi, view_mesh_key(v), g)];
    assert(j[0] == joint_item(vi, gi, view_mesh_key(v), g));
}

proof fn lemma_view_line_items_contains(
    views: Seq<GizmoView>,
    gizmos: Seq<LineGizmoInstance>,
    vi: int,
    n: int,
    item: QueuedLineGizmo,
)
    requires
        0 <= vi < views.len(),
        views[vi].has_phase,
        0 <= n <= gizmos.len(),
    ensures
        view_line_items(vi, views[vi], gizmos, n).contains(item) <==> exists|gi: int, strip: bool|
            0 <= gi < n && #[trigger] is_line_item_of(views, gizmos, item, vi, gi, strip),
    decreases n,
{
    broadcast use group_seq_properties;

    let v = views[vi];
    if n > 0 {
        lemma_view_line_items_contains(views, gizmos, vi, n - 1, item);
        lemma_gizmo_line_items_contains(vi, n - 1, v, gizmos[n - 1], item);
        if view_line_items(vi, v, gizmos, n).contains(item) {
            if !view_line_items(vi, v, gizmos, n - 1).contains(item) {
                if line_drawn_in(gizmos[n - 1], view_layer_words(v), false) && item == line_item(
                    vi,
                    n - 1,
                    view_mesh_key(v),
                    gizmos[n - 1],
                    false,
                ) {
                    assert(is_line_item_of(views, gizmos, item, vi, n - 1, false));
                } else {
                    assert(is_line_item_of(views, gizmos, item, vi, n - 1, true));
                }
            }
        }
        if exists|gi: int, strip: bool|
            0 <= gi < n && #[trigger] is_line_item_of(views, gizmos, item, vi, gi, strip) {
            let (gi, strip) = choose|gi: int, strip: bool|
                0 <= gi < n && #[trigger] is_line_item_of(views, gizmos, item, vi, gi, strip);
            if gi == n - 1 {
                assert(gizmo_line_items(
                    vi,
                    n - 1,
                    view_mesh_key(v),
                    view_layer_words(v),
                    gizmos[n - 1],
                ).contains(item));
            }
        }
    }
}

proof fn lemma_view_joint_items_contains(
    views: Seq<GizmoView>,
    gizmos: Seq<LineGizmoInstance>,
    vi: int,
    n: int,
    item: QueuedLineJointGizmo,
)
    requires
        0 <= vi < views.len(),
        views[vi].has_phase,
        0 <= n <= gizmos.len(),
    ensures
        view_joint_items(vi, views[vi], gizmos, n).contains(item) <==> exists|gi: int|
            0 <= gi < n && #[trigger] is_joint_item_of(views, gizmos, item, vi, gi),
    decreases n,
{
    broadcast use group_seq_properties;

    let v = views[vi];
    if n > 0 {
        lemma_view_joint_items_contains(views, gizmos, vi, n - 1, item);
        lemma_gizmo_joint_items_contains(vi, n - 1, v, gizmos[n - 1], item);
        if view_joint_items(vi, v, gizmos, n).contains(item) {
            if !view_joint_items(vi, v, gizmos, n - 1).contains(item) {
                assert(is_joint_item_of(views, gizmos, item, vi, n - 1));
            }
        }
        if exists|gi: int| 0 <= gi < n && #[trigger] is_joint_item_of(views, gizmos, item, vi, gi) {
            let gi = choose|gi: int|
                0 <= gi < n && #[trigger] is_joint_item_of(views, gizmos, item, vi, gi);
            if gi == n - 1 {
                assert(gizmo_joint_items(
                    vi,
                    n - 1,
                    view_mesh_key(v),
                    view_layer_words(v),
                    gizmos[n - 1],
                ).contains(item));
            }
        }
    }
}

proof fn lemma_queued_line_gizmos_contains(
    views: Seq<GizmoView>,
    gizmos: Seq<LineGizmoInstance>,
    m: int,
    item: QueuedLineGizmo,
)
    requires
        0 <= m <= views.len(),
    ensures
        queued_line_gizmos(views, gizmos, m).contains(item) <==> exists|
            vi: int,
            gi: int,
            strip: bool,
        | vi < m && #[trigger] is_line_item_of(views, gizmos, item, vi, gi, strip),
    decreases m,
{
    broadcast use group_seq_properties;

    if m > 0 {
        let vi = m - 1;
        lemma_queued_line_gizmos_contains(views, gizmos, m - 1, item);
        if views[vi].has_phase {
            lemma_view_line_items_contains(views, gizmos, vi, gizmos.len() as int, item);
        }
        if queued_line_gizmos(views, gizmos, m).contains(item) {
            if !queued_line_gizmos(views, gizmos, m - 1).contains(item) {
                assert(views[vi].has_phase);
                let (gi, strip) = choose|gi: int, strip: bool|
                    0 <= gi < gizmos.len() && #[trigger] is_line_item_of(
                        views,
                        gizmos,
                        item,
                        vi,
                        gi,
                        strip,
                    );
                assert(is_line_item_of(views, gizmos, item, vi, gi, strip));
            }
        }
        if exists|vi: int, gi: int, strip: bool|
            vi < m && #[trigger] is_line_item_of(views, gizmos, item, vi, gi, strip) {
            let (wv, gi, strip) = choose|vi: int, gi: int, strip: bool|
                vi < m && #[trigger] is_line_item_of(views, gizmos, item, vi, gi, strip);
            if wv == m - 1 {
                assert(is_line_item_of(views, gizmos, item, vi, gi, strip));
                assert(view_line_items(vi, views[vi], gizmos, gizmos.len() as int).contains(item));
            } else {
                assert(is_line_item_of(views, gizmos, item, wv, gi, strip));
            }
        }
    }
}

proof fn lemma_queued_line_joint_gizmos_contains(
    views: Seq<GizmoView>,
    gizmos: Seq<LineGizmoInstance>,
    m: int,
    item: QueuedLineJointGizmo,
)
    requires
        0 <= m <= views.len(),
    ensures
        queued_line_joint_gizmos(views, gizmos, m).contains(item) <==> exists|vi: int, gi: int|
            vi < m && #[trigger] is_joint_item_of(views, gizmos, item, vi, gi),
    decreases m,
{
    broadcast use group_seq_properties;

    if m > 0 {
        let vi = m - 1;
        lemma_queued_line_joint_gizmos_contains(views, gizmos, m - 1, item);
        if views[vi].has_phase {
            lemma_view_joint_items_contains(views, gizmos, vi, gizmos.len() as int, item);
        }
        if queued_line_joint_gizmos(views, gizmos, m).contains(item) {
            if !queued_line_joint_gizmos(views, gizmos, m - 1).contains(item) {
                assert(views[vi].has_phase);
                let gi = choose|gi: int|
                    0 <= gi < gizmos.len() && #[trigger] is_joint_item_of(
                        views,
                        gizmos,
                        item,
                        vi,
                        gi,
                    );
                assert(is_joint_item_of(views, gizmos, item, vi, gi));
            }
        }
        if exists|vi: int, gi: int| vi < m && #[trigger] is_joint_item_of(views, gizmos, item, vi, gi) {
            let (wv, gi) = choose|vi: int, gi: int|
                vi < m && #[trigger] is_joint_item_of(views, gizmos, item, vi, gi);
            if wv == m - 1 {
                assert(is_joint_item_of(views, gizmos, item, vi, gi));
                assert(view_joint_items(vi, views[vi], gizmos, gizmos.len() as int).contains(item));
            } else {
                assert(is_joint_item_of(views, gizmos, item, wv, gi));
            }
        }
    }
}

/// The line queue holds an item exactly when it is the list or the strip of
/// a gizmo drawn in a view that has a phase, with that view's mesh key and
/// that gizmo's line style.
pub proof fn lemma_line_queue_holds_exactly_the_drawn_gizmos(
    views: Seq<GizmoView>,
    gizmos: Seq<LineGizmoInstance>,
    item: QueuedLineGizmo,
)
    ensures
        queued_line_gizmos(views, gizmos, views.len() as int).contains(item) <==> exists|
            vi: int,
            gi: int,
            strip: bool,
        | #[trigger] is_line_item_of(views, gizmos, item, vi, gi, strip),
{
    lemma_queued_line_gizmos_contains(views, gizmos, views.len() as int, item);
}

/// The joint queue holds an item exactly when it is the joint item of a
/// gizmo whose joints are drawn in a view that has a phase; so no item of
/// it asks for a pipeline without joints.
pub proof fn lemma_joint_queue_holds_exactly_the_drawn_joints(
    views: Seq<GizmoView>,
    gizmos: Seq<LineGizmoInstance>,
    item: QueuedLineJointGizmo,
)
    ensures
        queued_line_joint_gizmos(views, gizmos, views.len() as int).contains(item) <==> exists|
            vi: int,
            gi: int,
        | #[trigger] is_joint_item_of(views, gizmos, item, vi, gi),
        queued_line_joint_gizmos(views, gizmos, views.len() as int).contains(item) ==> !(
        item.key.joints is NoJoint),
{
    lemma_queued_line_joint_gizmos_contains(views, gizmos, views.len() as int, item);
}

/// A pipeline specialized for the key of a queued line item draws to the
/// format of its view's target (HDR exactly when the view is HDR) and with
/// its view's sample count; the item is drawn by the strip draw function
/// exactly when its key, and so its pipeline's vertex buffers, are a strip's.
pub proof fn lemma_line_item_pipeline_follows_view(
    views: Seq<GizmoView>,
    gizmos: Seq<LineGizmoInstance>,
    i: int,
    spec: PipelineSpec,
)
    requires
        views.len() <= usize::MAX,
        0 <= i < queued_line_gizmos(views, gizmos, views.len() as int).len(),
        follows_mesh_key(spec, queued_line_gizmos(views, gizmos, views.len() as int)[i].key.mesh_key),
    ensures
        ({
            let item = queued_line_gizmos(views, gizmos, views.len() as int)[i];
            let v = views[item.view as int];
            &&& item.view < views.len()
            &&& v.has_phase
            &&& (spec.color_format == ColorTargetFormat::Hdr <==> v.hdr)
            &&& spec.sample_count == msaa_sample_count(v.msaa)
            &&& item.key.strip == (item.draw_function == DrawFunction::LineGizmoStrip)
        }),
{
    broadcast use group_seq_properties;

    let q = queued_line_gizmos(views, gizmos, views.len() as int);
    let item = q[i];
    assert(q.contains(item));
    lemma_queued_line_gizmos_contains(views, gizmos, views.len() as int, item);
    let (vi, gi, strip) = choose|vi: int, gi: int, strip: bool|
        vi < views.len() && #[trigger] is_line_item_of(views, gizmos, item, vi, gi, strip);
    assert(item.view as int == vi);
    lemma_msaa_sample_count_encodable(views[vi].msaa);
    lemma_view_key_roundtrip(msaa_sample_count(views[vi].msaa), views[vi].hdr);
}

/// A pipeline specialized for the key of a queued joint item draws to the
/// format of its view's target and with its view's sample count; the item
/// is drawn by the joint draw function.
pub proof fn lemma_joint_item_pipeline_follows_view(
    views: Seq<GizmoView>,
    gizmos: Seq<LineGizmoInstance>,
    i: int,
    spec: PipelineSpec,
)
    requires
        views.len() <= usize::MAX,
        0 <= i < queued_line_joint_gizmos(views, gizmos, views.len() as int).len(),
        follows_mesh_key(
            spec,
            queued_line_joint_gizmos(views, gizmos, views.len() as int)[i].key.mesh_key,
        ),
    ensures
        ({
            let item = queued_line_joint_gizmos(views, gizmos, views.len() as int)[i];
            let v = views[item.view as int];
            &&& item.view < views.len()
            &&& v.has_phase
            &&& (spec.color_format == ColorTargetFormat::Hdr <==> v.hdr)
            &&& spec.sample_count == msaa_sample_count(v.msaa)
            &&& item.draw_function == DrawFunction::LineJointGizmo
        }),
{
    broadcast use group_seq_properties;

    let q = queued_line_joint_gizmos(views, gizmos, views.len() as int);
    let item = q[i];
    assert(q.contains(item));
    lemma_queued_line_joint_gizmos_contains(views, gizmos, views.len() as int, item);
    let (vi, gi) = choose|vi: int, gi: int|
        vi < views.len() && #[trigger] is_joint_item_of(views, gizmos, item, vi, gi);
    assert(item.view as int == vi);
    lemma_msaa_sample_count_encodable(views[vi].msaa);
    lemma_view_key_roundtrip(msaa_sample_count(views[vi].msaa), views[vi].hdr);
}

/// Two gizmo pipelines specialized for the same mesh key (the line and the
/// line-joint pipeline among them) have the same bind group layouts, color
/// target, primitive, depth-stencil and multisample state; they differ at
/// most in their label, entry points and vertex buffers.
pub proof fn lemma_gizmo_pipelines_share_state(
    a: PipelineSpec,
    b: PipelineSpec,
    mesh_key: Mesh2dPipelineKey,
)
    requires
        follows_mesh_key(a, mesh_key),
        follows_mesh_key(b, mesh_key),
    ensures
        a == (PipelineSpec {
            label: a.label,
            vertex_entry_point: a.vertex_entry_point,
            vertex_buffers: a.vertex_buffers,
            fragment_entry_point: a.fragment_entry_point,
            ..b
        }),
{
    assert(a.bind_group_layouts@ =~= b.bind_group_layouts@);
    assert(a.bind_group_layouts == b.bind_group_layouts);
}

/// Every item of the line queue names a view with a phase and a gizmo that
/// shares a layer with it and has the vertices its list or strip needs, and
/// carries that gizmo's entity and line style, that view's mesh key, the
/// draw function its strip flag calls for, and the setup of an item drawn
/// alone.
pub proof fn lemma_line_queue_items_follow_inputs(
    views: Seq<GizmoView>,
    gizmos: Seq<LineGizmoInstance>,
    i: int,
)
    requires
        views.len() <= usize::MAX,
        gizmos.len() <= usize::MAX,
        0 <= i < queued_line_gizmos(views, gizmos, views.len() as int).len(),
    ensures
        line_queue_item_ok(views, gizmos, queued_line_gizmos(views, gizmos, views.len() as int)[i]),
{
    broadcast use group_seq_properties;

    let q = queued_line_gizmos(views, gizmos, views.len() as int);
    let item = q[i];
    assert(q.contains(item));
    lemma_queued_line_gizmos_contains(views, gizmos, views.len() as int, item);
    let (vi, gi, strip) = choose|vi: int, gi: int, strip: bool|
        vi < views.len() && #[trigger] is_line_item_of(views, gizmos, item, vi, gi, strip);
    assert(item.view as int == vi);
    assert(item.gizmo as int == gi);
    lemma_intersects_iff_shared_layer(
        gizmos[gi].render_layers.words@,
        view_layer_words(views[vi]),
    );
}

/// Every item of the joint queue names a view with a phase and a gizmo that
/// shares a layer with it, draws joints and has at least three strip
/// vertices, and carries that gizmo's entity and joint kind, that view's
/// mesh key, the joint draw function and the setup of an item drawn alone.
pub proof fn lemma_joint_queue_items_follow_inputs(
    views: Seq<GizmoView>,
    gizmos: Seq<LineGizmoInstance>,
    i: int,
)
    requires
        views.len() <= usize::MAX,
        gizmos.len() <= usize::MAX,
        0 <= i < queued_line_joint_gizmos(views, gizmos, views.len() as int).len(),
    ensures
        joint_queue_item_ok(
            views,
            gizmos,
            queued_line_joint_gizmos(views, gizmos, views.len() as int)[i],
        ),
{
    broadcast use group_seq_properties;

    let q = queued_line_joint_gizmos(views, gizmos, views.len() as int);
    let item = q[i];
    assert(q.contains(item));
    lemma_queued_line_joint_gizmos_contains(views, gizmos, views.len() as int, item);
    let (vi, gi) = choose|vi: int, gi: int|
        vi < views.len() && #[trigger] is_joint_item_of(views, gizmos, item, vi, gi);
    assert(item.view as int == vi);
    assert(item.gizmo as int == gi);
    lemma_intersects_iff_shared_layer(
        gizmos[gi].render_layers.words@,
        view_layer_words(views[vi]),
    );
}

/// Items of a sequence of line items are in order.
pub open spec fn line_items_ordered(s: Seq<QueuedLineGizmo>) -> bool {
    forall|i: int, j: int| 0 <= i < j < s.len() ==> line_item_before(#[trigger] s[i], #[trigger] s[j])
}

/// Items of a sequence of joint items are in order.
pub open spec fn joint_items_ordered(s: Seq<QueuedLineJointGizmo>) -> bool {
    forall|i: int, j: int|
        0 <= i < j < s.len() ==> joint_item_before(#[trigger] s[i], #[trigger] s[j])
}

proof fn lemma_view_line_items_ordered(
    vi: int,
    v: GizmoView,
    gizmos: Seq<LineGizmoInstance>,
    n: int,
)
    requires
        0 <= vi <= usize::MAX,
        0 <= n <= gizmos.len() <= usize::MAX,
    ensures
        line_items_ordered(view_line_items(vi, v, gizmos, n)),
        forall|k: int|
            0 <= k < view_line_items(vi, v, gizmos, n).len() ==> (#[trigger] view_line_items(
                vi,
                v,
                gizmos,
                n,
            )[k]).view == vi && view_line_items(vi, v, gizmos, n)[k].gizmo < n,
    decreases n,
{
    if n > 0 {
        lemma_view_line_items_ordered(vi, v, gizmos, n - 1);
        let a = view_line_items(vi, v, gizmos, n - 1);
        let b = gizmo_line_items(vi, n - 1, view_mesh_key(v), view_layer_words(v), gizmos[n - 1]);
        let s = view_line_items(vi, v, gizmos, n);
        assert(s == a + b);
        assert forall|k: int| 0 <= k < b.len() implies (#[trigger] b[k]).view == vi && b[k].gizmo
            == n - 1 by {}
        assert(b.len() == 2 ==> !b[0].key.strip && b[1].key.strip);
        assert forall|i: int, j: int| 0 <= i < j < s.len() implies line_item_before(
            #[trigger] s[i],
            #[trigger] s[j],
        ) by {
            if j < a.len() {
                assert(s[i] == a[i] && s[j] == a[j]);
            } else if i < a.len() {
                assert(s[i] == a[i] && s[j] == b[j - a.len()]);
            } else {
                assert(s[i] == b[i - a.len()] && s[j] == b[j - a.len()]);
            }
        }
        assert forall|k: int| 0 <= k < s.len() implies (#[trigger] s[k]).view == vi && s[k].gizmo
            < n by {
            if k < a.len() {
                assert(s[k] == a[k]);
            } else {
                assert(s[k] == b[k - a.len()]);
            }
        }
    }
}

proof fn lemma_view_joint_items_ordered(
    vi: int,
    v: GizmoView,
    gizmos: Seq<LineGizmoInstance>,
    n: int,
)
    requires
        0 <= vi <= usize::MAX,
        0 <= n <= gizmos.len() <= usize::MAX,
    ensures
        joint_items_ordered(view_joint_items(vi, v, gizmos, n)),
        forall|k: int|
            0 <= k < view_joint_items(vi, v, gizmos, n).len() ==> (#[trigger] view_joint_items(
                vi,
                v,
                gizmos,
                n,
            )[k]).view == vi && view_joint_items(vi, v, gizmos, n)[k].gizmo < n,
    decreases n,
{
    if n > 0 {
        lemma_view_joint_items_ordered(vi, v, gizmos, n - 1);
        let a = view_joint_items(vi, v, gizmos, n - 1);
        let b = gizmo_joint_items(vi, n - 1, view_mesh_key(v), view_layer_words(v), gizmos[n - 1]);
        let s = view_joint_items(vi, v, gizmos, n);
        assert(s == a + b);
        assert forall|k: int| 0 <= k < b.len() implies (#[trigger] b[k]).view == vi && b[k].gizmo
            == n - 1 by {}
        assert forall|i: int, j: int| 0 <= i < j < s.len() implies joint_item_before(
            #[trigger] s[i],
            #[trigger] s[j],
        ) by {
            if j < a.len() {
                assert(s[i] == a[i] && s[j] == a[j]);
            } else if i < a.len() {
                assert(s[i] == a[i] && s[j] == b[j - a.len()]);
            } else {
                assert(s[i] == b[i - a.len()] && s[j] == b[j - a.len()]);
            }
        }
        assert forall|k: int| 0 <= k < s.len() implies (#[trigger] s[k]).view == vi && s[k].gizmo
            < n by {
            if k < a.len() {
                assert(s[k] == a[k]);
            } else {
                assert(s[k] == b[k - a.len()]);
            }
        }
    }
}

proof fn lemma_queued_line_gizmos_ordered(
    views: Seq<GizmoView>,
    gizmos: Seq<LineGizmoInstance>,
    m: int,
)
    requires
        0 <= m <= views.len() <= usize::MAX,
        gizmos.len() <= usize::MAX,
    ensures
        line_items_ordered(queued_line_gizmos(views, gizmos, m)),
        forall|k: int|
            0 <= k < queued_line_gizmos(views, gizmos, m).len() ==> (#[trigger] queued_line_gizmos(
                views,
                gizmos,
                m,
            )[k]).view < m,
    decreases m,
{
    if m > 0 {
        lemma_queued_line_gizmos_ordered(views, gizmos, m - 1);
        lemma_view_line_items_ordered(m - 1, views[m - 1], gizmos, gizmos.len() as int);
        let a = queued_line_gizmos(views, gizmos, m - 1);
        let b = if views[m - 1].has_phase {
            view_line_items(m - 1, views[m - 1], gizmos, gizmos.len() as int)
        } else {
            Seq::empty()
        };
        let s = queued_line_gizmos(views, gizmos, m);
        assert(s == a + b);
        assert forall|k: int| 0 <= k < b.len() implies (#[trigger] b[k]).view == m - 1 by {}
        assert forall|i: int, j: int| 0 <= i < j < s.len() implies line_item_before(
            #[trigger] s[i],
            #[trigger] s[j],
        ) by {
            if j < a.len() {
                assert(s[i] == a[i] && s[j] == a[j]);
            } else if i < a.len() {
                assert(s[i] == a[i] && s[j] == b[j - a.len()]);
            } else {
                assert(s[i] == b[i - a.len()] && s[j] == b[j - a.len()]);
            }
        }
        assert forall|k: int| 0 <= k < s.len() implies (#[trigger] s[k]).view < m by {
            if k < a.len() {
                assert(s[k] == a[k]);
            } else {
                assert(s[k] == b[k - a.len()]);
            }
        }
    }
}

proof fn lemma_queued_line_joint_gizmos_ordered(
    views: Seq<GizmoView>,
    gizmos: Seq<LineGizmoInstance>,
    m: int,
)
    requires
        0 <= m <= views.len() <= usize::MAX,
        gizmos.len() <= usize::MAX,
    ensures
        joint_items_ordered(queued_line_joint_gizmos(views, gizmos, m)),
        forall|k: int|
            0 <= k < queued_line_joint_gizmos(views, gizmos, m).len() ==> (
            #[trigger] queued_line_joint_gizmos(views, gizmos, m)[k]).view < m,
    decreases m,
{
    if m > 0 {
        lemma_queued_line_joint_gizmos_ordered(views, gizmos, m - 1);
        lemma_view_joint_items_ordered(m - 1, views[m - 1], gizmos, gizmos.len() as int);
        let a = queued_line_joint_gizmos(views, gizmos, m - 1);
        let b = if views[m - 1].has_phase {
            view_joint_items(m - 1, views[m - 1], gizmos, gizmos.len() as int)
        } else {
            Seq::empty()
        };
        let s = queued_line_joint_gizmos(views, gizmos, m);
        assert(s == a + b);
        assert forall|k: int| 0 <= k < b.len() implies (#[trigger] b[k]).view == m - 1 by {}
        assert forall|i: int, j: int| 0 <= i < j < s.len() implies joint_item_before(
            #[trigger] s[i],
            #[trigger] s[j],
        ) by {
            if j < a.len() {
                assert(s[i] == a[i] && s[j] == a[j]);
            } else if i < a.len() {
                assert(s[i] == a[i] && s[j] == b[j - a.len()]);
            } else {
                assert(s[i] == b[i - a.len()] && s[j] == b[j - a.len()]);
            }
        }
        assert forall|k: int| 0 <= k < s.len() implies (#[trigger] s[k]).view < m by {
            if k < a.len() {
                assert(s[k] == a[k]);
            } else {
                assert(s[k] == b[k - a.len()]);
            }
        }
    }
}

/// The line queue is in order: by view, then by gizmo, the list before the
/// strip; so no item occurs twice.
pub proof fn lemma_line_queue_ordered(views: Seq<GizmoView>, gizmos: Seq<LineGizmoInstance>)
    requires
        views.len() <= usize::MAX,
        gizmos.len() <= usize::MAX,
    ensures
        line_items_ordered(queued_line_gizmos(views, gizmos, views.len() as int)),
{
    lemma_queued_line_gizmos_ordered(views, gizmos, views.len() as int);
}

/// The joint queue is in order: by view, then by gizmo; so no item occurs twice.
pub proof fn lemma_joint_queue_ordered(views: Seq<GizmoView>, gizmos: Seq<LineGizmoInstance>)
    requires
        views.len() <= usize::MAX,
        gizmos.len() <= usize::MAX,
    ensures
        joint_items_ordered(queued_line_joint_gizmos(views, gizmos, views.len() as int)),
{
    lemma_queued_line_joint_gizmos_ordered(views, gizmos, views.len() as int);
}

/// Every list and every strip that is drawn in a view is in the line queue.
pub proof fn lemma_line_queue_complete(views: Seq<GizmoView>, gizmos: Seq<LineGizmoInstance>)
    requires
        views.len() <= usize::MAX,
        gizmos.len() <= usize::MAX,
    ensures
        forall|vi: int, gi: int, strip: bool|
            0 <= vi < views.len() && 0 <= gi < gizmos.len() && #[trigger] line_gizmo_drawn(
                gizmos[gi],
                views[vi],
                strip,
            ) ==> exists|i: int|
                0 <= i < queued_line_gizmos(views, gizmos, views.len() as int).len()
                    && #[trigger] queued_line_gizmos(views, gizmos, views.len() as int)[i].view
                    == vi && queued_line_gizmos(views, gizmos, views.len() as int)[i].gizmo == gi
                    && queued_line_gizmos(views, gizmos, views.len() as int)[i].key.strip == strip,
{
    broadcast use group_seq_properties;

    let q = queued_line_gizmos(views, gizmos, views.len() as int);
    assert forall|vi: int, gi: int, strip: bool|
        0 <= vi < views.len() && 0 <= gi < gizmos.len() && #[trigger] line_gizmo_drawn(
            gizmos[gi],
            views[vi],
            strip,
        ) implies exists|i: int|
        0 <= i < q.len() && #[trigger] q[i].view == vi && q[i].gizmo == gi && q[i].key.strip
            == strip by {
        lemma_intersects_iff_shared_layer(
            gizmos[gi].render_layers.words@,
            view_layer_words(views[vi]),
        );
        let item = line_item(vi, gi, view_mesh_key(views[vi]), gizmos[gi], strip);
        assert(is_line_item_of(views, gizmos, item, vi, gi, strip));
        lemma_queued_line_gizmos_contains(views, gizmos, views.len() as int, item);
        let i = choose|i: int| 0 <= i < q.len() && q[i] == item;
        assert(q[i].view == vi);
    }
}

/// Every gizmo whose joints are drawn in a view has its joint item in the joint queue.
pub proof fn lemma_joint_queue_complete(views: Seq<GizmoView>, gizmos: Seq<LineGizmoInstance>)
    requires
        views.len() <= usize::MAX,
        gizmos.len() <= usize::MAX,
    ensures
        forall|vi: int, gi: int|
            0 <= vi < views.len() && 0 <= gi < gizmos.len() && #[trigger] line_joints_drawn(
                gizmos[gi],
                views[vi],
            ) ==> exists|i: int|
                0 <= i < queued_line_joint_gizmos(views, gizmos, views.len() as int).len()
                    && #[trigger] queued_line_joint_gizmos(views, gizmos, views.len() as int)[i].view
                    == vi && queued_line_joint_gizmos(views, gizmos, views.len() as int)[i].gizmo
                    == gi,
{
    broadcast use group_seq_properties;

    let q = queued_line_joint_gizmos(views, gizmos, views.len() as int);
    assert forall|vi: int, gi: int|
        0 <= vi < views.len() && 0 <= gi < gizmos.len() && #[trigger] line_joints_drawn(
            gizmos[gi],
            views[vi],
        ) implies exists|i: int| 0 <= i < q.len() && #[trigger] q[i].view == vi && q[i].gizmo == gi by {
        lemma_intersects_iff_shared_layer(
            gizmos[gi].render_layers.words@,
            view_layer_words(views[vi]),
        );
        let item = joint_item(vi, gi, view_mesh_key(views[vi]), gizmos[gi]);
        assert(is_joint_item_of(views, gizmos, item, vi, gi));
        lemma_queued_line_joint_gizmos_contains(views, gizmos, views.len() as int, item);
        let i = choose|i: int| 0 <= i < q.len() && q[i] == item;
        assert(q[i].view == vi);
    }
}

} // verus!
