//! Which line gizmos are drawn in which view, and with which pipeline key.
//!
//! A view takes part when it has a transparent 2D render phase. Within it,
//! a gizmo is drawn when its render layers share a layer with the view's
//! (a view without layers is on layer 0 alone) and its vertex buffers have
//! been prepared. The items come out view by view, and within a view gizmo
//! by gizmo, in the order in which the views and gizmos are given.

use vstd::prelude::*;
use crate::config::GizmoLineJoint;
use crate::config::GizmoLineStyle;
use crate::mesh_key::view_key_bits;
use crate::mesh_key::is_encodable_sample_count;
use crate::mesh_key::Mesh2dPipelineKey;
use crate::pipeline::LineGizmoPipelineKey;
use crate::pipeline::LineJointGizmoPipelineKey;
use crate::render_layers::default_layer_words;
use crate::render_layers::layers_intersect;
use crate::render_layers::share_a_layer;
use crate::laws::lemma_line_queue_items_follow_inputs;
use crate::laws::lemma_joint_queue_items_follow_inputs;
use crate::laws::lemma_line_queue_ordered;
use crate::laws::lemma_joint_queue_ordered;
use crate::laws::lemma_line_queue_complete;
use crate::laws::lemma_joint_queue_complete;
use crate::render_layers::RenderLayers;

verus! {

/// The vertex counts of a line gizmo whose buffers have been prepared.
#[derive(Clone, Copy, Debug, PartialEq, Eq, Hash)]
pub struct LineGizmoCounts {
    pub list_vertex_count: u32,
    pub strip_vertex_count: u32,
}

/// The entity of a gizmo in the render world and in the main world, each
/// as the bits of its identifier.
#[derive(Clone, Copy, Debug, PartialEq, Eq, Hash)]
pub struct GizmoEntity {
    pub render: u64,
    pub main: u64,
}

/// The draw function of a queued item.
#[derive(Clone, Copy, Debug, PartialEq, Eq, Hash)]
pub enum DrawFunction {
    /// Draws a line gizmo's segments as a list.
    LineGizmoList,
    /// Draws a line gizmo's segments as a strip.
    LineGizmoStrip,
    /// Draws the joints of a line gizmo's strip.
    LineJointGizmo,
}

/// The extra index of a phase item.
#[derive(Clone, Copy, Debug, PartialEq, Eq, Hash)]
pub enum ExtraIndex {
    /// No extra index.
    NoIndex,
    /// A dynamic uniform buffer offset.
    DynamicOffset(u32),
}

/// How a queued item is batched in its render phase. Its sort key, which
/// places it after every other transparent item, is positive infinity.
#[derive(Clone, Copy, Debug, PartialEq, Eq, Hash)]
pub struct PhaseItemSetup {
    pub batch_range_start: u32,
    pub batch_range_end: u32,
    pub extra_index: ExtraIndex,
    pub extracted_index: usize,
    pub indexed: bool,
}

/// The setup of an item drawn alone: a batch of one instance, no extra
/// index, no extracted index and no index buffer.
pub open spec fn unbatched_setup() -> PhaseItemSetup {
    PhaseItemSetup {
        batch_range_start: 0,
        batch_range_end: 1,
        extra_index: ExtraIndex::NoIndex,
        extracted_index: usize::MAX,
        indexed: false,
    }
}

/// The setup of an item drawn alone.
pub fn unbatched() -> (r: PhaseItemSetup)
    ensures
        r == unbatched_setup(),
{
    PhaseItemSetup {
        batch_range_start: 0,
        batch_range_end: 1,
        extra_index: ExtraIndex::NoIndex,
        extracted_index: usize::MAX,
        indexed: false,
    }
}

/// A view's multisample anti-aliasing setting.
#[derive(Clone, Copy, Debug, PartialEq, Eq, Hash)]
pub enum Msaa {
    Off,
    Sample2,
    Sample4,
    Sample8,
}

/// The number of samples per pixel of a setting.
pub open spec fn msaa_sample_count(msaa: Msaa) -> u32 {
    match msaa {
        Msaa::Off => 1,
        Msaa::Sample2 => 2,
        Msaa::Sample4 => 4,
        Msaa::Sample8 => 8,
    }
}

impl Msaa {
    /// The number of samples per pixel.
    pub fn samples(&self) -> (r: u32)
        ensures
            r == msaa_sample_count(*self),
            *self is Off ==> r == 1,
            *self is Sample2 ==> r == 2,
            *self is Sample4 ==> r == 4,
            *self is Sample8 ==> r == 8,
    {
        match self {
            Msaa::Off => 1,
            Msaa::Sample2 => 2,
            Msaa::Sample4 => 4,
            Msaa::Sample8 => 8,
        }
    }
}

/// Every setting's sample count is one that a mesh key carries unchanged.
pub proof fn lemma_msaa_sample_count_encodable(msaa: Msaa)
    ensures
        is_encodable_sample_count(msaa_sample_count(msaa)),
{
    assert(1u32 == 1u32 << 0u32) by (bit_vector);
    assert(2u32 == 1u32 << 1u32) by (bit_vector);
    assert(4u32 == 1u32 << 2u32) by (bit_vector);
    assert(8u32 == 1u32 << 3u32) by (bit_vector);
}

/// A view, as far as queueing reads it.
#[derive(Clone, Debug, PartialEq, Eq)]
pub struct GizmoView {
    /// Whether the view has a transparent 2D render phase.
    pub has_phase: bool,
    /// The view's multisampling.
    pub msaa: Msaa,
    /// Whether the view renders to an HDR target.
    pub hdr: bool,
    /// The view's render layers, if it names any.
    pub render_layers: Option<RenderLayers>,
}

/// A line gizmo, as far as queueing reads it.
#[derive(Clone, Debug, PartialEq, Eq)]
pub struct LineGizmoInstance {
    pub entity: GizmoEntity,
    pub render_layers: RenderLayers,
    pub line_style: GizmoLineStyle,
    pub line_joints: GizmoLineJoint,
    /// The vertex counts, when the gizmo's buffers have been prepared.
    pub counts: Option<LineGizmoCounts>,
}

/// A line gizmo to draw in a view: indices of the view and of the gizmo,
/// the gizmo's entity, the draw function, the key of the pipeline that
/// draws it and its setup in the view's render phase.
#[derive(Clone, Copy, Debug, PartialEq, Eq)]
pub struct QueuedLineGizmo {
    pub view: usize,
    pub gizmo: usize,
    pub entity: GizmoEntity,
    pub draw_function: DrawFunction,
    pub key: LineGizmoPipelineKey,
    pub phase_item: PhaseItemSetup,
}

/// The joints of a line gizmo to draw in a view.
#[derive(Clone, Copy, Debug, PartialEq, Eq)]
pub struct QueuedLineJointGizmo {
    pub view: usize,
    pub gizmo: usize,
    pub entity: GizmoEntity,
    pub draw_function: DrawFunction,
    pub key: LineJointGizmoPipelineKey,
    pub phase_item: PhaseItemSetup,
}

/// The render layers a view is on.
pub open spec fn view_layer_words(v: GizmoView) -> Seq<u64> {
    match v.render_layers {
        Some(layers) => layers.words@,
        None => default_layer_words(),
    }
}

/// The mesh key of a view.
pub open spec fn view_mesh_key(v: GizmoView) -> Mesh2dPipelineKey {
    Mesh2dPipelineKey { bits: view_key_bits(msaa_sample_count(v.msaa), v.hdr) }
}

/// The draw function of a line gizmo's list or strip.
pub open spec fn line_draw_function(strip: bool) -> DrawFunction {
    if strip {
        DrawFunction::LineGizmoStrip
    } else {
        DrawFunction::LineGizmoList
    }
}

/// A queued line gizmo: the list or strip of gizmo `g`, at index `gi`, in view `vi`.
pub open spec fn line_item(
    vi: int,
    gi: int,
    mesh_key: Mesh2dPipelineKey,
    g: LineGizmoInstance,
    strip: bool,
) -> QueuedLineGizmo {
    QueuedLineGizmo {
        view: vi as usize,
        gizmo: gi as usize,
        entity: g.entity,
        draw_function: line_draw_function(strip),
        key: LineGizmoPipelineKey { mesh_key, strip, line_style: g.line_style },
        phase_item: unbatched_setup(),
    }
}

/// A queued line joint: the joints of gizmo `g`, at index `gi`, in view `vi`.
pub open spec fn joint_item(
    vi: int,
    gi: int,
    mesh_key: Mesh2dPipelineKey,
    g: LineGizmoInstance,
) -> QueuedLineJointGizmo {
    QueuedLineJointGizmo {
        view: vi as usize,
        gizmo: gi as usize,
        entity: g.entity,
        draw_function: DrawFunction::LineJointGizmo,
        key: LineJointGizmoPipelineKey { mesh_key, joints: g.line_joints },
        phase_item: unbatched_setup(),
    }
}

/// The items of one gizmo in one view: the list when it has list vertices,
/// then the strip when it has at least two strip vertices.
pub open spec fn gizmo_line_items(
    vi: int,
    gi: int,
    mesh_key: Mesh2dPipelineKey,
    view_words: Seq<u64>,
    g: LineGizmoInstance,
) -> Seq<QueuedLineGizmo> {
    if !layers_intersect(g.render_layers.words@, view_words) {
        Seq::empty()
    } else {
        match g.counts {
            None => Seq::empty(),
            Some(c) => {
                (if c.list_vertex_count > 0 {
                    seq![line_item(vi, gi, mesh_key, g, false)]
                } else {
                    Seq::empty()
                }) + (if c.strip_vertex_count >= 2 {
                    seq![line_item(vi, gi, mesh_key, g, true)]
                } else {
                    Seq::empty()
                })
            },
        }
    }
}

/// The joint item of one gizmo in one view: there is one when the gizmo
/// draws joints and its strip has at least three vertices.
pub open spec fn gizmo_joint_items(
    vi: int,
    gi: int,
    mesh_key: Mesh2dPipelineKey,
    view_words: Seq<u64>,
    g: LineGizmoInstance,
) -> Seq<QueuedLineJointGizmo> {
    if !layers_intersect(g.render_layers.words@, view_words) {
        Seq::empty()
    } else {
        match g.counts {
            None => Seq::empty(),
            Some(c) => {
                if c.strip_vertex_count < 3 || g.line_joints is NoJoint {
                    Seq::empty()
                } else {
                    seq![joint_item(vi, gi, mesh_key, g)]
                }
            },
        }
    }
}

/// The line items of the first `n` gizmos in view `vi`.
pub open spec fn view_line_items(
    vi: int,
    v: GizmoView,
    gizmos: Seq<LineGizmoInstance>,
    n: int,
) -> Seq<QueuedLineGizmo>
    decreases n,
{
    if n <= 0 {
        Seq::empty()
    } else {
        view_line_items(vi, v, gizmos, n - 1) + gizmo_line_items(
            vi,
            n - 1,
            view_mesh_key(v),
            view_layer_words(v),
            gizmos[n - 1],
        )
    }
}

/// The joint items of the first `n` gizmos in view `vi`.
pub open spec fn view_joint_items(
    vi: int,
    v: GizmoView,
    gizmos: Seq<LineGizmoInstance>,
    n: int,
) -> Seq<QueuedLineJointGizmo>
    decreases n,
{
    if n <= 0 {
        Seq::empty()
    } else {
        view_joint_items(vi, v, gizmos, n - 1) + gizmo_joint_items(
            vi,
            n - 1,
            view_mesh_key(v),
            view_layer_words(v),
            gizmos[n - 1],
        )
    }
}

/// The line items of all gizmos in the first `m` views.
pub open spec fn queued_line_gizmos(
    views: Seq<GizmoView>,
    gizmos: Seq<LineGizmoInstance>,
    m: int,
) -> Seq<QueuedLineGizmo>
    decreases m,
{
    if m <= 0 {
        Seq::empty()
    } else {
        queued_line_gizmos(views, gizmos, m - 1) + (if views[m - 1].has_phase {
            view_line_items(m - 1, views[m - 1], gizmos, gizmos.len() as int)
        } else {
            Seq::empty()
        })
    }
}

/// The joint items of all gizmos in the first `m` views.
pub open spec fn queued_line_joint_gizmos(
    views: Seq<GizmoView>,
    gizmos: Seq<LineGizmoInstance>,
    m: int,
) -> Seq<QueuedLineJointGizmo>
    decreases m,
{
    if m <= 0 {
        Seq::empty()
    } else {
        queued_line_joint_gizmos(views, gizmos, m - 1) + (if views[m - 1].has_phase {
            view_joint_items(m - 1, views[m - 1], gizmos, gizmos.len() as int)
        } else {
            Seq::empty()
        })
    }
}

/// Gizmo `g` is drawn in view `v` as a list (`strip` false) or a strip: the
/// view has a phase, they share a layer, and the gizmo's buffers hold list
/// vertices, or at least two strip vertices.
pub open spec fn line_gizmo_drawn(g: LineGizmoInstance, v: GizmoView, strip: bool) -> bool {
    &&& v.has_phase
    &&& share_a_layer(g.render_layers.words@, view_layer_words(v))
    &&& match g.counts {
        Some(c) => if strip {
            c.strip_vertex_count >= 2
        } else {
            c.list_vertex_count > 0
        },
        None => false,
    }
}

/// The joints of gizmo `g` are drawn in view `v`: the view has a phase,
/// they share a layer, the gizmo draws joints and its buffers hold at least
/// three strip vertices.
pub open spec fn line_joints_drawn(g: LineGizmoInstance, v: GizmoView) -> bool {
    &&& v.has_phase
    &&& share_a_layer(g.render_layers.words@, view_layer_words(v))
    &&& !(g.line_joints is NoJoint)
    &&& match g.counts {
        Some(c) => c.strip_vertex_count >= 3,
        None => false,
    }
}

/// Line item `a` comes before `b`: by view, then by gizmo, then the list
/// before the strip.
pub open spec fn line_item_before(a: QueuedLineGizmo, b: QueuedLineGizmo) -> bool {
    ||| a.view < b.view
    ||| a.view == b.view && a.gizmo < b.gizmo
    ||| a.view == b.view && a.gizmo == b.gizmo && !a.key.strip && b.key.strip
}

/// Joint item `a` comes before `b`: by view, then by gizmo.
pub open spec fn joint_item_before(a: QueuedLineJointGizmo, b: QueuedLineJointGizmo) -> bool {
    ||| a.view < b.view
    ||| a.view == b.view && a.gizmo < b.gizmo
}

/// What a line queue item says of the inputs: it names a view that has a
/// phase and a gizmo that shares a layer with it and whose buffers hold the
/// vertices its list or strip needs; it carries that gizmo's entity and line
/// style, that view's mesh key, the list or strip draw function as its key
/// says, and the setup of an item drawn alone.
pub open spec fn line_queue_item_ok(
    views: Seq<GizmoView>,
    gizmos: Seq<LineGizmoInstance>,
    item: QueuedLineGizmo,
) -> bool {
    let v = views[item.view as int];
    let g = gizmos[item.gizmo as int];
    &&& item.view < views.len()
    &&& item.gizmo < gizmos.len()
    &&& v.has_phase
    &&& share_a_layer(g.render_layers.words@, view_layer_words(v))
    &&& item.entity == g.entity
    &&& item.key.line_style == g.line_style
    &&& item.key.mesh_key.bits == view_key_bits(msaa_sample_count(v.msaa), v.hdr)
    &&& item.draw_function == (if item.key.strip {
        DrawFunction::LineGizmoStrip
    } else {
        DrawFunction::LineGizmoList
    })
    &&& item.phase_item == (PhaseItemSetup {
        batch_range_start: 0,
        batch_range_end: 1,
        extra_index: ExtraIndex::NoIndex,
        extracted_index: usize::MAX,
        indexed: false,
    })
    &&& match g.counts {
        Some(c) => if item.key.strip {
            c.strip_vertex_count >= 2
        } else {
            c.list_vertex_count > 0
        },
        None => false,
    }
}

/// What a joint queue item says of the inputs: it names a view that has a
/// phase and a gizmo that shares a layer with it, draws joints and has at
/// least three strip vertices; it carries that gizmo's entity and joint
/// kind, that view's mesh key, the joint draw function and the setup of an
/// item drawn alone.
pub open spec fn joint_queue_item_ok(
    views: Seq<GizmoView>,
    gizmos: Seq<LineGizmoInstance>,
    item: QueuedLineJointGizmo,
) -> bool {
    let v = views[item.view as int];
    let g = gizmos[item.gizmo as int];
    &&& item.view < views.len()
    &&& item.gizmo < gizmos.len()
    &&& v.has_phase
    &&& share_a_layer(g.render_layers.words@, view_layer_words(v))
    &&& item.entity == g.entity
    &&& item.key.joints == g.line_joints
    &&& !(g.line_joints is NoJoint)
    &&& item.key.mesh_key.bits == view_key_bits(msaa_sample_count(v.msaa), v.hdr)
    &&& item.draw_function == DrawFunction::LineJointGizmo
    &&& item.phase_item == (PhaseItemSetup {
        batch_range_start: 0,
        batch_range_end: 1,
        extra_index: ExtraIndex::NoIndex,
        extracted_index: usize::MAX,
        indexed: false,
    })
    &&& match g.counts {
        Some(c) => c.strip_vertex_count >= 3,
        None => false,
    }
}

/// The render layers of a view, where a view without layers is on the default ones.
fn view_layers<'a>(view: &'a GizmoView, default_layers: &'a RenderLayers) -> (r: &'a RenderLayers)
    requires
        default_layers.words@ == default_layer_words(),
    ensures
        r.words@ == view_layer_words(*view),
{
    match &view.render_layers {
        Some(layers) => layers,
        None => default_layers,
    }
}

/// Appends the line items of gizmo `gi` in view `vi`.
fn push_gizmo_line_items(
    out: &mut Vec<QueuedLineGizmo>,
    vi: usize,
    gi: usize,
    mesh_key: Mesh2dPipelineKey,
    view_layers: &RenderLayers,
    g: &LineGizmoInstance,
)
    ensures
        final(out)@ == old(out)@ + gizmo_line_items(
            vi as int,
            gi as int,
            mesh_key,
            view_layers.words@,
            *g,
        ),
{
    if !g.render_layers.intersects(view_layers) {
        assert(old(out)@ + Seq::<QueuedLineGizmo>::empty() =~= old(out)@);
        return ;
    }
    match &g.counts {
        None => {
            assert(old(out)@ + Seq::<QueuedLineGizmo>::empty() =~= old(out)@);
        },
        Some(c) => {
            if c.list_vertex_count > 0 {
                out.push(
                    QueuedLineGizmo {
                        view: vi,
                        gizmo: gi,
                        entity: g.entity,
                        draw_function: DrawFunction::LineGizmoList,
                        key: LineGizmoPipelineKey { mesh_key, strip: false, line_style: g.line_style },
                        phase_item: unbatched(),
                    },
                );
            }
            if c.strip_vertex_count >= 2 {
                out.push(
                    QueuedLineGizmo {
                        view: vi,
                        gizmo: gi,
                        entity: g.entity,
                        draw_function: DrawFunction::LineGizmoStrip,
                        key: LineGizmoPipelineKey { mesh_key, strip: true, line_style: g.line_style },
                        phase_item: unbatched(),
                    },
                );
            }
            assert(final(out)@ =~= old(out)@ + gizmo_line_items(
                vi as int,
                gi as int,
                mesh_key,
                view_layers.words@,
                *g,
            ));
        },
    }
}

/// Appends the joint item of gizmo `gi` in view `vi`, if it has one.
fn push_gizmo_joint_items(
    out: &mut Vec<QueuedLineJointGizmo>,
    vi: usize,
    gi: usize,
    mesh_key: Mesh2dPipelineKey,
    view_layers: &RenderLayers,
    g: &LineGizmoInstance,
)
    ensures
        final(out)@ == old(out)@ + gizmo_joint_items(
            vi as int,
            gi as int,
            mesh_key,
            view_layers.words@,
            *g,
        ),
{
    if !g.render_layers.intersects(view_layers) {
        assert(old(out)@ + Seq::<QueuedLineJointGizmo>::empty() =~= old(out)@);
        return ;
    }
    match &g.counts {
        None => {
            assert(old(out)@ + Seq::<QueuedLineJointGizmo>::empty() =~= old(out)@);
        },
        Some(c) => {
            if c.strip_vertex_count < 3 || g.line_joints.is_none() {
                assert(old(out)@ + Seq::<QueuedLineJointGizmo>::empty() =~= old(out)@);
            } else {
                out.push(
                    QueuedLineJointGizmo {
                        view: vi,
                        gizmo: gi,
                        entity: g.entity,
                        draw_function: DrawFunction::LineJointGizmo,
                        key: LineJointGizmoPipelineKey { mesh_key, joints: g.line_joints },
                        phase_item: unbatched(),
                    },
                );
            }
        },
    }
}

/// The line gizmos to draw, view by view and gizmo by gizmo, each with the
/// key of the pipeline that draws it: the list of a gizmo with list
/// vertices, then the strip of a gizmo with at least two strip vertices.
pub fn queue_line_gizmos_2d(views: &Vec<GizmoView>, gizmos: &Vec<LineGizmoInstance>) -> (r: Vec<
    QueuedLineGizmo,
>)
    ensures
        r@ == queued_line_gizmos(views@, gizmos@, views@.len() as int),
        forall|i: int| 0 <= i < r@.len() ==> line_queue_item_ok(views@, gizmos@, #[trigger] r@[i]),
        forall|i: int, j: int|
            0 <= i < j < r@.len() ==> line_item_before(#[trigger] r@[i], #[trigger] r@[j]),
        forall|vi: int, gi: int, strip: bool|
            0 <= vi < views@.len() && 0 <= gi < gizmos@.len() && #[trigger] line_gizmo_drawn(
                gizmos@[gi],
                views@[vi],
                strip,
            ) ==> exists|i: int|
                0 <= i < r@.len() && #[trigger] r@[i].view == vi && r@[i].gizmo == gi
                    && r@[i].key.strip == strip,
{
    let default_layers = RenderLayers::default_layers();
    let mut out: Vec<QueuedLineGizmo> = Vec::new();
    let mut vi: usize = 0;
    while vi < views.len()
        invariant
            vi <= views.len(),
            default_layers.words@ == default_layer_words(),
            out@ == queued_line_gizmos(views@, gizmos@, vi as int),
        decreases views.len() - vi,
    {
        let view = &views[vi];
        let ghost before = out@;
        if view.has_phase {
            let mesh_key = Mesh2dPipelineKey::for_view(view.msaa.samples(), view.hdr);
            let layers = view_layers(view, &default_layers);
            let mut gi: usize = 0;
            while gi < gizmos.len()
                invariant
                    vi < views.len(),
                    gi <= gizmos.len(),
                    *view == views@[vi as int],
                    mesh_key == view_mesh_key(*view),
                    layers.words@ == view_layer_words(*view),
                    out@ == before + view_line_items(vi as int, *view, gizmos@, gi as int),
                decreases gizmos.len() - gi,
            {
                push_gizmo_line_items(&mut out, vi, gi, mesh_key, layers, &gizmos[gi]);
                assert(out@ =~= before + view_line_items(
                    vi as int,
                    *view,
                    gizmos@,
                    gi as int + 1,
                ));
                gi = gi + 1;
            }
        } else {
            assert(out@ =~= before + Seq::<QueuedLineGizmo>::empty());
        }
        vi = vi + 1;
    }
    let gizmo_count: usize = gizmos.len();
    proof {
        assert(gizmos@.len() == gizmo_count);
        assert forall|i: int| 0 <= i < out@.len() implies line_queue_item_ok(
            views@,
            gizmos@,
            #[trigger] out@[i],
        ) by {
            lemma_line_queue_items_follow_inputs(views@, gizmos@, i);
        }
        lemma_line_queue_ordered(views@, gizmos@);
        lemma_line_queue_complete(views@, gizmos@);
    }
    out
}

/// The joints to draw, view by view and gizmo by gizmo: one item for each
/// gizmo that draws joints and whose strip has at least three vertices.
pub fn queue_line_joint_gizmos_2d(
    views: &Vec<GizmoView>,
    gizmos: &Vec<LineGizmoInstance>,
) -> (r: Vec<QueuedLineJointGizmo>)
    ensures
        r@ == queued_line_joint_gizmos(views@, gizmos@, views@.len() as int),
        forall|i: int| 0 <= i < r@.len() ==> joint_queue_item_ok(views@, gizmos@, #[trigger] r@[i]),
        forall|i: int, j: int|
            0 <= i < j < r@.len() ==> joint_item_before(#[trigger] r@[i], #[trigger] r@[j]),
        forall|vi: int, gi: int|
            0 <= vi < views@.len() && 0 <= gi < gizmos@.len() && #[trigger] line_joints_drawn(
                gizmos@[gi],
                views@[vi],
            ) ==> exists|i: int|
                0 <= i < r@.len() && #[trigger] r@[i].view == vi && r@[i].gizmo == gi,
{
    let default_layers = RenderLayers::default_layers();
    let mut out: Vec<QueuedLineJointGizmo> = Vec::new();
    let mut vi: usize = 0;
    while vi < views.len()
        invariant
            vi <= views.len(),
            default_layers.words@ == default_layer_words(),
            out@ == queued_line_joint_gizmos(views@, gizmos@, vi as int),
        decreases views.len() - vi,
    {
        let view = &views[vi];
        let ghost before = out@;
        if view.has_phase {
            let mesh_key = Mesh2dPipelineKey::for_view(view.msaa.samples(), view.hdr);
            let layers = view_layers(view, &default_layers);
            let mut gi: usize = 0;
            while gi < gizmos.len()
                invariant
                    vi < views.len(),
                    gi <= gizmos.len(),
                    *view == views@[vi as int],
                    mesh_key == view_mesh_key(*view),
                    layers.words@ == view_layer_words(*view),
                    out@ == before + view_joint_items(vi as int, *view, gizmos@, gi as int),
                decreases gizmos.len() - gi,
            {
                push_gizmo_joint_items(&mut out, vi, gi, mesh_key, layers, &gizmos[gi]);
                assert(out@ =~= before + view_joint_items(
                    vi as int,
                    *view,
                    gizmos@,
                    gi as int + 1,
                ));
                gi = gi + 1;
            }
        } else {
            assert(out@ =~= before + Seq::<QueuedLineJointGizmo>::empty());
        }
        vi = vi + 1;
    }
    let gizmo_count: usize = gizmos.len();
    proof {
        assert(gizmos@.len() == gizmo_count);
        assert forall|i: int| 0 <= i < out@.len() implies joint_queue_item_ok(
            views@,
            gizmos@,
            #[trigger] out@[i],
        ) by {
            lemma_joint_queue_items_follow_inputs(views@, gizmos@, i);
        }
        lemma_joint_queue_ordered(views@, gizmos@);
        lemma_joint_queue_complete(views@, gizmos@);
    }
    out
}

} // verus!
