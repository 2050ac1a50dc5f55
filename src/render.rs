//! The render pass: the scene tree becomes an ordered list of draw calls, with
//! every vertex already placed in world coordinates.
//!
//! The pass is layer-major: all `Layer::Five` shapes of the whole tree come
//! first, then `Four`, and so on to `One`, which is drawn last and so on top.
//! Within a layer the tree is walked level by level under each node: a node's
//! siblings' own shapes come before the shapes of any of their children.
use vstd::prelude::*;
use crate::component::{
    draw_rank, lemma_node_models, node_model, node_models, Layer, Node, NodeModel, Renderable,
};
use crate::transform::{apply, compose, identity, Transform};
use crate::vertex2::Vertex2;

verus! {

/// A polygon to draw: its vertices in world coordinates, in winding order, and
/// the style that paints it.
pub struct DrawCall<P> {
    pub vertices: Vec<Vertex2<i32>>,
    pub style: P,
    pub layer: Layer,
}

/// A draw call as a mathematical value.
pub struct DrawModel<P> {
    pub vertices: Seq<Vertex2<i32>>,
    pub style: P,
    pub layer: Layer,
}

pub open spec fn draw_model<P>(d: DrawCall<P>) -> DrawModel<P> {
    DrawModel { vertices: d.vertices@, style: d.style, layer: d.layer }
}

pub open spec fn draw_models<P>(s: Seq<DrawCall<P>>) -> Seq<DrawModel<P>> {
    s.map_values(|d: DrawCall<P>| draw_model(d))
}

/// The vertices `vs`, each placed by `t`.
pub open spec fn placed(vs: Seq<Vertex2<i32>>, t: Transform) -> Seq<Vertex2<i32>> {
    vs.map_values(|v: Vertex2<i32>| apply(v, t))
}

/// The draw call for `r`, whose component has the absolute transform `absolute`.
pub open spec fn draw_of<P>(r: Renderable<P>, absolute: Transform) -> DrawModel<P> {
    DrawModel {
        vertices: placed(r.vertices@, compose(absolute, r.transform)),
        style: r.style,
        layer: r.layer,
    }
}

/// The draw calls for those of `rs` that are on `layer`, in order.
pub open spec fn own_draws<P>(rs: Seq<Renderable<P>>, layer: Layer, absolute: Transform) -> Seq<
    DrawModel<P>,
>
    decreases rs.len(),
{
    if rs.len() == 0 {
        Seq::empty()
    } else {
        let before = own_draws(rs.drop_last(), layer, absolute);
        if rs.last().layer == layer {
            before.push(draw_of(rs.last(), absolute))
        } else {
            before
        }
    }
}

/// The draw calls on `layer` of the nodes `ns` themselves, node after node.
pub open spec fn level_draws<C, P>(
    ns: Seq<NodeModel<C, P>>,
    layer: Layer,
    absolute_parent: Transform,
) -> Seq<DrawModel<P>>
    decreases ns.len(),
{
    if ns.len() == 0 {
        Seq::empty()
    } else {
        let n = ns.last();
        level_draws(ns.drop_last(), layer, absolute_parent) + own_draws(
            n.renderables,
            layer,
            compose(absolute_parent, n.transform),
        )
    }
}

/// The draw calls on `layer` below the nodes `ns`: for each node in turn, those
/// of its subtree.
pub open spec fn deeper_draws<C, P>(
    ns: Seq<NodeModel<C, P>>,
    layer: Layer,
    absolute_parent: Transform,
) -> Seq<DrawModel<P>>
    decreases ns,
{
    if ns.len() == 0 {
        Seq::empty()
    } else {
        let n = ns.last();
        let own = compose(absolute_parent, n.transform);
        deeper_draws(ns.drop_last(), layer, absolute_parent) + level_draws(n.children, layer, own)
            + deeper_draws(n.children, layer, own)
    }
}

/// The draw calls on `layer` of the forest `ns`: the nodes' own, then those below.
pub open spec fn layer_draws<C, P>(
    ns: Seq<NodeModel<C, P>>,
    layer: Layer,
    absolute_parent: Transform,
) -> Seq<DrawModel<P>> {
    level_draws(ns, layer, absolute_parent) + deeper_draws(ns, layer, absolute_parent)
}

/// All the draw calls of a frame: layer `Five` first, layer `One` last.
pub open spec fn frame_draws<C, P>(ns: Seq<NodeModel<C, P>>) -> Seq<DrawModel<P>> {
    layer_draws(ns, Layer::Five, identity()) + layer_draws(ns, Layer::Four, identity())
        + layer_draws(ns, Layer::Three, identity()) + layer_draws(ns, Layer::Two, identity())
        + layer_draws(ns, Layer::One, identity())
}

/// Every draw call of `s` is on `layer`.
pub open spec fn all_on<P>(s: Seq<DrawModel<P>>, layer: Layer) -> bool {
    forall|k: int| 0 <= k < s.len() ==> (#[trigger] s[k]).layer == layer
}

/// The draw calls of `s` come in drawing order of their layers.
pub open spec fn layer_ordered<P>(s: Seq<DrawModel<P>>) -> bool {
    forall|i: int, j: int|
        0 <= i < j < s.len() ==> draw_rank(#[trigger] s[i].layer) <= draw_rank(#[trigger] s[j].layer)
}

proof fn lemma_own_on<P>(rs: Seq<Renderable<P>>, layer: Layer, absolute: Transform)
    ensures
        all_on(own_draws(rs, layer, absolute), layer),
    decreases rs.len(),
{
    if rs.len() > 0 {
        lemma_own_on(rs.drop_last(), layer, absolute);
    }
}

proof fn lemma_level_on<C, P>(ns: Seq<NodeModel<C, P>>, layer: Layer, absolute_parent: Transform)
    ensures
        all_on(level_draws(ns, layer, absolute_parent), layer),
    decreases ns.len(),
{
    if ns.len() > 0 {
        let n = ns.last();
        lemma_level_on(ns.drop_last(), layer, absolute_parent);
        lemma_own_on(n.renderables, layer, compose(absolute_parent, n.transform));
    }
}

proof fn lemma_deeper_on<C, P>(ns: Seq<NodeModel<C, P>>, layer: Layer, absolute_parent: Transform)
    ensures
        all_on(deeper_draws(ns, layer, absolute_parent), layer),
    decreases ns,
{
    if ns.len() > 0 {
        let n = ns.last();
        let own = compose(absolute_parent, n.transform);
        lemma_deeper_on(ns.drop_last(), layer, absolute_parent);
        lemma_level_on(n.children, layer, own);
        lemma_deeper_on(n.children, layer, own);
    }
}

/// Every draw call that the pass makes for a layer is on that layer.
pub proof fn lemma_layer_on<C, P>(ns: Seq<NodeModel<C, P>>, layer: Layer, absolute_parent: Transform)
    ensures
        all_on(layer_draws(ns, layer, absolute_parent), layer),
{
    lemma_level_on(ns, layer, absolute_parent);
    lemma_deeper_on(ns, layer, absolute_parent);
}

/// Layer ordering holds whatever the shape of the tree: every draw call on a
/// layer that is drawn earlier (say `Five`) comes before every draw call on a
/// layer drawn later (say `One`), wherever in the tree the two shapes hang.
pub proof fn lemma_frame_layer_ordered<C, P>(ns: Seq<NodeModel<C, P>>)
    ensures
        layer_ordered(frame_draws(ns)),
{
    let a = layer_draws(ns, Layer::Five, identity());
    let b = layer_draws(ns, Layer::Four, identity());
    let c = layer_draws(ns, Layer::Three, identity());
    let d = layer_draws(ns, Layer::Two, identity());
    let e = layer_draws(ns, Layer::One, identity());
    lemma_layer_on(ns, Layer::Five, identity());
    lemma_layer_on(ns, Layer::Four, identity());
    lemma_layer_on(ns, Layer::Three, identity());
    lemma_layer_on(ns, Layer::Two, identity());
    lemma_layer_on(ns, Layer::One, identity());
    let s = frame_draws(ns);
    assert forall|i: int, j: int| 0 <= i < j < s.len() implies draw_rank(#[trigger] s[i].layer)
        <= draw_rank(#[trigger] s[j].layer) by {
        let la = a.len() as int;
        let lb = la + b.len();
        let lc = lb + c.len();
        let ld = lc + d.len();
        assert(s == a + b + c + d + e);
        let rank_at = |k: int|
            if k < la {
                0nat
            } else if k < lb {
                1nat
            } else if k < lc {
                2nat
            } else if k < ld {
                3nat
            } else {
                4nat
            };
        assert(draw_rank(s[i].layer) == rank_at(i)) by {
            if i < la {
                assert(s[i] == a[i]);
            } else if i < lb {
                assert(s[i] == b[i - la]);
            } else if i < lc {
                assert(s[i] == c[i - lb]);
            } else if i < ld {
                assert(s[i] == d[i - lc]);
            } else {
                assert(s[i] == e[i - ld]);
            }
        }
        assert(draw_rank(s[j].layer) == rank_at(j)) by {
            if j < la {
                assert(s[j] == a[j]);
            } else if j < lb {
                assert(s[j] == b[j - la]);
            } else if j < lc {
                assert(s[j] == c[j - lb]);
            } else if j < ld {
                assert(s[j] == d[j - lc]);
            } else {
                assert(s[j] == e[j - ld]);
            }
        }
    }
}

/// The draw call for `r`, whose component has the absolute transform `absolute`.
pub fn place<P: Copy>(r: &Renderable<P>, absolute: &Transform) -> (d: DrawCall<P>)
    ensures
        draw_model(d) == draw_of(*r, *absolute),
{
    let t = Transform::compose(absolute, &r.transform);
    let mut vertices: Vec<Vertex2<i32>> = Vec::new();
    let mut i: usize = 0;
    while i < r.vertices.len()
        invariant
            i <= r.vertices@.len(),
            t == compose(*absolute, r.transform),
            vertices@ =~= placed(r.vertices@.take(i as int), t),
        decreases r.vertices@.len() - i,
    {
        vertices.push(t.apply(r.vertices[i]));
        i = i + 1;
        assert(r.vertices@.take(i as int).drop_last() =~= r.vertices@.take(i - 1));
    }
    assert(r.vertices@.take(i as int) =~= r.vertices@);
    DrawCall { vertices, style: r.style, layer: r.layer }
}

proof fn lemma_draw_models_push<P>(s: Seq<DrawCall<P>>, d: DrawCall<P>)
    ensures
        draw_models(s.push(d)) == draw_models(s).push(draw_model(d)),
{
    assert(draw_models(s.push(d)) =~= draw_models(s).push(draw_model(d)));
}

/// Appends to `out` the draw calls on `layer` of the renderables `rs`, whose
/// component has the absolute transform `absolute`.
fn push_own_draws<P: Copy>(
    rs: &Vec<Renderable<P>>,
    layer: Layer,
    absolute: &Transform,
    out: &mut Vec<DrawCall<P>>,
)
    ensures
        draw_models(final(out)@) == draw_models(old(out)@) + own_draws(rs@, layer, *absolute),
{
    let mut i: usize = 0;
    while i < rs.len()
        invariant
            i <= rs@.len(),
            draw_models(out@) == draw_models(old(out)@) + own_draws(
                rs@.take(i as int),
                layer,
                *absolute,
            ),
        decreases rs@.len() - i,
    {
        let ghost before = out@;
        assert(rs@.take(i + 1).drop_last() =~= rs@.take(i as int));
        if rs[i].layer == layer {
            let d = place(&rs[i], absolute);
            out.push(d);
            proof {
                lemma_draw_models_push(before, d);
            }
        }
        i = i + 1;
    }
    assert(rs@.take(i as int) =~= rs@);
}

/// Appends to `out` the draw calls on `layer` of the forest `nodes`, whose
/// parent has the absolute transform `absolute_parent`: first the shapes of the
/// nodes themselves, then, node after node, those of their subtrees.
pub fn render_components<C, P: Copy>(
    nodes: &Vec<Node<C, P>>,
    layer: Layer,
    absolute_parent: &Transform,
    out: &mut Vec<DrawCall<P>>,
)
    ensures
        draw_models(final(out)@) == draw_models(old(out)@) + layer_draws(
            node_models(nodes@),
            layer,
            *absolute_parent,
        ),
    decreases nodes,
{
    let ghost ns = node_models(nodes@);
    proof {
        lemma_node_models(nodes@);
    }
    let mut i: usize = 0;
    while i < nodes.len()
        invariant
            i <= nodes@.len(),
            ns == node_models(nodes@),
            ns.len() == nodes@.len(),
            forall|j: int| 0 <= j < nodes@.len() ==> #[trigger] ns[j] == node_model(nodes@[j]),
            draw_models(out@) == draw_models(old(out)@) + level_draws(
                ns.take(i as int),
                layer,
                *absolute_parent,
            ),
        decreases nodes@.len() - i,
    {
        let own = Transform::compose(absolute_parent, &nodes[i].transform);
        push_own_draws(&nodes[i].renderables, layer, &own, out);
        assert(ns.take(i + 1).drop_last() =~= ns.take(i as int));
        i = i + 1;
    }
    assert(ns.take(i as int) =~= ns);
    let ghost after_level = out@;
    let mut i: usize = 0;
    while i < nodes.len()
        invariant
            i <= nodes@.len(),
            ns == node_models(nodes@),
            ns.len() == nodes@.len(),
            forall|j: int| 0 <= j < nodes@.len() ==> #[trigger] ns[j] == node_model(nodes@[j]),
            draw_models(out@) == draw_models(after_level) + deeper_draws(
                ns.take(i as int),
                layer,
                *absolute_parent,
            ),
        decreases nodes@.len() - i,
    {
        let own = Transform::compose(absolute_parent, &nodes[i].transform);
        let ghost before = out@;
        render_components(&nodes[i].children, layer, &own, out);
        assert(ns.take(i + 1).drop_last() =~= ns.take(i as int));
        assert(ns[i as int].children == node_models(nodes@[i as int].children@));
        i = i + 1;
    }
    assert(ns.take(i as int) =~= ns);
}

/// All the draw calls of a frame, layer `Five` first and layer `One` last, in
/// world coordinates.
pub fn render_layers<C, P: Copy>(nodes: &Vec<Node<C, P>>) -> (r: Vec<DrawCall<P>>)
    ensures
        draw_models(r@) == frame_draws(node_models(nodes@)),
        layer_ordered(draw_models(r@)),
{
    let mut out: Vec<DrawCall<P>> = Vec::new();
    let root = Transform::default();
    render_components(nodes, Layer::Five, &root, &mut out);
    render_components(nodes, Layer::Four, &root, &mut out);
    render_components(nodes, Layer::Three, &root, &mut out);
    render_components(nodes, Layer::Two, &root, &mut out);
    render_components(nodes, Layer::One, &root, &mut out);
    proof {
        assert(draw_models(Seq::<DrawCall<P>>::empty()) =~= Seq::<DrawModel<P>>::empty());
        assert(draw_models(out@) =~= frame_draws(node_models(nodes@)));
        lemma_frame_layer_ordered(node_models(nodes@));
    }
    out
}

} // verus!
