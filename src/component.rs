//! The scene tree: nodes with a transform, shapes to draw, children, and the
//! behaviour of a component.
use vstd::prelude::*;
use crate::input::Input;
use crate::transform::Transform;
use crate::vertex2::Vertex2;

verus! {

/// The priority of a [`Renderable`]. A lower layer is drawn later, on top: a
/// `Layer::One` shape always appears above a `Layer::Two` shape.
#[derive(Debug, Clone, Copy, PartialEq, Eq, Structural)]
pub enum Layer {
    One,
    Two,
    Three,
    Four,
    Five,
}

/// The place of a layer in the drawing order: `Five` is drawn first, `One` last.
pub open spec fn draw_rank(l: Layer) -> nat {
    match l {
        Layer::Five => 0,
        Layer::Four => 1,
        Layer::Three => 2,
        Layer::Two => 3,
        Layer::One => 4,
    }
}

/// A shape to draw: a closed polygon through `vertices`, placed by `transform`
/// relative to its component, painted by `style`, at priority `layer`.
pub struct Renderable<P> {
    pub transform: Transform,
    pub vertices: Vec<Vertex2<i32>>,
    pub style: P,
    pub layer: Layer,
}

/// A node of the scene tree. `state` is what the component keeps for itself;
/// the tree owns the node's children.
pub struct Node<C, P> {
    pub state: C,
    pub transform: Transform,
    pub renderables: Vec<Renderable<P>>,
    pub children: Vec<Node<C, P>>,
}

/// A node as a mathematical value, its children included.
pub struct NodeModel<C, P> {
    pub state: C,
    pub transform: Transform,
    pub renderables: Seq<Renderable<P>>,
    pub children: Seq<NodeModel<C, P>>,
}

/// The model of a node and of all the nodes below it.
pub open spec fn node_model<C, P>(n: Node<C, P>) -> NodeModel<C, P>
    decreases n,
{
    NodeModel {
        state: n.state,
        transform: n.transform,
        renderables: n.renderables@,
        children: node_models(n.children@),
    }
}

/// The models of a sequence of nodes, in order.
pub open spec fn node_models<C, P>(s: Seq<Node<C, P>>) -> Seq<NodeModel<C, P>>
    decreases s,
{
    if s.len() == 0 {
        Seq::empty()
    } else {
        node_models(s.drop_last()).push(node_model(s.last()))
    }
}

/// The models of a sequence of nodes are the models of its nodes.
pub proof fn lemma_node_models<C, P>(s: Seq<Node<C, P>>)
    ensures
        node_models(s).len() == s.len(),
        forall|j: int| 0 <= j < s.len() ==> #[trigger] node_models(s)[j] == node_model(s[j]),
    decreases s.len(),
{
    if s.len() > 0 {
        lemma_node_models(s.drop_last());
    }
}

/// What a component can read while it updates: the input of the frame, the
/// absolute transform of its parent, and the time since the previous frame.
pub struct Context<'a> {
    pub input: &'a Input,
    pub absolute_parent: Transform,
    pub delta_millis: u32,
}

impl<'a> Context<'a> {
    pub fn new(input: &'a Input, absolute_parent: Transform, delta_millis: u32) -> (r: Self)
        ensures
            r.input == input,
            r.absolute_parent == absolute_parent,
            r.delta_millis == delta_millis,
    {
        Context { input, absolute_parent, delta_millis }
    }

    /// The number of milliseconds since the previous frame. Movement over time is
    /// multiplied by it, so that speed does not depend on the frame rate.
    pub fn delta_millis(&self) -> (r: u32)
        ensures
            r == self.delta_millis,
    {
        self.delta_millis
    }
}

/// The behaviour of a component. `update` runs once per frame on the
/// component's node, after every node below it has been updated, so a parent
/// has the last word on its children's state in that frame.
pub trait Component<P>: Sized {
    /// The node that `update` makes of `node` when the input is `input`, the
    /// parent's absolute transform is `absolute_parent` and `delta_millis`
    /// milliseconds have passed. A component whose update changes its node
    /// states here what it makes of it; left as it is, this says that the
    /// update changes nothing.
    open spec fn updated(
        node: NodeModel<Self, P>,
        input: Input,
        absolute_parent: Transform,
        delta_millis: u32,
    ) -> NodeModel<Self, P> {
        node
    }

    /// Advances the component by one frame.
    fn update(node: &mut Node<Self, P>, ctx: &Context)
        ensures
            node_model(*final(node)) == Self::updated(
                node_model(*old(node)),
                *ctx.input,
                ctx.absolute_parent,
                ctx.delta_millis,
            ),
    ;
}

} // verus!
