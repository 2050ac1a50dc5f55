//! One frame of the scene: the update pass over the tree and the render pass
//! that turns the tree into draw calls.
use vstd::prelude::*;
use crate::component::{lemma_node_models, node_model, node_models, Component, Context, Node, NodeModel};
use crate::error::Error;
use crate::input::Input;
use crate::key_state_map::{next_state, KeyState};
use crate::keyboard::{self, button_of_code, unsupported_key_message};
use crate::mouse::{self, button_of_number, unsupported_button_message};
use crate::render::{draw_models, frame_draws, layer_ordered, render_layers, DrawCall};
use crate::scene::{applied, ids_of, Scene, SceneError};
use crate::transform::{compose, identity, Transform};
use crate::vertex2::Vertex2;

verus! {

/// The node that the update pass makes of `n`: first every child, each with the
/// absolute transform of `n` as its parent's, then `n` itself.
pub open spec fn updated_tree<C: Component<P>, P>(
    n: NodeModel<C, P>,
    input: Input,
    absolute_parent: Transform,
    delta_millis: u32,
) -> NodeModel<C, P>
    decreases n,
{
    let own = compose(absolute_parent, n.transform);
    let with_children = NodeModel {
        state: n.state,
        transform: n.transform,
        renderables: n.renderables,
        children: updated_trees(n.children, input, own, delta_millis),
    };
    C::updated(with_children, input, absolute_parent, delta_millis)
}

/// The update pass on each node of `s`, in order.
pub open spec fn updated_trees<C: Component<P>, P>(
    s: Seq<NodeModel<C, P>>,
    input: Input,
    absolute_parent: Transform,
    delta_millis: u32,
) -> Seq<NodeModel<C, P>>
    decreases s,
{
    if s.len() == 0 {
        Seq::empty()
    } else {
        updated_trees(s.drop_last(), input, absolute_parent, delta_millis).push(
            updated_tree(s.last(), input, absolute_parent, delta_millis),
        )
    }
}

/// The update pass keeps the number of nodes and updates each on its own.
pub proof fn lemma_updated_trees<C: Component<P>, P>(
    s: Seq<NodeModel<C, P>>,
    input: Input,
    absolute_parent: Transform,
    delta_millis: u32,
)
    ensures
        updated_trees(s, input, absolute_parent, delta_millis).len() == s.len(),
        forall|j: int| 0 <= j < s.len() ==> #[trigger] updated_trees(s, input, absolute_parent, delta_millis)[j]
            == updated_tree(s[j], input, absolute_parent, delta_millis),
    decreases s.len(),
{
    if s.len() > 0 {
        lemma_updated_trees(s.drop_last(), input, absolute_parent, delta_millis);
    }
}

/// Runs the update pass on `node` and the nodes below it.
fn update_node<C: Component<P>, P>(
    node: &mut Node<C, P>,
    input: &Input,
    absolute_parent: Transform,
    delta_millis: u32,
)
    ensures
        node_model(*final(node)) == updated_tree(
            node_model(*old(node)),
            *input,
            absolute_parent,
            delta_millis,
        ),
    decreases *old(node), 1nat,
{
    let own = Transform::compose(&absolute_parent, &node.transform);
    update_components(&mut node.children, input, own, delta_millis);
    let ctx = Context::new(input, absolute_parent, delta_millis);
    C::update(node, &ctx);
}

/// Runs the update pass on each node of `nodes`, in order, given the absolute
/// transform of their parent. Below each node, every child is updated before
/// its parent. An update reaches only its own node and what hangs below it, so
/// finishing one sibling's subtree before starting the next gives the same
/// result as any other order that keeps children before parents.
pub fn update_components<C: Component<P>, P>(
    nodes: &mut Vec<Node<C, P>>,
    input: &Input,
    absolute_parent: Transform,
    delta_millis: u32,
)
    ensures
        node_models(final(nodes)@) == updated_trees(
            node_models(old(nodes)@),
            *input,
            absolute_parent,
            delta_millis,
        ),
    decreases *old(nodes), 0nat,
{
    let ghost start = nodes@;
    let mut i: usize = 0;
    while i < nodes.len()
        invariant
            start == old(nodes)@,
            nodes@.len() == start.len(),
            i <= start.len(),
            forall|j: int| 0 <= j < i ==> node_model(#[trigger] nodes@[j]) == updated_tree(
                node_model(start[j]),
                *input,
                absolute_parent,
                delta_millis,
            ),
            forall|j: int| i <= j < start.len() ==> #[trigger] nodes@[j] == start[j],
        decreases start.len() - i,
    {
        update_node(&mut nodes[i], input, absolute_parent, delta_millis);
        i = i + 1;
    }
    proof {
        lemma_node_models(start);
        lemma_node_models(nodes@);
        lemma_updated_trees(node_models(start), *input, absolute_parent, delta_millis);
        assert(node_models(nodes@) =~= updated_trees(
            node_models(start),
            *input,
            absolute_parent,
            delta_millis,
        ));
    }
}

/// A parent has the last word on its subtree: the update pass runs the
/// component's own update on the node whose children have already gone through
/// the whole pass, so whatever the parent's update makes of its children (a
/// position clamped into bounds, say) is what the frame ends with.
pub proof fn lemma_children_before_parent<C: Component<P>, P>(
    n: NodeModel<C, P>,
    input: Input,
    absolute_parent: Transform,
    delta_millis: u32,
)
    ensures
        ({
            let own = compose(absolute_parent, n.transform);
            let children_done = NodeModel {
                state: n.state,
                transform: n.transform,
                renderables: n.renderables,
                children: updated_trees(n.children, input, own, delta_millis),
            };
            updated_tree(n, input, absolute_parent, delta_millis) == C::updated(
                children_done,
                input,
                absolute_parent,
                delta_millis,
            )
        }),
        forall|j: int|
            0 <= j < n.children.len() ==> #[trigger] updated_trees(
                n.children,
                input,
                compose(absolute_parent, n.transform),
                delta_millis,
            )[j] == updated_tree(
                n.children[j],
                input,
                compose(absolute_parent, n.transform),
                delta_millis,
            ),
{
    lemma_updated_trees(n.children, input, compose(absolute_parent, n.transform), delta_millis);
}

/// Whatever a parent's update establishes holds when the pass is over: if every
/// node that the component's update returns for the parent's state satisfies
/// `holds` (for instance, all children's positions clamped into the parent's
/// bounds), then the node that the update pass leaves satisfies it too, however
/// the children's own updates moved them.
pub proof fn lemma_parent_has_last_word<C: Component<P>, P>(
    n: NodeModel<C, P>,
    input: Input,
    absolute_parent: Transform,
    delta_millis: u32,
    holds: spec_fn(NodeModel<C, P>) -> bool,
)
    requires
        forall|m: NodeModel<C, P>|
            m.state == n.state ==> #[trigger] holds(
                C::updated(m, input, absolute_parent, delta_millis),
            ),
    ensures
        holds(updated_tree(n, input, absolute_parent, delta_millis)),
{
    let own = compose(absolute_parent, n.transform);
    let children_done = NodeModel {
        state: n.state,
        transform: n.transform,
        renderables: n.renderables,
        children: updated_trees(n.children, input, own, delta_millis),
    };
    assert(holds(C::updated(children_done, input, absolute_parent, delta_millis)));
}

/// The milliseconds from `last` to `now`: none when the clock did not move
/// forward, and at most `u32::MAX`.
pub open spec fn delta_between(last: u64, now: u64) -> u32 {
    if now <= last {
        0
    } else if now - last > u32::MAX {
        u32::MAX
    } else {
        (now - last) as u32
    }
}

/// The milliseconds from the previous frame's timestamp `last` to `now`.
pub fn frame_delta(last: u64, now: u64) -> (r: u32)
    ensures
        r == delta_between(last, now),
{
    if now <= last {
        0
    } else if now - last > u32::MAX as u64 {
        u32::MAX
    } else {
        (now - last) as u32
    }
}

/// The components of a scene, without their identifiers.
pub open spec fn items_of<T>(s: Seq<(u64, T)>) -> Seq<T> {
    s.map_values(|p: (u64, T)| p.1)
}

/// The frame driver: the scene, the input state, and the time of the previous
/// frame. The host calls `frame` once per display refresh and draws what it
/// returns, and hands input events over as they come.
pub struct Engine<C, P> {
    scene: Scene<Node<C, P>>,
    input: Input,
    last_millis: u64,
}

impl<C: Component<P>, P: Copy> Engine<C, P> {
    pub closed spec fn spec_scene(&self) -> Scene<Node<C, P>> {
        self.scene
    }

    pub closed spec fn spec_input(&self) -> Input {
        self.input
    }

    pub closed spec fn spec_last_millis(&self) -> u64 {
        self.last_millis
    }

    pub open spec fn wf(&self) -> bool {
        self.spec_scene().wf() && self.spec_input().wf()
    }

    /// An engine with no component and no input yet, whose clock starts at `now_millis`.
    pub fn new(now_millis: u64) -> (r: Self)
        ensures
            r.wf(),
            r.spec_scene().live() == Seq::<(u64, Node<C, P>)>::empty(),
            r.spec_scene().pending_adds() == Seq::<(u64, Node<C, P>)>::empty(),
            r.spec_last_millis() == now_millis,
            forall|b: mouse::Button| #[trigger] r.spec_input().mouse.spec_state(b) == KeyState::Up,
            forall|k: keyboard::Button| #[trigger] r.spec_input().keyboard.spec_state(k) == KeyState::Up,
    {
        Engine { scene: Scene::new(), input: Input::new(), last_millis: now_millis }
    }

    /// The input state that components read in the current frame.
    pub fn input(&self) -> (r: &Input)
        ensures
            *r == self.spec_input(),
    {
        &self.input
    }

    /// The live components, in order.
    pub fn components(&self) -> (r: &Vec<Node<C, P>>)
        ensures
            r@ == self.spec_scene().spec_items(),
    {
        self.scene.components()
    }

    /// Asks for `node` to join the scene under `id` before the next frame.
    pub fn request_add(&mut self, id: u64, node: Node<C, P>) -> (r: Result<(), SceneError>)
        requires
            old(self).wf(),
        ensures
            final(self).wf(),
            final(self).spec_input() == old(self).spec_input(),
            final(self).spec_last_millis() == old(self).spec_last_millis(),
            final(self).spec_scene().live() == old(self).spec_scene().live(),
            final(self).spec_scene().pending_removes() == old(self).spec_scene().pending_removes(),
            ids_of(old(self).spec_scene().pending_adds()).contains(id) ==> r == Err::<(), SceneError>(
                SceneError::AlreadyPendingAdd(id),
            ) && final(self).spec_scene().pending_adds() == old(self).spec_scene().pending_adds(),
            !ids_of(old(self).spec_scene().pending_adds()).contains(id) ==> r is Ok
                && final(self).spec_scene().pending_adds() == old(self).spec_scene().pending_adds().push(
                (id, node),
            ),
    {
        self.scene.request_add(id, node)
    }

    /// Asks for the component under `id` to leave the scene before the next frame.
    pub fn request_remove(&mut self, id: u64) -> (r: Result<(), SceneError>)
        requires
            old(self).wf(),
        ensures
            final(self).wf(),
            final(self).spec_input() == old(self).spec_input(),
            final(self).spec_last_millis() == old(self).spec_last_millis(),
            final(self).spec_scene().live() == old(self).spec_scene().live(),
            final(self).spec_scene().pending_adds() == old(self).spec_scene().pending_adds(),
            !ids_of(old(self).spec_scene().live()).contains(id) ==> r == Err::<(), SceneError>(
                SceneError::NotPresent(id),
            ) && final(self).spec_scene().pending_removes() == old(self).spec_scene().pending_removes(),
            ids_of(old(self).spec_scene().live()).contains(id) ==> r is Ok && (forall|x: u64|
                #[trigger] final(self).spec_scene().pending_removes().contains(x) <==> x == id
                    || old(self).spec_scene().pending_removes().contains(x)),
    {
        self.scene.request_remove(id)
    }

    /// A key went down; `key_code` is the browser's code for the key. A code that
    /// names no key changes nothing and is reported.
    pub fn key_down(&mut self, key_code: &str) -> (r: Result<(), Error>)
        requires
            old(self).wf(),
        ensures
            final(self).wf(),
            final(self).spec_scene() == old(self).spec_scene(),
            final(self).spec_last_millis() == old(self).spec_last_millis(),
            final(self).spec_input().mouse == old(self).spec_input().mouse,
            match button_of_code(key_code@) {
                Some(b) => r is Ok && forall|k: keyboard::Button| #[trigger] final(self).spec_input().keyboard.spec_state(k)
                    == if k == b { KeyState::Pressed } else { old(self).spec_input().keyboard.spec_state(k) },
                None => r is Err && r->Err_0.spec_message() == unsupported_key_message(key_code@)
                    && final(self).spec_input() == old(self).spec_input(),
            },
    {
        self.input.keyboard.key_down(key_code)
    }

    /// A key came up; `key_code` is the browser's code for the key. A code that
    /// names no key changes nothing and is reported.
    pub fn key_up(&mut self, key_code: &str) -> (r: Result<(), Error>)
        requires
            old(self).wf(),
        ensures
            final(self).wf(),
            final(self).spec_scene() == old(self).spec_scene(),
            final(self).spec_last_millis() == old(self).spec_last_millis(),
            final(self).spec_input().mouse == old(self).spec_input().mouse,
            match button_of_code(key_code@) {
                Some(b) => r is Ok && forall|k: keyboard::Button| #[trigger] final(self).spec_input().keyboard.spec_state(k)
                    == if k == b { KeyState::Released } else { old(self).spec_input().keyboard.spec_state(k) },
                None => r is Err && r->Err_0.spec_message() == unsupported_key_message(key_code@)
                    && final(self).spec_input() == old(self).spec_input(),
            },
    {
        self.input.keyboard.key_up(key_code)
    }

    /// A mouse button went down; `button` is the browser's number for it. A number
    /// that names no button changes nothing and is reported.
    pub fn mouse_down(&mut self, button: i16) -> (r: Result<(), Error>)
        requires
            old(self).wf(),
        ensures
            final(self).wf(),
            final(self).spec_scene() == old(self).spec_scene(),
            final(self).spec_last_millis() == old(self).spec_last_millis(),
            final(self).spec_input().keyboard == old(self).spec_input().keyboard,
            match button_of_number(button) {
                Some(b) => r is Ok && final(self).spec_input().mouse.spec_position()
                    == old(self).spec_input().mouse.spec_position()
                    && forall|x: mouse::Button| #[trigger] final(self).spec_input().mouse.spec_state(x)
                    == if x == b { KeyState::Pressed } else { old(self).spec_input().mouse.spec_state(x) },
                None => r is Err && r->Err_0.spec_message() == unsupported_button_message(button)
                    && final(self).spec_input() == old(self).spec_input(),
            },
    {
        self.input.mouse.button_down(button)
    }

    /// A mouse button came up; `button` is the browser's number for it. A number
    /// that names no button changes nothing and is reported.
    pub fn mouse_up(&mut self, button: i16) -> (r: Result<(), Error>)
        requires
            old(self).wf(),
        ensures
            final(self).wf(),
            final(self).spec_scene() == old(self).spec_scene(),
            final(self).spec_last_millis() == old(self).spec_last_millis(),
            final(self).spec_input().keyboard == old(self).spec_input().keyboard,
            match button_of_number(button) {
                Some(b) => r is Ok && final(self).spec_input().mouse.spec_position()
                    == old(self).spec_input().mouse.spec_position()
                    && forall|x: mouse::Button| #[trigger] final(self).spec_input().mouse.spec_state(x)
                    == if x == b { KeyState::Released } else { old(self).spec_input().mouse.spec_state(x) },
                None => r is Err && r->Err_0.spec_message() == unsupported_button_message(button)
                    && final(self).spec_input() == old(self).spec_input(),
            },
    {
        self.input.mouse.button_up(button)
    }

    /// The cursor moved to `(x, y)`; this takes effect at once, not at the end of
    /// the frame.
    pub fn mouse_move(&mut self, x: i32, y: i32)
        requires
            old(self).wf(),
        ensures
            final(self).wf(),
            final(self).spec_scene() == old(self).spec_scene(),
            final(self).spec_last_millis() == old(self).spec_last_millis(),
            final(self).spec_input().keyboard == old(self).spec_input().keyboard,
            final(self).spec_input().mouse.spec_position() == (Vertex2 { x, y }),
            forall|b: mouse::Button| #[trigger] final(self).spec_input().mouse.spec_state(b)
                == old(self).spec_input().mouse.spec_state(b),
    {
        self.input.mouse.handle_move(x, y);
    }

    /// Runs one frame at time `now_millis`: applies the pending additions and
    /// removals, updates the whole tree (children before parents) with the time
    /// since the previous frame, renders it layer by layer, and then ends the
    /// frame for the input. Returns the draw calls, in drawing order.
    pub fn frame(&mut self, now_millis: u64) -> (draws: Vec<DrawCall<P>>)
        requires
            old(self).wf(),
        ensures
            final(self).wf(),
            final(self).spec_last_millis() == now_millis,
            ({
                let s = old(self).spec_scene();
                let live = applied(s.live(), s.pending_removes(), s.pending_adds());
                &&& ids_of(final(self).spec_scene().live()) == ids_of(live)
                &&& node_models(final(self).spec_scene().spec_items()) == updated_trees(
                    node_models(items_of(live)),
                    old(self).spec_input(),
                    identity(),
                    delta_between(old(self).spec_last_millis(), now_millis),
                )
            }),
            final(self).spec_scene().pending_adds() == Seq::<(u64, Node<C, P>)>::empty(),
            final(self).spec_scene().pending_removes() == Seq::<u64>::empty(),
            draw_models(draws@) == frame_draws(node_models(final(self).spec_scene().spec_items())),
            layer_ordered(draw_models(draws@)),
            final(self).spec_input().mouse.spec_position() == old(self).spec_input().mouse.spec_position(),
            forall|b: mouse::Button| #[trigger] final(self).spec_input().mouse.spec_state(b)
                == next_state(old(self).spec_input().mouse.spec_state(b)),
            forall|k: keyboard::Button| #[trigger] final(self).spec_input().keyboard.spec_state(k)
                == next_state(old(self).spec_input().keyboard.spec_state(k)),
    {
        let delta = frame_delta(self.last_millis, now_millis);
        self.last_millis = now_millis;
        self.scene.apply_pending();
        proof {
            let live = self.scene.live();
            self.scene.lemma_items();
            assert(items_of(live) =~= self.scene.spec_items());
        }
        let root = Transform::default();
        self.scene.update(&self.input, root, delta);
        let draws = render_layers(self.scene.components());
        self.input.transition_states();
        draws
    }
}

} // verus!
