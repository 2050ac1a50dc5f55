use twors::engine::{frame_delta, update_components};
use twors::input::Input;
use twors::render::render_layers;
use twors::scene::SceneError;
use twors::{Component, Context, Engine, Layer, Mouse, Node, Renderable, Transform, Vertex2};

#[derive(Clone, Copy, PartialEq, Debug)]
enum Kind {
    /// Keeps its children's `x` inside `[0, width]`.
    Field { width: i32 },
    /// Moves right by `step` every frame.
    Walker { step: i32 },
    /// Remembers what its context held.
    Probe { seen_parent_x: i32, seen_delta: u32, saw_click: bool },
    Still,
}

impl Component<u8> for Kind {
    fn update(node: &mut Node<Kind, u8>, ctx: &Context) {
        match node.state {
            Kind::Field { width } => {
                for child in node.children.iter_mut() {
                    let x = child.transform.position.x;
                    child.transform.position.x = x.clamp(0, width);
                }
            }
            Kind::Walker { step } => {
                node.transform.position.x += step;
            }
            Kind::Probe { .. } => {
                node.state = Kind::Probe {
                    seen_parent_x: ctx.absolute_parent.position.x,
                    seen_delta: ctx.delta_millis(),
                    saw_click: ctx.input.mouse.is_pressed(Mouse::LMB),
                };
            }
            Kind::Still => {}
        }
    }
}

fn shape(layer: Layer, style: u8) -> Renderable<u8> {
    Renderable {
        transform: Transform::default(),
        vertices: vec![Vertex2::new(0, 0), Vertex2::new(1, 0), Vertex2::new(1, 1)],
        style,
        layer,
    }
}

fn node(state: Kind, x: i32, renderables: Vec<Renderable<u8>>, children: Vec<Node<Kind, u8>>) -> Node<Kind, u8> {
    Node {
        state,
        transform: Transform::from_position(Vertex2::new(x, 0)),
        renderables,
        children,
    }
}

#[test]
fn test() {
    let mut engine: Engine<Kind, u8> = Engine::new(0);
    let draws = engine.frame(16);
    assert!(draws.is_empty());
    assert!(engine.components().is_empty());
}

#[test]
fn parent_clamps_after_child_moved() {
    let walker = node(Kind::Walker { step: 150 }, 50, vec![], vec![]);
    let field = node(Kind::Field { width: 100 }, 0, vec![], vec![walker]);
    let mut nodes = vec![field];
    let input = Input::default();
    update_components(&mut nodes, &input, Transform::default(), 16);
    assert_eq!(nodes[0].children[0].transform.position.x, 100);

    let walker = node(Kind::Walker { step: -80 }, 50, vec![], vec![]);
    let field = node(Kind::Field { width: 100 }, 0, vec![], vec![walker]);
    let mut nodes = vec![field];
    update_components(&mut nodes, &input, Transform::default(), 16);
    assert_eq!(nodes[0].children[0].transform.position.x, 0);
}

#[test]
fn layer_five_drawn_before_layer_one() {
    // Layer One hangs in the first branch, layer Five deeper in the second one.
    let top = node(Kind::Still, 1, vec![shape(Layer::One, 1)], vec![]);
    let first = node(Kind::Still, 0, vec![], vec![top]);
    let deep = node(Kind::Still, 2, vec![shape(Layer::Five, 5)], vec![]);
    let middle = node(Kind::Still, 0, vec![shape(Layer::Three, 3)], vec![deep]);
    let second = node(Kind::Still, 0, vec![shape(Layer::Five, 6)], vec![middle]);
    let nodes = vec![first, second];
    let draws = render_layers(&nodes);
    let styles: Vec<u8> = draws.iter().map(|d| d.style).collect();
    assert_eq!(styles, vec![6, 5, 3, 1]);
    let layers: Vec<Layer> = draws.iter().map(|d| d.layer).collect();
    assert_eq!(layers, vec![Layer::Five, Layer::Five, Layer::Three, Layer::One]);
}

#[test]
fn vertices_placed_in_world_coordinates() {
    let mut r = shape(Layer::Two, 9);
    r.transform = Transform { position: Vertex2::new(1, 1), scale: Vertex2::new(2, 3) };
    let child = Node {
        state: Kind::Still,
        transform: Transform { position: Vertex2::new(10, 20), scale: Vertex2::new(1, 1) },
        renderables: vec![r],
        children: vec![],
    };
    let root = Node {
        state: Kind::Still,
        transform: Transform { position: Vertex2::new(100, 200), scale: Vertex2::new(2, 1) },
        renderables: vec![],
        children: vec![child],
    };
    let draws = render_layers(&vec![root]);
    assert_eq!(draws.len(), 1);
    // absolute: position (111, 221), scale (4, 3)
    assert_eq!(
        draws[0].vertices,
        vec![Vertex2::new(111, 221), Vertex2::new(115, 221), Vertex2::new(115, 224)]
    );
}

#[test]
fn siblings_drawn_before_children_within_a_layer() {
    let a_child = node(Kind::Still, 0, vec![shape(Layer::Two, 11)], vec![]);
    let a = node(Kind::Still, 0, vec![shape(Layer::Two, 10)], vec![a_child]);
    let b = node(Kind::Still, 0, vec![shape(Layer::Two, 20)], vec![]);
    let draws = render_layers(&vec![a, b]);
    let styles: Vec<u8> = draws.iter().map(|d| d.style).collect();
    assert_eq!(styles, vec![10, 20, 11]);
}

#[test]
fn context_carries_parent_transform_delta_and_input() {
    let probe = node(Kind::Probe { seen_parent_x: 0, seen_delta: 0, saw_click: false }, 7, vec![], vec![]);
    let parent = node(Kind::Still, 30, vec![], vec![probe]);
    let mut engine: Engine<Kind, u8> = Engine::new(1000);
    assert_eq!(engine.request_add(1, parent), Ok(()));
    assert!(engine.mouse_down(0).is_ok());
    engine.frame(1040);
    assert_eq!(
        engine.components()[0].children[0].state,
        Kind::Probe { seen_parent_x: 30, seen_delta: 40, saw_click: true }
    );
    engine.frame(1050);
    assert_eq!(
        engine.components()[0].children[0].state,
        Kind::Probe { seen_parent_x: 30, seen_delta: 10, saw_click: false }
    );
    assert!(engine.input().mouse.is_down(Mouse::LMB));
}

#[test]
fn delta_between_frames() {
    assert_eq!(frame_delta(1000, 1016), 16);
    assert_eq!(frame_delta(1000, 1000), 0);
    assert_eq!(frame_delta(1000, 900), 0);
    assert_eq!(frame_delta(0, u64::MAX), u32::MAX);
}

#[test]
fn duplicate_pending_add_is_refused() {
    let mut engine: Engine<Kind, u8> = Engine::new(0);
    assert_eq!(engine.request_add(7, node(Kind::Still, 0, vec![], vec![])), Ok(()));
    assert_eq!(
        engine.request_add(7, node(Kind::Still, 1, vec![], vec![])),
        Err(SceneError::AlreadyPendingAdd(7))
    );
    assert_eq!(engine.request_remove(8), Err(SceneError::NotPresent(8)));
    engine.frame(1);
    assert_eq!(engine.components().len(), 1);
    assert_eq!(engine.components()[0].transform.position.x, 0);
    assert_eq!(engine.request_remove(7), Ok(()));
    assert_eq!(engine.components().len(), 1);
    engine.frame(2);
    assert!(engine.components().is_empty());
}

#[test]
fn engine_routes_events() {
    let mut engine: Engine<Kind, u8> = Engine::new(0);
    assert!(engine.key_down("KeyW").is_ok());
    assert!(engine.key_down("NotAKey").is_err());
    engine.mouse_move(3, 4);
    assert_eq!(engine.input().mouse.position(), Vertex2::new(3, 4));
    assert!(engine.input().keyboard.is_pressed(twors::Key::KeyW));
    engine.frame(5);
    assert!(engine.input().keyboard.is_down(twors::Key::KeyW));
    assert!(!engine.input().keyboard.is_pressed(twors::Key::KeyW));
    assert!(engine.key_up("KeyW").is_ok());
    assert!(engine.input().keyboard.is_released(twors::Key::KeyW));
    assert!(engine.mouse_up(9).is_err());
}
