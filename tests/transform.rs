use twors::{Transform, Vertex2};

#[test]
fn default_scale_is_one() {
    let t = Transform::default();
    assert_eq!(t.scale, Vertex2::new(1, 1));
    assert_eq!(t.position, Vertex2::new(0, 0));
}

#[test]
fn compose_under_default_changes_nothing() {
    let t = Transform { position: Vertex2::new(-13, 250), scale: Vertex2::new(3, -2) };
    assert_eq!(Transform::compose(&Transform::default(), &t), t);
    assert_eq!(Transform::default() + t, t);
}

#[test]
fn compose_adds_positions_and_multiplies_scales() {
    let parent = Transform { position: Vertex2::new(10, 20), scale: Vertex2::new(2, 3) };
    let child = Transform { position: Vertex2::new(-4, 5), scale: Vertex2::new(5, 7) };
    let r = Transform::compose(&parent, &child);
    assert_eq!(r.position, Vertex2::new(6, 25));
    assert_eq!(r.scale, Vertex2::new(10, 21));
}

#[test]
fn compose_wraps_on_overflow() {
    let parent = Transform { position: Vertex2::new(i32::MAX, 0), scale: Vertex2::new(i32::MAX, 1) };
    let child = Transform { position: Vertex2::new(1, 0), scale: Vertex2::new(2, 1) };
    let r = Transform::compose(&parent, &child);
    assert_eq!(r.position.x, i32::MIN);
    assert_eq!(r.scale.x, -2);
}

#[test]
fn absolute_and_back() {
    let parent = Transform { position: Vertex2::new(100, 50), scale: Vertex2::new(2, 2) };
    let mut local = Transform::from_position(Vertex2::new(5, -5));
    let abs = local.absolute(&parent);
    assert_eq!(abs.position, Vertex2::new(105, 45));
    assert_eq!(abs.scale, Vertex2::new(2, 2));
    let target = Transform { position: Vertex2::new(130, 70), scale: Vertex2::new(6, 4) };
    local.set_absolute(&parent, &target);
    assert_eq!(local.position, Vertex2::new(30, 20));
    assert_eq!(local.scale, Vertex2::new(3, 2));
    assert_eq!(local.absolute(&parent), target);
    assert_eq!(target - parent, local);
}

#[test]
fn apply_scales_then_moves() {
    let t = Transform { position: Vertex2::new(10, -10), scale: Vertex2::new(3, 2) };
    assert_eq!(t.apply(Vertex2::new(4, 5)), Vertex2::new(22, 0));
}
