use twors::Vertex2;

#[test]
fn new() {
    let vertex = Vertex2::new(1.0, 2.0);
    assert_eq!(vertex.x, 1.0);
    assert_eq!(vertex.y, 2.0);
}

#[test]
fn add() {
    let vertex = Vertex2::new(1.5, 2.0) + Vertex2::new(2.0, 3.0);
    assert_eq!(vertex.x, 3.5);
    assert_eq!(vertex.y, 5.0);
}

#[test]
fn sub() {
    let vertex = Vertex2::new(1.5, 2.0) - Vertex2::new(2.0, 3.0);
    assert_eq!(vertex.x, -0.5);
    assert_eq!(vertex.y, -1.0);
}

#[test]
fn mul() {
    let vertex = Vertex2::new(1.5, 2.0) * Vertex2::new(2.0, 3.0);
    assert_eq!(vertex.x, 3.0);
    assert_eq!(vertex.y, 6.0);
}

#[test]
fn div() {
    let vertex = Vertex2::new(1.0, 2.0) / Vertex2::new(2.0, 4.0);
    assert_eq!(vertex.x, 0.5);
    assert_eq!(vertex.y, 0.5);
}

#[test]
fn add_assign() {
    let mut vertex = Vertex2::new(1.0, 2.0);
    vertex += Vertex2::new(3.0, 4.0);
    assert_eq!(vertex.x, 4.0);
    assert_eq!(vertex.y, 6.0);
}

#[test]
fn sub_assign() {
    let mut vertex = Vertex2::new(1.0, 2.0);
    vertex -= Vertex2::new(3.0, 1.0);
    assert_eq!(vertex.x, -2.0);
    assert_eq!(vertex.y, 1.0);
}

#[test]
fn mul_assign() {
    let mut vertex = Vertex2::new(2.0, 4.0);
    vertex *= Vertex2::new(3.0, 3.0);
    assert_eq!(vertex.x, 6.0);
    assert_eq!(vertex.y, 12.0);
}

#[test]
fn div_assign() {
    let mut vertex = Vertex2::new(2.0, 10.0);
    vertex /= Vertex2::new(4.0, 5.0);
    assert_eq!(vertex.x, 0.5);
    assert_eq!(vertex.y, 2.0);
}

#[test]
fn add_then_sub_gives_back_integers() {
    let a = Vertex2::new(7i32, -3);
    let b = Vertex2::new(-12i32, 40);
    assert_eq!(a + b - b, a);
    let s = a + b;
    assert_eq!(s.x, 7 + -12);
    assert_eq!(s.y, -3 + 40);
    let p = a * b;
    assert_eq!(p, Vertex2::new(-84, -120));
    let q = Vertex2::new(9i32, -9) / Vertex2::new(2, 2);
    assert_eq!(q, Vertex2::new(4, -4));
}

#[test]
fn add_then_sub_gives_back_floats() {
    let a = Vertex2::new(0.25f32, 1.5);
    let b = Vertex2::new(2.0f32, -4.0);
    let r = a + b - b;
    assert!((r.x - a.x).abs() < 1e-6);
    assert!((r.y - a.y).abs() < 1e-6);
}
