use twors::shape_factory;
use twors::Vertex2;

#[test]
fn rectangle() {
    const WIDTH: i32 = 200;
    const HEIGHT: i32 = 50;
    let shape = shape_factory::rectangle(WIDTH, HEIGHT);

    assert_eq!(shape.len(), 4);
    assert_eq!(shape[0], Vertex2::new(-WIDTH / 2, -HEIGHT / 2));
    assert_eq!(shape[1], Vertex2::new(WIDTH / 2, -HEIGHT / 2));
    assert_eq!(shape[2], Vertex2::new(WIDTH / 2, HEIGHT / 2));
    assert_eq!(shape[3], Vertex2::new(-WIDTH / 2, HEIGHT / 2));
}

#[test]
fn square() {
    const SIZE: i32 = 200;
    let shape = shape_factory::square(SIZE);

    assert_eq!(shape.len(), 4);
    assert_eq!(shape[0], Vertex2::new(-SIZE / 2, -SIZE / 2));
    assert_eq!(shape[1], Vertex2::new(SIZE / 2, -SIZE / 2));
    assert_eq!(shape[2], Vertex2::new(SIZE / 2, SIZE / 2));
    assert_eq!(shape[3], Vertex2::new(-SIZE / 2, SIZE / 2));
}

#[test]
fn rectangle_corners_in_order() {
    let shape = shape_factory::rectangle(200, 50);
    assert_eq!(
        shape,
        vec![
            Vertex2::new(-100, -25),
            Vertex2::new(100, -25),
            Vertex2::new(100, 25),
            Vertex2::new(-100, 25),
        ]
    );
}

#[test]
fn square_is_rectangle_with_equal_sides() {
    assert_eq!(shape_factory::square(40), shape_factory::rectangle(40, 40));
    assert_eq!(shape_factory::square(7), shape_factory::rectangle(7, 7));
}

#[test]
fn odd_size_rounds_toward_zero() {
    let shape = shape_factory::rectangle(5, -7);
    assert_eq!(shape[0], Vertex2::new(-2, 3));
    assert_eq!(shape[2], Vertex2::new(2, -3));
}
