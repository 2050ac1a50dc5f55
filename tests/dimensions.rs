use twors::dimensions::Dimensions;
use twors::Vertex2;

const POS_X: i32 = 30;
const POS_Y: i32 = 40;
const POSITION: Vertex2<i32> = Vertex2 { x: POS_X, y: POS_Y };

const WIDTH: i32 = 20;
const HEIGHT: i32 = 10;

#[test]
fn half_size() {
    let dimensions = Dimensions::new(POSITION, WIDTH, HEIGHT);

    assert_eq!(dimensions.half_width(), WIDTH / 2);
    assert_eq!(dimensions.half_height(), HEIGHT / 2);
}

#[test]
fn sides() {
    let dimensions = Dimensions::new(POSITION, WIDTH, HEIGHT);

    assert_eq!(dimensions.left(), POS_X - (WIDTH / 2));
    assert_eq!(dimensions.right(), POS_X + (WIDTH / 2));
    assert_eq!(dimensions.top(), POS_Y - (HEIGHT / 2));
    assert_eq!(dimensions.bottom(), POS_Y + (HEIGHT / 2));
}
