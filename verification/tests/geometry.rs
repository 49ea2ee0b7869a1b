use sprite_walk::geometry::Point;
use sprite_walk::geometry::Rect;
use sprite_walk::geometry::MAX_COORDINATE;
use sprite_walk::geometry::MAX_SIZE;
use sprite_walk::geometry::MIN_COORDINATE;

#[test]
fn range_of_coordinates() {
    assert_eq!(MAX_COORDINATE, i32::MAX / 2);
    assert_eq!(MIN_COORDINATE, i32::MIN / 2);
    assert_eq!(MAX_SIZE, i32::MAX as u32 / 2);
}

#[test]
fn point_keeps_coordinates_in_range() {
    assert_eq!(Point::new(5, -7), Point { x: 5, y: -7 });
    assert_eq!(Point::new(MAX_COORDINATE, MIN_COORDINATE), Point { x: 1073741823, y: -1073741824 });
}

#[test]
fn point_clamps_coordinates_out_of_range() {
    assert_eq!(Point::new(MAX_COORDINATE + 1, MIN_COORDINATE - 1), Point { x: 1073741823, y: -1073741824 });
    assert_eq!(Point::new(i32::MAX, i32::MIN), Point { x: 1073741823, y: -1073741824 });
}

#[test]
fn offset_adds_to_each_coordinate() {
    assert_eq!(Point::new(10, 20).offset(5, -30), Point { x: 15, y: -10 });
    assert_eq!(Point::new(0, 0).offset(0, 0), Point { x: 0, y: 0 });
}

#[test]
fn offset_clamps_the_sum() {
    let corner = Point::new(MAX_COORDINATE, MIN_COORDINATE);
    assert_eq!(corner.offset(1, -1), corner);
    assert_eq!(corner.offset(i32::MAX, i32::MIN), corner);
    assert_eq!(corner.offset(-1, 1), Point { x: MAX_COORDINATE - 1, y: MIN_COORDINATE + 1 });
    let far = Point { x: i32::MAX, y: i32::MIN };
    assert_eq!(far.offset(1, -1), corner);
    assert_eq!(far.offset(i32::MIN, i32::MAX), Point { x: -1, y: -1 });
}

#[test]
fn rect_keeps_values_in_range() {
    assert_eq!(Rect::new(0, 0, 26, 36), Rect { x: 0, y: 0, width: 26, height: 36 });
    assert_eq!(Rect::new(-4, 9, 1, MAX_SIZE), Rect { x: -4, y: 9, width: 1, height: 1073741823 });
}

#[test]
fn rect_is_never_empty() {
    assert_eq!(Rect::new(3, 4, 0, 0), Rect { x: 3, y: 4, width: 1, height: 1 });
}

#[test]
fn rect_clamps_corner_and_size() {
    assert_eq!(
        Rect::new(i32::MAX, i32::MIN, u32::MAX, MAX_SIZE + 1),
        Rect { x: 1073741823, y: -1073741824, width: 1073741823, height: 1073741823 }
    );
}

#[test]
fn rect_from_center_rounds_the_half_down() {
    assert_eq!(
        Rect::from_center(Point { x: 405, y: 295 }, 26, 36),
        Rect { x: 392, y: 277, width: 26, height: 36 }
    );
    assert_eq!(
        Rect::from_center(Point { x: 0, y: 0 }, 3, 5),
        Rect { x: -1, y: -2, width: 3, height: 5 }
    );
    assert_eq!(
        Rect::from_center(Point { x: 10, y: 10 }, 0, 1),
        Rect { x: 10, y: 10, width: 1, height: 1 }
    );
}

#[test]
fn rect_from_center_clamps() {
    assert_eq!(
        Rect::from_center(Point { x: i32::MAX, y: i32::MIN }, 10, 10),
        Rect { x: MAX_COORDINATE - 5, y: MIN_COORDINATE, width: 10, height: 10 }
    );
    assert_eq!(
        Rect::from_center(Point { x: 0, y: 0 }, u32::MAX, u32::MAX),
        Rect { x: -536870911, y: -536870911, width: 1073741823, height: 1073741823 }
    );
}

#[test]
fn rect_validity() {
    assert!(Rect::new(i32::MAX, i32::MIN, 0, u32::MAX).is_valid());
    assert!(Rect { x: MAX_COORDINATE, y: MIN_COORDINATE, width: 1, height: MAX_SIZE }.is_valid());
    assert!(!Rect { x: MAX_COORDINATE + 1, y: 0, width: 1, height: 1 }.is_valid());
    assert!(!Rect { x: 0, y: MIN_COORDINATE - 1, width: 1, height: 1 }.is_valid());
    assert!(!Rect { x: 0, y: 0, width: 0, height: 1 }.is_valid());
    assert!(!Rect { x: 0, y: 0, width: 1, height: MAX_SIZE + 1 }.is_valid());
}
