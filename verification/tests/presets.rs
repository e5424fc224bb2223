//! Exact-value tests of the two preset tables.

use shepplogan::{shepplogan, shepplogan_modified, Ellipse, Shape, ShapeKind};

fn entry(
    center_x: i64,
    center_y: i64,
    major_axis: i64,
    minor_axis: i64,
    theta: i64,
    intensity: i64,
) -> Shape {
    Shape {
        intensity,
        kind: ShapeKind::Ellipse(Ellipse {
            center_x,
            center_y,
            major_axis,
            minor_axis,
            theta,
        }),
    }
}

#[test]
fn original_table_holds_the_ten_ellipses() {
    let v = shepplogan();
    assert_eq!(
        v,
        vec![
            entry(0, 3500, 2100, 2500, 0, 100),
            entry(0, 1000, 460, 460, 0, 100),
            entry(0, -1000, 460, 460, 0, 100),
            entry(-800, -6050, 460, 230, 0, 100),
            entry(0, -6050, 230, 230, 0, 100),
            entry(600, -6050, 230, 460, 0, 100),
            entry(2200, 0, 1100, 3100, -180000, -200),
            entry(-2200, 0, 1600, 4100, 180000, -200),
            entry(0, -184, 6624, 8740, 0, -9800),
            entry(0, 0, 6900, 9200, 0, 20000),
        ]
    );
}

#[test]
fn modified_table_holds_the_ten_ellipses() {
    let v = shepplogan_modified();
    assert_eq!(
        v,
        vec![
            entry(0, 3500, 2100, 2500, 0, 1000),
            entry(0, 1000, 460, 460, 0, 1000),
            entry(0, -1000, 460, 460, 0, 1000),
            entry(-800, -6050, 460, 230, 0, 1000),
            entry(0, -6050, 230, 230, 0, 1000),
            entry(600, -6050, 230, 460, 0, 1000),
            entry(2200, 0, 1100, 3100, -180000, -2000),
            entry(-2200, 0, 1600, 4100, 180000, -2000),
            entry(0, -184, 6624, 8740, 0, -8000),
            entry(0, 0, 6900, 9200, 0, 10000),
        ]
    );
}

#[test]
fn tables_share_their_geometry() {
    let a = shepplogan();
    let b = shepplogan_modified();
    assert_eq!(a.len(), b.len());
    for (x, y) in a.iter().zip(b.iter()) {
        assert_eq!(x.kind, y.kind);
    }
}

#[test]
fn shape_constructors_store_their_parameters() {
    let s = Shape::ellipse(1, -2, 3, 4, -5, 6);
    assert_eq!(s, entry(1, -2, 3, 4, -5, 6));
    let r = Shape::rectangle(7, 8, 9, 10, 11, 12);
    assert_eq!(r.intensity, 12);
    match r.kind {
        ShapeKind::Rectangle(rect) => {
            assert_eq!(rect.center_x, 7);
            assert_eq!(rect.center_y, 8);
            assert_eq!(rect.width, 9);
            assert_eq!(rect.height, 10);
            assert_eq!(rect.theta, 11);
        }
        ShapeKind::Ellipse(_) => unreachable!(),
    }
}
