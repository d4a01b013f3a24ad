use shapefile::record::point::Point;
use shapefile::record::{BBox, Error, EsriShape, ReadableShape, ShapeType};

#[test]
fn point_round_trip() {
    let x: f64 = 1.5;
    let y: f64 = -2.25;
    let p = Point { x: x.to_bits(), y: y.to_bits() };
    let mut buf: Vec<u8> = Vec::new();
    p.write_to(&mut buf);
    let back = Point::read_from(&buf).unwrap();
    assert_eq!(back, Point { x: x.to_bits(), y: y.to_bits() });
    assert_eq!(f64::from_bits(back.x), 1.5);
    assert_eq!(f64::from_bits(back.y), -2.25);
}

#[test]
fn point_literal_encoding() {
    let p = Point { x: 1.0f64.to_bits(), y: 2.0f64.to_bits() };
    let mut buf: Vec<u8> = Vec::new();
    p.write_to(&mut buf);
    assert_eq!(
        buf,
        vec![
            0x00u8, 0x00, 0x00, 0x00, 0x00, 0x00, 0xF0, 0x3F, 0x00, 0x00, 0x00, 0x00, 0x00, 0x00,
            0x00, 0x40,
        ]
    );
    let back = Point::read_from(&buf).unwrap();
    assert_eq!(f64::from_bits(back.x), 1.0);
    assert_eq!(f64::from_bits(back.y), 2.0);
}

#[test]
fn point_truncated_source_fails() {
    let bytes: Vec<u8> = vec![0u8; 10];
    let r = Point::read_from(&bytes);
    assert_eq!(r, Err(Error::NotEnoughBytes));
}

#[test]
fn point_decodes_prefix_of_longer_source() {
    let x: f64 = 42.0;
    let y: f64 = -0.5;
    let mut buf: Vec<u8> = Vec::new();
    buf.extend_from_slice(&x.to_le_bytes());
    buf.extend_from_slice(&y.to_le_bytes());
    buf.extend_from_slice(&[0xABu8; 5]);
    let back = Point::read_from(&buf).unwrap();
    assert_eq!(f64::from_bits(back.x), 42.0);
    assert_eq!(f64::from_bits(back.y), -0.5);
}

#[test]
fn point_size_and_tags() {
    let p = Point { x: 0u64, y: 0u64 };
    assert_eq!(p.size_in_bytes(), 16usize);
    assert_eq!(<Point as ReadableShape>::shapetype(), ShapeType::Point);
    assert_eq!(EsriShape::shapetype(&p), ShapeType::Point);
    assert_eq!(ShapeType::Point.code(), 1i32);
}

#[test]
fn point_bbox_degenerate() {
    let x: f64 = 3.5;
    let y: f64 = -7.25;
    let p = Point { x: x.to_bits(), y: y.to_bits() };
    let b = p.bbox();
    let expected = BBox {
        xmin: x.to_bits(),
        ymin: y.to_bits(),
        xmax: x.to_bits(),
        ymax: y.to_bits(),
    };
    assert_eq!(b, expected);
}

#[test]
fn point_default_is_origin() {
    let p = Point::default();
    assert_eq!(f64::from_bits(p.x), 0.0);
    assert_eq!(f64::from_bits(p.y), 0.0);
}
