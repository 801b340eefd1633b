use mapview::{LatLon, LatLonRect, Latitude, Longitude, Point, Polygon, DEGREE};

#[test]
fn test_point_origin() {
    assert_eq!(Point { x: 0i64, y: 0i64 }, Point::origin());
}

#[test]
fn test_point_arithmetic() {
    let a = Point { x: 3i64, y: -4i64 };
    let b = Point { x: 10i64, y: 20i64 };
    assert_eq!(Point { x: 13, y: 16 }, a.add(b));
    assert_eq!(Point { x: -7, y: -24 }, a.sub(b));
    assert_eq!(Point { x: 9, y: -12 }, a.mul(3));
    assert_eq!(Point { x: -3, y: 4 }, a.mul(-1));
}

#[test]
fn test_polygon_keeps_vertices() {
    let pts = [
        Point { x: 0i64, y: 0i64 },
        Point { x: 5, y: 0 },
        Point { x: 5, y: 5 },
        Point { x: 0, y: 5 },
    ];
    let polygon = Polygon::new(&pts);
    assert_eq!(&pts[..], polygon.points());
}

#[test]
fn test_polygon_empty() {
    let pts: [Point<i64>; 0] = [];
    let polygon = Polygon::new(&pts);
    assert!(polygon.points().is_empty());
}

#[test]
fn test_polygon_of_latlons() {
    let pts = [
        LatLon { latitude: Latitude(10 * DEGREE), longitude: Longitude(20 * DEGREE) },
        LatLon { latitude: Latitude(-10 * DEGREE), longitude: Longitude(20 * DEGREE) },
    ];
    let polygon = Polygon::new(&pts);
    assert_eq!(2, polygon.points().len());
    assert_eq!(pts[0], polygon.points()[0]);
    assert_eq!(pts[1], polygon.points()[1]);
}

#[test]
fn test_rect_from_bounds() {
    let rect = LatLonRect::from_bounds(
        Latitude(50 * DEGREE),
        Latitude(40 * DEGREE),
        Longitude(-100 * DEGREE),
        Longitude(-110 * DEGREE),
    );
    assert_eq!(Latitude(50 * DEGREE), rect.north());
    assert_eq!(Latitude(40 * DEGREE), rect.south());
    assert_eq!(Longitude(-100 * DEGREE), rect.east());
    assert_eq!(Longitude(-110 * DEGREE), rect.west());
}

#[test]
fn test_rect_from_corners() {
    let northwest = LatLon { latitude: Latitude(50 * DEGREE), longitude: Longitude(-110 * DEGREE) };
    let southeast = LatLon { latitude: Latitude(40 * DEGREE), longitude: Longitude(-100 * DEGREE) };
    let rect = LatLonRect::from_corners(&northwest, &southeast);
    assert_eq!(Latitude(50 * DEGREE), rect.north());
    assert_eq!(Latitude(40 * DEGREE), rect.south());
    assert_eq!(Longitude(-100 * DEGREE), rect.east());
    assert_eq!(Longitude(-110 * DEGREE), rect.west());
}

#[test]
fn test_rect_setters() {
    let mut rect = LatLonRect::from_bounds(
        Latitude(0),
        Latitude(0),
        Longitude(0),
        Longitude(0),
    );
    rect.set_north(Latitude(1 * DEGREE));
    rect.set_south(Latitude(-2 * DEGREE));
    rect.set_east(Longitude(3 * DEGREE));
    rect.set_west(Longitude(-4 * DEGREE));
    assert_eq!(Latitude(1 * DEGREE), rect.north());
    assert_eq!(Latitude(-2 * DEGREE), rect.south());
    assert_eq!(Longitude(3 * DEGREE), rect.east());
    assert_eq!(Longitude(-4 * DEGREE), rect.west());
}
