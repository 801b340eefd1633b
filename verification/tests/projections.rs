use mapview::equirectangular::EquirectangularProjection;
use mapview::projection::Projection;
use mapview::{LatLon, Latitude, Longitude, Point, Polygon, DEGREE};

#[test]
fn test_equirectangular_project_swaps_axes() {
    let projection = EquirectangularProjection;
    let position = LatLon {
        latitude: Latitude(47_660_900),
        longitude: Longitude(-122_281_600),
    };
    let plane = projection.project(&position);
    assert_eq!(Point { x: -122_281_600, y: 47_660_900 }, plane);
}

#[test]
fn test_equirectangular_unproject_swaps_axes() {
    let projection = EquirectangularProjection;
    let plane = Point { x: -122_281_600i64, y: 47_660_900i64 };
    let position = projection.unproject(&plane);
    assert_eq!(Latitude(47_660_900), position.latitude);
    assert_eq!(Longitude(-122_281_600), position.longitude);
}

#[test]
fn test_equirectangular_round_trip() {
    let projection = EquirectangularProjection;
    // Raw, non-normalized values round-trip too: the transform is bijective.
    let position = LatLon {
        latitude: Latitude(200 * DEGREE),
        longitude: Longitude(-500 * DEGREE),
    };
    let there = projection.project(&position);
    let back = projection.unproject(&there);
    assert_eq!(position, back);
    let plane = Point { x: 123i64, y: -456i64 };
    assert_eq!(plane, projection.project(&projection.unproject(&plane)));
}

#[test]
fn test_project_polygon_maps_every_vertex() {
    let projection = EquirectangularProjection;
    let ring = Polygon::new(&[
        LatLon { latitude: Latitude(10 * DEGREE), longitude: Longitude(20 * DEGREE) },
        LatLon { latitude: Latitude(10 * DEGREE), longitude: Longitude(30 * DEGREE) },
        LatLon { latitude: Latitude(-5 * DEGREE), longitude: Longitude(30 * DEGREE) },
    ]);
    let projected = projection.project_polygon(&ring);
    assert_eq!(
        &[
            Point { x: 20 * DEGREE, y: 10 * DEGREE },
            Point { x: 30 * DEGREE, y: 10 * DEGREE },
            Point { x: 30 * DEGREE, y: -5 * DEGREE },
        ][..],
        projected.points()
    );
}

#[test]
fn test_unproject_polygon_maps_every_vertex() {
    let projection = EquirectangularProjection;
    let ring = Polygon::new(&[
        Point { x: 20 * DEGREE, y: 10 * DEGREE },
        Point { x: 30 * DEGREE, y: -5 * DEGREE },
    ]);
    let unprojected = projection.unproject_polygon(&ring);
    assert_eq!(2, unprojected.points().len());
    assert_eq!(
        LatLon { latitude: Latitude(10 * DEGREE), longitude: Longitude(20 * DEGREE) },
        unprojected.points()[0]
    );
    assert_eq!(
        LatLon { latitude: Latitude(-5 * DEGREE), longitude: Longitude(30 * DEGREE) },
        unprojected.points()[1]
    );
}
