use mapview::map::{ViewProjection, Zoom};
use mapview::Point;

#[test]
fn test_view_project_centers_viewport() {
    // The view center lands in the middle of the viewport.
    let vp = ViewProjection {
        center: Point { x: 100i64, y: -50i64 },
        zoom: Zoom { num: 3, den: 1 },
    };
    let screen = vp.project(&Point { x: 100, y: -50 }, 640, 480);
    assert_eq!(Point { x: 320, y: 240 }, screen);
}

#[test]
fn test_view_project_scales_offsets() {
    let vp = ViewProjection {
        center: Point { x: 100i64, y: -50i64 },
        zoom: Zoom { num: 3, den: 1 },
    };
    let screen = vp.project(&Point { x: 7, y: 9 }, 640, 480);
    assert_eq!(Point { x: 41, y: 417 }, screen);
}

#[test]
fn test_view_round_trip_integer_zoom() {
    let vp = ViewProjection {
        center: Point { x: 100i64, y: -50i64 },
        zoom: Zoom { num: 3, den: 1 },
    };
    let map = Point { x: 7i64, y: 9i64 };
    let screen = vp.project(&map, 640, 480);
    let back = vp.unproject(&screen, 640, 480);
    // A whole-number zoom ratio round-trips exactly.
    assert_eq!(map, back);
}

#[test]
fn test_view_round_trip_fractional_zoom() {
    // Zoom 1/2: projection rounds down, so the round trip can fall short,
    // but by less than 1 + den/num map units.
    let vp = ViewProjection {
        center: Point { x: 0i64, y: 0i64 },
        zoom: Zoom { num: 1, den: 2 },
    };
    let map = Point { x: 7i64, y: 9i64 };
    let screen = vp.project(&map, 0, 0);
    assert_eq!(Point { x: 3, y: 4 }, screen);
    let back = vp.unproject(&screen, 0, 0);
    assert_eq!(Point { x: 6, y: 8 }, back);
    assert!((map.x - back.x) * vp.zoom.num < vp.zoom.num + vp.zoom.den);
    assert!((map.y - back.y) * vp.zoom.num < vp.zoom.num + vp.zoom.den);
}

#[test]
fn test_view_unproject_inverts_zoom() {
    let vp = ViewProjection {
        center: Point { x: 5i64, y: 6i64 },
        zoom: Zoom { num: 4, den: 1 },
    };
    let map = vp.unproject(&Point { x: 328, y: 248 }, 640, 480);
    // (328 - 320) / 4 + 5 and (248 - 240) / 4 + 6.
    assert_eq!(Point { x: 7, y: 8 }, map);
}

#[test]
fn test_view_halves_odd_viewport_toward_zero() {
    let vp = ViewProjection {
        center: Point { x: 0i64, y: 0i64 },
        zoom: Zoom { num: 1, den: 1 },
    };
    let screen = vp.project(&Point { x: 0, y: 0 }, 641, 481);
    assert_eq!(Point { x: 320, y: 240 }, screen);
    let negative = vp.project(&Point { x: 0, y: 0 }, -5, -7);
    assert_eq!(Point { x: -2, y: -3 }, negative);
}
