use std::cell::RefCell;
use std::rc::Rc;

use mapview::equirectangular::EquirectangularProjection;
use mapview::layer::Layer;
use mapview::map::{CombinedProjection, MapView, ViewProjection, Zoom};
use mapview::projection::Projection;
use mapview::{LatLon, LatLonRect, Latitude, Longitude, Point, DEGREE};

/// A synthetic layer that records where the projection it is handed places
/// a fixed position.
struct RecordingLayer {
    position: LatLon,
    records: Rc<RefCell<Vec<Point<i64>>>>,
}

impl Layer for RecordingLayer {
    fn draw<P: Projection>(&self, projection: &P, _x: i32, _y: i32, _width: i32, _height: i32) {
        let projected = projection.project(&self.position);
        self.records.borrow_mut().push(projected);
    }

    fn bounds(&self) -> Option<LatLonRect> {
        None
    }
}

fn fixed_position() -> LatLon {
    LatLon { latitude: Latitude(10 * DEGREE), longitude: Longitude(20 * DEGREE) }
}

#[test]
fn test_combined_projection_chains() {
    let projection = EquirectangularProjection;
    let vp = ViewProjection {
        center: Point { x: 0i64, y: 0i64 },
        zoom: Zoom { num: 1, den: 1 },
    };
    let combined = CombinedProjection::new(&projection, &vp, 640, 480);
    let screen = combined.project(&fixed_position());
    assert_eq!(Point { x: 20 * DEGREE + 320, y: 10 * DEGREE + 240 }, screen);
    let back = combined.unproject(&screen);
    assert_eq!(fixed_position(), back);
}

#[test]
fn test_map_draw_hands_layers_the_combined_projection() {
    let records = Rc::new(RefCell::new(Vec::new()));
    let mut map: MapView<EquirectangularProjection, RecordingLayer> =
        MapView::new(EquirectangularProjection, 0, 0, 640, 480);
    map.add_layer(RecordingLayer { position: fixed_position(), records: records.clone() });
    map.draw();
    assert_eq!(
        vec![Point { x: 20 * DEGREE + 320, y: 10 * DEGREE + 240 }],
        records.borrow().clone()
    );
}

#[test]
fn test_map_scroll_shifts_rendered_output() {
    let records = Rc::new(RefCell::new(Vec::new()));
    let mut map: MapView<EquirectangularProjection, RecordingLayer> =
        MapView::new(EquirectangularProjection, 0, 0, 0, 0);
    map.add_layer(RecordingLayer { position: fixed_position(), records: records.clone() });
    map.draw();
    map.scroll(3, 4);
    map.draw();
    let recorded = records.borrow();
    assert_eq!(2, recorded.len());
    // Scrolling by (3, 4) pixels moves every projected point by (-3, -4).
    assert_eq!(recorded[0].x - 3, recorded[1].x);
    assert_eq!(recorded[0].y - 4, recorded[1].y);
}

#[test]
fn test_map_scroll_is_pixel_rate_correct_at_higher_zoom() {
    let records = Rc::new(RefCell::new(Vec::new()));
    let mut map: MapView<EquirectangularProjection, RecordingLayer> =
        MapView::new(EquirectangularProjection, 0, 0, 0, 0);
    map.set_zoom(Zoom { num: 2, den: 1 });
    map.add_layer(RecordingLayer { position: fixed_position(), records: records.clone() });
    map.draw();
    map.scroll(6, 8);
    map.draw();
    let recorded = records.borrow();
    // The same pixel displacement shifts the output by the same pixel
    // amount, regardless of the zoom level.
    assert_eq!(recorded[0].x - 6, recorded[1].x);
    assert_eq!(recorded[0].y - 8, recorded[1].y);
}

#[test]
fn test_map_zoom_accessors() {
    let mut map: MapView<EquirectangularProjection, RecordingLayer> =
        MapView::new(EquirectangularProjection, 0, 0, 640, 480);
    assert_eq!(Zoom { num: 1, den: 1 }, map.zoom());
    map.set_zoom(Zoom { num: 5, den: 2 });
    assert_eq!(Zoom { num: 5, den: 2 }, map.zoom());
}

#[test]
fn test_map_set_geometry_changes_viewport() {
    let records = Rc::new(RefCell::new(Vec::new()));
    let mut map: MapView<EquirectangularProjection, RecordingLayer> =
        MapView::new(EquirectangularProjection, 0, 0, 640, 480);
    map.add_layer(RecordingLayer { position: fixed_position(), records: records.clone() });
    map.set_geometry(10, 10, 100, 80);
    map.draw();
    assert_eq!(
        vec![Point { x: 20 * DEGREE + 50, y: 10 * DEGREE + 40 }],
        records.borrow().clone()
    );
}

#[test]
fn test_map_clear_layers_stops_drawing() {
    let records = Rc::new(RefCell::new(Vec::new()));
    let mut map: MapView<EquirectangularProjection, RecordingLayer> =
        MapView::new(EquirectangularProjection, 0, 0, 640, 480);
    map.add_layer(RecordingLayer { position: fixed_position(), records: records.clone() });
    map.add_layer(RecordingLayer { position: fixed_position(), records: records.clone() });
    map.draw();
    assert_eq!(2, records.borrow().len());
    map.clear_layers();
    map.draw();
    assert_eq!(2, records.borrow().len());
}

#[test]
fn test_map_set_projection_replaces_transform() {
    let records = Rc::new(RefCell::new(Vec::new()));
    let mut map: MapView<EquirectangularProjection, RecordingLayer> =
        MapView::new(EquirectangularProjection, 0, 0, 0, 0);
    map.add_layer(RecordingLayer { position: fixed_position(), records: records.clone() });
    map.set_projection(EquirectangularProjection);
    map.draw();
    assert_eq!(vec![Point { x: 20 * DEGREE, y: 10 * DEGREE }], records.borrow().clone());
}
