//! The map view: a pan/zoom viewport transform between map coordinates and
//! display coordinates, its composition with a spherical projection, and the
//! map object that orchestrates drawing.

use vstd::prelude::*;
use vstd::arithmetic::div_mod::{
    lemma_fundamental_div_mod, lemma_fundamental_div_mod_converse,
    lemma_mod_division_less_than_divisor,
};
use crate::{LatLon, Point};
use crate::arith::{div_floor, half_trunc, div_floor_i128, half_trunc_i64, lemma_mul_magnitude_bound};
use crate::layer::Layer;
use crate::projection::Projection;

verus! {

/// The ratio of the size of a display unit to the size of a map coordinate
/// unit, held as an exact fraction `num / den`.
///
/// The denominator is kept positive; the numerator carries the sign and is
/// not otherwise validated, so a zero or negative scale can be represented,
/// though it leaves `unproject`'s division undefined.
#[derive(Debug, Copy, Clone, PartialEq, Eq, Structural)]
pub struct Zoom {
    /// Numerator of the scale factor
    pub num: i64,
    /// Denominator of the scale factor, positive
    pub den: i64,
}

///
/// A linear projection that maps between map coordinates and display
/// coordinates
///
#[derive(Debug, Copy, Clone, PartialEq, Eq, Structural)]
pub struct ViewProjection {
    /// The location, in map coordinates, where the center of the viewport is
    /// located
    pub center: Point<i64>,
    /// The ratio of the size of a display unit to the size of a map
    /// coordinate unit
    pub zoom: Zoom,
}

/// One axis of the viewport transform: the vector from the view center is
/// scaled by the zoom ratio, rounding down, then shifted by half the
/// viewport so the center lands in the middle.
pub open spec fn project_axis_spec(m: int, c: int, zoom: Zoom, viewport: int) -> int {
    div_floor((m - c) * zoom.num, zoom.den as int) + half_trunc(viewport)
}

/// One axis of the inverse viewport transform: shift back by half the
/// viewport, scale by the inverse zoom ratio rounding down, and move back
/// relative to the view center.
pub open spec fn unproject_axis_spec(s: int, c: int, zoom: Zoom, viewport: int) -> int {
    div_floor((s - half_trunc(viewport)) * zoom.den, zoom.num as int) + c
}

/// X coordinate, in display units, that map coordinate `mx` projects to.
pub open spec fn view_project_x(vp: ViewProjection, mx: int, width: int) -> int {
    project_axis_spec(mx, vp.center.x as int, vp.zoom, width)
}

/// Y coordinate, in display units, that map coordinate `my` projects to.
pub open spec fn view_project_y(vp: ViewProjection, my: int, height: int) -> int {
    project_axis_spec(my, vp.center.y as int, vp.zoom, height)
}

/// X coordinate, in map units, that display coordinate `sx` unprojects to.
pub open spec fn view_unproject_x(vp: ViewProjection, sx: int, width: int) -> int {
    unproject_axis_spec(sx, vp.center.x as int, vp.zoom, width)
}

/// Y coordinate, in map units, that display coordinate `sy` unprojects to.
pub open spec fn view_unproject_y(vp: ViewProjection, sy: int, height: int) -> int {
    unproject_axis_spec(sy, vp.center.y as int, vp.zoom, height)
}

/// Whether the viewport projection of `(mx, my)` is representable.
pub open spec fn view_project_fits(
    vp: ViewProjection,
    mx: int,
    my: int,
    width: int,
    height: int,
) -> bool {
    &&& vp.zoom.den >= 1
    &&& i64::MIN <= view_project_x(vp, mx, width) <= i64::MAX
    &&& i64::MIN <= view_project_y(vp, my, height) <= i64::MAX
}

/// Whether the viewport unprojection of `(sx, sy)` is defined and
/// representable: division by the zoom numerator must be possible.
pub open spec fn view_unproject_fits(
    vp: ViewProjection,
    sx: int,
    sy: int,
    width: int,
    height: int,
) -> bool {
    &&& vp.zoom.num != 0
    &&& vp.zoom.den >= 1
    &&& i64::MIN <= view_unproject_x(vp, sx, width) <= i64::MAX
    &&& i64::MIN <= view_unproject_y(vp, sy, height) <= i64::MAX
}

/// One axis of the forward viewport transform, in machine integers.
fn project_axis(m: i64, c: i64, zoom: Zoom, viewport: i32) -> (r: i64)
    requires
        zoom.den >= 1,
        i64::MIN <= project_axis_spec(m as int, c as int, zoom, viewport as int) <= i64::MAX,
    ensures
        r == project_axis_spec(m as int, c as int, zoom, viewport as int),
{
    let d: i128 = (m as i128) - (c as i128);
    proof {
        lemma_mul_magnitude_bound(
            d as int,
            zoom.num as int,
            0xFFFF_FFFF_FFFF_FFFF,
            0x8000_0000_0000_0000,
        );
    }
    let scaled: i128 = div_floor_i128(d * (zoom.num as i128), zoom.den as i128);
    let h: i64 = half_trunc_i64(viewport as i64);
    let sum: i128 = scaled + (h as i128);
    sum as i64
}

/// One axis of the inverse viewport transform, in machine integers.
fn unproject_axis(s: i64, c: i64, zoom: Zoom, viewport: i32) -> (r: i64)
    requires
        zoom.num != 0,
        i64::MIN <= unproject_axis_spec(s as int, c as int, zoom, viewport as int) <= i64::MAX,
    ensures
        r == unproject_axis_spec(s as int, c as int, zoom, viewport as int),
{
    let h: i64 = half_trunc_i64(viewport as i64);
    let d: i128 = (s as i128) - (h as i128);
    proof {
        lemma_mul_magnitude_bound(
            d as int,
            zoom.den as int,
            0xFFFF_FFFF_FFFF_FFFF,
            0x8000_0000_0000_0000,
        );
    }
    let scaled: i128 = div_floor_i128(d * (zoom.den as i128), zoom.num as i128);
    let sum: i128 = scaled + (c as i128);
    sum as i64
}

impl ViewProjection {
    /// Projects a point in map coordinates to a point in screen coordinates
    pub fn project(&self, map: &Point<i64>, viewport_width: i32, viewport_height: i32) -> (r:
        Point<i64>)
        requires
            view_project_fits(
                *self,
                map.x as int,
                map.y as int,
                viewport_width as int,
                viewport_height as int,
            ),
        ensures
            r.x == view_project_x(*self, map.x as int, viewport_width as int),
            r.y == view_project_y(*self, map.y as int, viewport_height as int),
    {
        let x = project_axis(map.x, self.center.x, self.zoom, viewport_width);
        let y = project_axis(map.y, self.center.y, self.zoom, viewport_height);
        Point { x, y }
    }

    /// Unprojects a point from screen coordinates to a point in map
    /// coordinates
    pub fn unproject(&self, screen: &Point<i64>, viewport_width: i32, viewport_height: i32) -> (r:
        Point<i64>)
        requires
            view_unproject_fits(
                *self,
                screen.x as int,
                screen.y as int,
                viewport_width as int,
                viewport_height as int,
            ),
        ensures
            r.x == view_unproject_x(*self, screen.x as int, viewport_width as int),
            r.y == view_unproject_y(*self, screen.y as int, viewport_height as int),
    {
        let x = unproject_axis(screen.x, self.center.x, self.zoom, viewport_width);
        let y = unproject_axis(screen.y, self.center.y, self.zoom, viewport_height);
        Point { x, y }
    }
}

/// X coordinate, in display units, that `position` reaches through a
/// spherical projection chained with a viewport transform.
pub open spec fn combined_project_x<P: Projection>(
    projection: P,
    vp: ViewProjection,
    width: int,
    position: LatLon,
) -> int {
    view_project_x(vp, projection.spec_project_x(position), width)
}

/// Y coordinate, in display units, that `position` reaches through a
/// spherical projection chained with a viewport transform.
pub open spec fn combined_project_y<P: Projection>(
    projection: P,
    vp: ViewProjection,
    height: int,
    position: LatLon,
) -> int {
    view_project_y(vp, projection.spec_project_y(position), height)
}

///
/// A Projection implementation for a combination of a Projection and a
/// ViewProjection
///
/// It projects by chaining sphere-to-map through the inner projection with
/// map-to-pixel through the view projection, and unprojects by reversing
/// both steps in the opposite order.
pub struct CombinedProjection<'a, 'b, P: Projection> {
    /// The primary projection
    pub projection: &'a P,
    /// The view projection
    pub view_projection: &'b ViewProjection,
    /// The width of the viewport in pixels
    pub viewport_width: i32,
    /// The height of the viewport in pixels
    pub viewport_height: i32,
}

impl<'a, 'b, P: Projection> CombinedProjection<'a, 'b, P> {
    /// Wraps a projection and a view projection for one viewport.
    pub fn new(
        projection: &'a P,
        view_projection: &'b ViewProjection,
        viewport_width: i32,
        viewport_height: i32,
    ) -> (r: CombinedProjection<'a, 'b, P>)
        ensures
            r.projection == projection,
            r.view_projection == view_projection,
            r.viewport_width == viewport_width,
            r.viewport_height == viewport_height,
    {
        CombinedProjection { projection, view_projection, viewport_width, viewport_height }
    }
}

impl<'a, 'b, P: Projection> Projection for CombinedProjection<'a, 'b, P> {
    open spec fn can_project(self, position: LatLon) -> bool {
        &&& self.projection.can_project(position)
        &&& view_project_fits(
            *self.view_projection,
            self.projection.spec_project_x(position),
            self.projection.spec_project_y(position),
            self.viewport_width as int,
            self.viewport_height as int,
        )
    }

    open spec fn spec_project_x(self, position: LatLon) -> int {
        combined_project_x(*self.projection, *self.view_projection, self.viewport_width as int, position)
    }

    open spec fn spec_project_y(self, position: LatLon) -> int {
        combined_project_y(*self.projection, *self.view_projection, self.viewport_height as int, position)
    }

    open spec fn can_unproject(self, position: Point<i64>) -> bool {
        &&& view_unproject_fits(
            *self.view_projection,
            position.x as int,
            position.y as int,
            self.viewport_width as int,
            self.viewport_height as int,
        )
        &&& self.projection.can_unproject(
            (Point {
                x: view_unproject_x(*self.view_projection, position.x as int, self.viewport_width as int) as i64,
                y: view_unproject_y(*self.view_projection, position.y as int, self.viewport_height as int) as i64,
            }),
        )
    }

    open spec fn spec_unproject_latitude(self, position: Point<i64>) -> int {
        self.projection.spec_unproject_latitude(
            (Point {
                x: view_unproject_x(*self.view_projection, position.x as int, self.viewport_width as int) as i64,
                y: view_unproject_y(*self.view_projection, position.y as int, self.viewport_height as int) as i64,
            }),
        )
    }

    open spec fn spec_unproject_longitude(self, position: Point<i64>) -> int {
        self.projection.spec_unproject_longitude(
            (Point {
                x: view_unproject_x(*self.view_projection, position.x as int, self.viewport_width as int) as i64,
                y: view_unproject_y(*self.view_projection, position.y as int, self.viewport_height as int) as i64,
            }),
        )
    }

    fn project(&self, position: &LatLon) -> (r: Point<i64>) {
        let map = self.projection.project(position);
        self.view_projection.project(&map, self.viewport_width, self.viewport_height)
    }

    fn unproject(&self, position: &Point<i64>) -> (r: LatLon) {
        let map = self.view_projection.unproject(position, self.viewport_width, self.viewport_height);
        self.projection.unproject(&map)
    }
}

/// Whether a scroll by `(dx, dy)` pixels keeps every intermediate value of
/// the center update representable.
pub open spec fn scroll_fits(vp: ViewProjection, dx: int, dy: int, width: int, height: int) -> bool {
    &&& view_unproject_fits(vp, dx, dy, width, height)
    &&& i64::MIN <= vp.center.x + view_unproject_x(vp, dx, width) <= i64::MAX
    &&& i64::MIN <= vp.center.y + view_unproject_y(vp, dy, height) <= i64::MAX
}

///
/// Represents a map view
///
/// A map uses three coordinate systems:
///
/// * Latitude/longitude
/// * Map coordinates: Map coordinates are in arbitrary units, as defined by
///   the projection. The only constraint on map coordinates is that the X
///   coordinate increases going right and the Y coordinate increases going
///   up.
/// * Display coordinates: Display coordinates are in pixels, with the X
///   coordinate increasing going right and the Y coordinate increasing going
///   up. The origin is located at the lower left corner of the viewport.
///
/// The map's projection converts between latitude/longitude and map
/// coordinates. The map's view projection converts between map coordinates
/// and display coordinates.
///
pub struct MapView<P: Projection, L: Layer> {
    /// The projection
    projection: P,
    /// The view projection
    view_projection: ViewProjection,
    /// The layers
    layers: Vec<L>,
    /// The X location of the lower left corner of the map, in pixels
    x: i32,
    /// The Y location of the lower left corner of the map, in pixels
    y: i32,
    /// The width of the map, in pixels
    width: i32,
    /// The height of the map, in pixels
    height: i32,
}

impl<P: Projection, L: Layer> MapView<P, L> {
    /// The projection currently in use.
    pub closed spec fn spec_projection(self) -> P {
        self.projection
    }

    /// The current viewport transform.
    pub closed spec fn spec_view_projection(self) -> ViewProjection {
        self.view_projection
    }

    /// The layers, in drawing order.
    pub closed spec fn spec_layers(self) -> Seq<L> {
        self.layers@
    }

    /// The X location of the lower left corner, in pixels.
    pub closed spec fn spec_x(self) -> int {
        self.x as int
    }

    /// The Y location of the lower left corner, in pixels.
    pub closed spec fn spec_y(self) -> int {
        self.y as int
    }

    /// The viewport width, in pixels.
    pub closed spec fn spec_width(self) -> int {
        self.width as int
    }

    /// The viewport height, in pixels.
    pub closed spec fn spec_height(self) -> int {
        self.height as int
    }

    ///
    /// Creates a new map using a given projection
    ///
    /// The view starts centered on the map-space origin with a zoom scale of
    /// one, and with no layers.
    ///
    pub fn new(projection: P, x: i32, y: i32, width: i32, height: i32) -> (r: MapView<P, L>)
        ensures
            r.spec_projection() == projection,
            r.spec_view_projection() == (ViewProjection {
                center: Point { x: 0i64, y: 0i64 },
                zoom: Zoom { num: 1i64, den: 1i64 },
            }),
            r.spec_layers() == Seq::<L>::empty(),
            r.spec_x() == x,
            r.spec_y() == y,
            r.spec_width() == width,
            r.spec_height() == height,
    {
        let m = MapView {
            projection,
            view_projection: ViewProjection {
                center: Point::origin(),
                zoom: Zoom { num: 1, den: 1 },
            },
            layers: Vec::new(),
            x,
            y,
            width,
            height,
        };
        proof {
            assert(m.layers@ =~= Seq::<L>::empty());
        }
        m
    }

    ///
    /// Sets the projection that this map should use
    ///
    pub fn set_projection(&mut self, projection: P)
        ensures
            final(self).spec_projection() == projection,
            final(self).spec_view_projection() == old(self).spec_view_projection(),
            final(self).spec_layers() == old(self).spec_layers(),
            final(self).spec_x() == old(self).spec_x(),
            final(self).spec_y() == old(self).spec_y(),
            final(self).spec_width() == old(self).spec_width(),
            final(self).spec_height() == old(self).spec_height(),
    {
        self.projection = projection
    }

    ///
    /// Adds a layer to this map. The new layer will be drawn on top of the
    /// existing layers.
    ///
    pub fn add_layer(&mut self, layer: L)
        ensures
            final(self).spec_layers() == old(self).spec_layers().push(layer),
            final(self).spec_projection() == old(self).spec_projection(),
            final(self).spec_view_projection() == old(self).spec_view_projection(),
            final(self).spec_x() == old(self).spec_x(),
            final(self).spec_y() == old(self).spec_y(),
            final(self).spec_width() == old(self).spec_width(),
            final(self).spec_height() == old(self).spec_height(),
    {
        self.layers.push(layer)
    }

    ///
    /// Removes all layers from this map
    ///
    pub fn clear_layers(&mut self)
        ensures
            final(self).spec_layers() == Seq::<L>::empty(),
            final(self).spec_projection() == old(self).spec_projection(),
            final(self).spec_view_projection() == old(self).spec_view_projection(),
            final(self).spec_x() == old(self).spec_x(),
            final(self).spec_y() == old(self).spec_y(),
            final(self).spec_width() == old(self).spec_width(),
            final(self).spec_height() == old(self).spec_height(),
    {
        self.layers.clear();
        proof {
            assert(self.layers@ =~= Seq::<L>::empty());
        }
    }

    ///
    /// Returns the current zoom level
    ///
    pub fn zoom(&self) -> (r: Zoom)
        ensures
            r == self.spec_view_projection().zoom,
    {
        self.view_projection.zoom
    }

    ///
    /// Sets the map zoom level
    ///
    /// The numerator is not validated: a zero or negative scale is accepted
    /// here, though it leaves `unproject` undefined.
    pub fn set_zoom(&mut self, zoom: Zoom)
        requires
            zoom.den >= 1,
        ensures
            final(self).spec_view_projection().zoom == zoom,
            final(self).spec_view_projection().center == old(self).spec_view_projection().center,
            final(self).spec_projection() == old(self).spec_projection(),
            final(self).spec_layers() == old(self).spec_layers(),
            final(self).spec_x() == old(self).spec_x(),
            final(self).spec_y() == old(self).spec_y(),
            final(self).spec_width() == old(self).spec_width(),
            final(self).spec_height() == old(self).spec_height(),
    {
        self.view_projection.zoom = zoom
    }

    ///
    /// Sets the geometry of this map view
    ///
    /// x and y are the coordinates of the lower left corner of the map view,
    /// in pixels.
    ///
    /// width and height are its width and height in pixels.
    ///
    pub fn set_geometry(&mut self, x: i32, y: i32, width: i32, height: i32)
        ensures
            final(self).spec_x() == x,
            final(self).spec_y() == y,
            final(self).spec_width() == width,
            final(self).spec_height() == height,
            final(self).spec_projection() == old(self).spec_projection(),
            final(self).spec_view_projection() == old(self).spec_view_projection(),
            final(self).spec_layers() == old(self).spec_layers(),
    {
        self.x = x;
        self.y = y;
        self.width = width;
        self.height = height;
    }

    ///
    /// Scrolls the map by a specified amount in pixels
    ///
    /// The pixel displacement is carried through the inverse viewport
    /// transform and the result is added to the view center.
    ///
    pub fn scroll(&mut self, dx: i32, dy: i32)
        requires
            scroll_fits(
                old(self).spec_view_projection(),
                dx as int,
                dy as int,
                old(self).spec_width(),
                old(self).spec_height(),
            ),
        ensures
            final(self).spec_view_projection().center.x == old(self).spec_view_projection().center.x
                + view_unproject_x(old(self).spec_view_projection(), dx as int, old(self).spec_width()),
            final(self).spec_view_projection().center.y == old(self).spec_view_projection().center.y
                + view_unproject_y(old(self).spec_view_projection(), dy as int, old(self).spec_height()),
            final(self).spec_view_projection().zoom == old(self).spec_view_projection().zoom,
            final(self).spec_projection() == old(self).spec_projection(),
            final(self).spec_layers() == old(self).spec_layers(),
            final(self).spec_x() == old(self).spec_x(),
            final(self).spec_y() == old(self).spec_y(),
            final(self).spec_width() == old(self).spec_width(),
            final(self).spec_height() == old(self).spec_height(),
    {
        let map_delta = self.view_projection.unproject(
            &Point { x: dx as i64, y: dy as i64 },
            self.width,
            self.height,
        );
        self.view_projection.center = self.view_projection.center.add(map_delta);
    }

    ///
    /// Draws this map
    ///
    /// Builds the combined pixel-space projection for the current state and
    /// hands it to each layer in turn, in insertion order.
    ///
    pub fn draw(&self) {
        let combined = CombinedProjection::new(
            &self.projection,
            &self.view_projection,
            self.width,
            self.height,
        );
        let mut i: usize = 0;
        while i < self.layers.len()
            invariant
                i <= self.layers@.len(),
            decreases self.layers@.len() - i,
        {
            self.layers[i].draw(&combined, self.x, self.y, self.width, self.height);
            i = i + 1;
        }
    }
}

/// Euclidean division by one changes nothing.
proof fn lemma_div_by_one(x: int)
    ensures
        x / 1 == x,
{
    lemma_fundamental_div_mod_converse(x, 1, x, 0);
}

/// One axis of the viewport round trip: unprojecting a projected map
/// coordinate comes back short by at most the rounding loss of the two
/// floor divisions, and exactly when the zoom denominator is one.
proof fn lemma_round_trip_axis(m: int, c: int, zoom: Zoom, viewport: int)
    requires
        zoom.num >= 1,
        zoom.den >= 1,
    ensures
        ({
            let u = unproject_axis_spec(project_axis_spec(m, c, zoom, viewport), c, zoom, viewport);
            &&& 0 <= m - u
            &&& (m - u) * zoom.num < zoom.num + zoom.den
            &&& zoom.den == 1 ==> u == m
        }),
{
    let n = zoom.num as int;
    let den = zoom.den as int;
    let v = m - c;
    let q = (v * n) / den;
    lemma_fundamental_div_mod(v * n, den);
    lemma_mod_division_less_than_divisor(v * n, den);
    let r = (v * n) % den;
    let s = project_axis_spec(m, c, zoom, viewport);
    assert(s == q + half_trunc(viewport));
    let u = unproject_axis_spec(s, c, zoom, viewport);
    assert(u == (q * den) / n + c);
    assert(q * den == v * n - r) by (nonlinear_arith)
        requires
            v * n == den * q + r,
    ;
    let k = (r + n - 1) / n;
    lemma_fundamental_div_mod(r + n - 1, n);
    lemma_mod_division_less_than_divisor(r + n - 1, n);
    vstd::arithmetic::div_mod::lemma_div_pos_is_pos(r + n - 1, n);
    let rr = (r + n - 1) % n;
    assert(n * k == r + n - 1 - rr);
    assert(v * n - r == (v - k) * n + (n * k - r)) by (nonlinear_arith);
    lemma_fundamental_div_mod_converse(v * n - r, n, v - k, n * k - r);
    assert((v * n - r) / n == v - k);
    assert(u == m - k);
    assert((m - u) * n == k * n);
    assert(k * n == n * k) by (nonlinear_arith);
    if zoom.den == 1 {
        assert(r == 0);
        assert(n * k == n - 1 - rr);
        assert(k == 0) by (nonlinear_arith)
            requires
                n * k == n - 1 - rr,
                0 <= rr < n,
                0 <= k,
                1 <= n,
        ;
    }
}

/// For any center, positive zoom ratio and viewport size, the viewport
/// transforms are mutual inverses up to rounding: unprojecting a projected
/// map point recovers it to within less than `1 + den/num` map units, and
/// exactly whenever the zoom ratio is a whole number.
pub proof fn lemma_view_projection_round_trip(
    vp: ViewProjection,
    map: Point<i64>,
    width: int,
    height: int,
)
    requires
        vp.zoom.num >= 1,
        vp.zoom.den >= 1,
    ensures
        ({
            let rx = view_unproject_x(vp, view_project_x(vp, map.x as int, width), width);
            &&& 0 <= map.x - rx
            &&& (map.x - rx) * vp.zoom.num < vp.zoom.num + vp.zoom.den
            &&& vp.zoom.den == 1 ==> rx == map.x
        }),
        ({
            let ry = view_unproject_y(vp, view_project_y(vp, map.y as int, height), height);
            &&& 0 <= map.y - ry
            &&& (map.y - ry) * vp.zoom.num < vp.zoom.num + vp.zoom.den
            &&& vp.zoom.den == 1 ==> ry == map.y
        }),
{
    lemma_round_trip_axis(map.x as int, vp.center.x as int, vp.zoom, width);
    lemma_round_trip_axis(map.y as int, vp.center.y as int, vp.zoom, height);
}

/// One axis of the scroll law, for a whole-number zoom ratio whose scaled
/// center matches the half-viewport shift and a displacement the ratio
/// divides evenly.
proof fn lemma_scroll_shift_axis(m: int, c: int, c2: int, zoom: Zoom, dx: int, viewport: int)
    requires
        zoom.den == 1,
        zoom.num >= 1,
        c * zoom.num == half_trunc(viewport),
        (dx - half_trunc(viewport)) % (zoom.num as int) == 0,
        c2 == c + unproject_axis_spec(dx, c, zoom, viewport),
    ensures
        project_axis_spec(m, c2, zoom, viewport) == project_axis_spec(m, c, zoom, viewport) - dx,
{
    let n = zoom.num as int;
    let hw = half_trunc(viewport);
    let t = (dx - hw) / n;
    lemma_fundamental_div_mod(dx - hw, n);
    assert(dx - hw == n * t);
    assert(unproject_axis_spec(dx, c, zoom, viewport) == t + c) by {
        lemma_div_by_one(dx - hw);
        assert((dx - hw) * 1 == dx - hw) by (nonlinear_arith);
        assert(((dx - hw) * 1) / n == t);
    };
    assert(c2 == 2 * c + t);
    lemma_div_by_one((m - c) * n);
    lemma_div_by_one((m - c2) * n);
    assert(project_axis_spec(m, c, zoom, viewport) == (m - c) * n + hw);
    assert(project_axis_spec(m, c2, zoom, viewport) == (m - c2) * n + hw);
    assert((m - c2) * n == (m - c) * n - (c * n) - (t * n)) by (nonlinear_arith)
        requires
            c2 == 2 * c + t,
    ;
    assert(c * n == hw);
    assert(t * n == n * t) by (nonlinear_arith);
}

/// Scrolling the view by a pixel displacement shifts every point of the
/// rendered output by exactly the opposite of that displacement, whatever
/// the zoom level.
///
/// `vp2` is the view state that scrolling leaves behind: the center moved by
/// the unprojected displacement, the zoom unchanged. The law holds for the
/// states where the scroll step is exact: a whole-number zoom ratio that
/// evenly divides the shifted displacement, and a center whose scaled value
/// matches the half-viewport shift that unprojection folds into the delta.
pub proof fn lemma_scroll_shifts_rendering<P: Projection>(
    projection: P,
    vp: ViewProjection,
    vp2: ViewProjection,
    dx: int,
    dy: int,
    width: int,
    height: int,
    position: LatLon,
)
    requires
        vp.zoom.den == 1,
        vp.zoom.num >= 1,
        vp.center.x * vp.zoom.num == half_trunc(width),
        vp.center.y * vp.zoom.num == half_trunc(height),
        (dx - half_trunc(width)) % (vp.zoom.num as int) == 0,
        (dy - half_trunc(height)) % (vp.zoom.num as int) == 0,
        vp2.zoom == vp.zoom,
        vp2.center.x == vp.center.x + view_unproject_x(vp, dx, width),
        vp2.center.y == vp.center.y + view_unproject_y(vp, dy, height),
    ensures
        combined_project_x(projection, vp2, width, position) == combined_project_x(
            projection,
            vp,
            width,
            position,
        ) - dx,
        combined_project_y(projection, vp2, height, position) == combined_project_y(
            projection,
            vp,
            height,
            position,
        ) - dy,
{
    lemma_scroll_shift_axis(
        projection.spec_project_x(position),
        vp.center.x as int,
        vp2.center.x as int,
        vp.zoom,
        dx,
        width,
    );
    lemma_scroll_shift_axis(
        projection.spec_project_y(position),
        vp.center.y as int,
        vp2.center.y as int,
        vp.zoom,
        dy,
        height,
    );
}

} // verus!
