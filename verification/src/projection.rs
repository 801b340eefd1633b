//! The projection capability: a bidirectional transform between spherical
//! coordinates and planar map coordinates.

use vstd::prelude::*;
use crate::{LatLon, Point, Polygon};

verus! {

/// A trait for projections
///
/// Each implementation fixes, as spec functions, the exact planar point a
/// position projects to and the exact position a planar point unprojects to;
/// `project` and `unproject` are proved to compute those values whenever the
/// arithmetic fits machine integers (`can_project` / `can_unproject`).
pub trait Projection: Sized {
    /// Whether the projection arithmetic for `position` stays in range.
    spec fn can_project(self, position: LatLon) -> bool;

    /// X coordinate, in map units, that `position` projects to.
    spec fn spec_project_x(self, position: LatLon) -> int;

    /// Y coordinate, in map units, that `position` projects to.
    spec fn spec_project_y(self, position: LatLon) -> int;

    /// Whether the unprojection arithmetic for `position` stays in range.
    spec fn can_unproject(self, position: Point<i64>) -> bool;

    /// Latitude, in fixed-point units, that `position` unprojects to.
    spec fn spec_unproject_latitude(self, position: Point<i64>) -> int;

    /// Longitude, in fixed-point units, that `position` unprojects to.
    spec fn spec_unproject_longitude(self, position: Point<i64>) -> int;

    /// Projects a latitude/longitude point into map coordinates
    fn project(&self, position: &LatLon) -> (r: Point<i64>)
        requires
            self.can_project(*position),
        ensures
            r.x == self.spec_project_x(*position),
            r.y == self.spec_project_y(*position),
    ;

    /// Unprojects a point from map coordinates to latitude/longitude
    fn unproject(&self, position: &Point<i64>) -> (r: LatLon)
        requires
            self.can_unproject(*position),
        ensures
            r.latitude.0 == self.spec_unproject_latitude(*position),
            r.longitude.0 == self.spec_unproject_longitude(*position),
    ;

    /// Projects a whole polygon by mapping the scalar projection over every
    /// vertex, preserving vertex order and count
    fn project_polygon(&self, polygon: &Polygon<LatLon>) -> (r: Polygon<Point<i64>>)
        requires
            forall|i: int|
                0 <= i < polygon.vertices().len() ==> self.can_project(
                    #[trigger] polygon.vertices()[i],
                ),
        ensures
            r.vertices().len() == polygon.vertices().len(),
            forall|i: int|
                0 <= i < polygon.vertices().len() ==> (#[trigger] r.vertices()[i]).x
                    == self.spec_project_x(polygon.vertices()[i]) && r.vertices()[i].y
                    == self.spec_project_y(polygon.vertices()[i]),
    {
        let vertices = polygon.points();
        let mut projected: Vec<Point<i64>> = Vec::new();
        let mut j: usize = 0;
        while j < vertices.len()
            invariant
                j <= vertices@.len(),
                projected@.len() == j,
                vertices@ == polygon.vertices(),
                forall|i: int|
                    0 <= i < polygon.vertices().len() ==> self.can_project(
                        #[trigger] polygon.vertices()[i],
                    ),
                forall|i: int|
                    0 <= i < j ==> (#[trigger] projected@[i]).x == self.spec_project_x(
                        polygon.vertices()[i],
                    ) && projected@[i].y == self.spec_project_y(polygon.vertices()[i]),
            decreases vertices@.len() - j,
        {
            projected.push(self.project(&vertices[j]));
            j = j + 1;
        }
        Polygon::new(projected.as_slice())
    }

    /// Unprojects a whole polygon by mapping the scalar unprojection over
    /// every vertex, preserving vertex order and count
    fn unproject_polygon(&self, polygon: &Polygon<Point<i64>>) -> (r: Polygon<LatLon>)
        requires
            forall|i: int|
                0 <= i < polygon.vertices().len() ==> self.can_unproject(
                    #[trigger] polygon.vertices()[i],
                ),
        ensures
            r.vertices().len() == polygon.vertices().len(),
            forall|i: int|
                0 <= i < polygon.vertices().len() ==> (#[trigger] r.vertices()[i]).latitude.0
                    == self.spec_unproject_latitude(polygon.vertices()[i])
                    && r.vertices()[i].longitude.0 == self.spec_unproject_longitude(
                    polygon.vertices()[i],
                ),
    {
        let vertices = polygon.points();
        let mut unprojected: Vec<LatLon> = Vec::new();
        let mut j: usize = 0;
        while j < vertices.len()
            invariant
                j <= vertices@.len(),
                unprojected@.len() == j,
                vertices@ == polygon.vertices(),
                forall|i: int|
                    0 <= i < polygon.vertices().len() ==> self.can_unproject(
                        #[trigger] polygon.vertices()[i],
                    ),
                forall|i: int|
                    0 <= i < j ==> (#[trigger] unprojected@[i]).latitude.0
                        == self.spec_unproject_latitude(polygon.vertices()[i])
                        && unprojected@[i].longitude.0 == self.spec_unproject_longitude(
                        polygon.vertices()[i],
                    ),
            decreases vertices@.len() - j,
        {
            unprojected.push(self.unproject(&vertices[j]));
            j = j + 1;
        }
        Polygon::new(unprojected.as_slice())
    }
}

} // verus!
