//! A simple plate carrée equirectangular projection.

use vstd::prelude::*;
use crate::{LatLon, Latitude, Longitude, Point};
use crate::projection::Projection;

verus! {

///
/// A simple plate carrée equirectangular projection
///
/// Longitude is used verbatim as the plane X coordinate and latitude as the
/// plane Y coordinate, so the transform is globally bijective on raw,
/// non-normalized values.
pub struct EquirectangularProjection;

impl Projection for EquirectangularProjection {
    open spec fn can_project(self, position: LatLon) -> bool {
        true
    }

    open spec fn spec_project_x(self, position: LatLon) -> int {
        position.longitude.0 as int
    }

    open spec fn spec_project_y(self, position: LatLon) -> int {
        position.latitude.0 as int
    }

    open spec fn can_unproject(self, position: Point<i64>) -> bool {
        true
    }

    open spec fn spec_unproject_latitude(self, position: Point<i64>) -> int {
        position.y as int
    }

    open spec fn spec_unproject_longitude(self, position: Point<i64>) -> int {
        position.x as int
    }

    fn project(&self, position: &LatLon) -> (r: Point<i64>) {
        Point { x: position.longitude.0, y: position.latitude.0 }
    }

    fn unproject(&self, position: &Point<i64>) -> (r: LatLon) {
        LatLon { latitude: Latitude(position.y), longitude: Longitude(position.x) }
    }
}

/// The equirectangular transforms are exact mutual inverses: unprojecting a
/// projected position recovers it, and projecting an unprojected plane point
/// recovers that, for every input.
pub proof fn lemma_equirectangular_round_trip(
    p: EquirectangularProjection,
    position: LatLon,
    plane: Point<i64>,
)
    ensures
        ({
            let projected = (Point::<i64> {
                x: p.spec_project_x(position) as i64,
                y: p.spec_project_y(position) as i64,
            });
            p.spec_unproject_latitude(projected) == position.latitude.0
                && p.spec_unproject_longitude(projected) == position.longitude.0
        }),
        ({
            let unprojected = (LatLon {
                latitude: Latitude(p.spec_unproject_latitude(plane) as i64),
                longitude: Longitude(p.spec_unproject_longitude(plane) as i64),
            });
            p.spec_project_x(unprojected) == plane.x && p.spec_project_y(unprojected) == plane.y
        }),
{
}

} // verus!
