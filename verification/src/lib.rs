//! Converts geographic positions (latitude/longitude on a sphere) into planar
//! coordinates usable for rendering a map, and back.
//!
//! Angles and coordinates are exact fixed-point values: one unit is a
//! millionth of a degree, so a whole degree is `DEGREE` units. The spherical
//! projections, the pan/zoom viewport transform and their composition are all
//! stated and proved over this representation.

use vstd::prelude::*;
use vstd::arithmetic::div_mod::{
    lemma_fundamental_div_mod, lemma_fundamental_div_mod_converse,
    lemma_mod_division_less_than_divisor,
};

/// Integer helpers: floor division, Euclidean remainder, truncating halving.
pub mod arith;
/// Provides projections between a sphere and the map view
pub mod projection;
/// Implements a simple equirectangular projection
pub mod equirectangular;
/// Layers that can be drawn on the map
pub mod layer;
/// Represents a map
pub mod map;

verus! {

/// Fixed-point units in one degree.
pub const DEGREE: i64 = 1_000_000;

/// A quarter turn: 90 degrees in fixed-point units.
pub const QUARTER_TURN: i64 = 90_000_000;

/// A half turn: 180 degrees in fixed-point units.
pub const HALF_TURN: i64 = 180_000_000;

/// A full turn: 360 degrees in fixed-point units.
pub const FULL_TURN: i64 = 360_000_000;

/// Represents a latitude, in millionths of a degree
#[derive(Debug, Copy, Clone, PartialEq, Eq, Structural)]
pub struct Latitude(pub i64);

/// Represents a longitude, in millionths of a degree
#[derive(Debug, Copy, Clone, PartialEq, Eq, Structural)]
pub struct Longitude(pub i64);

impl Latitude {
    /// Adds two latitudes; the sum is not normalized.
    pub fn add(self, rhs: Self) -> (r: Self)
        requires
            i64::MIN <= self.0 + rhs.0 <= i64::MAX,
        ensures
            r.0 == self.0 + rhs.0,
    {
        Latitude(self.0 + rhs.0)
    }

    /// Subtracts a latitude; the difference is not normalized.
    pub fn sub(self, rhs: Self) -> (r: Self)
        requires
            i64::MIN <= self.0 - rhs.0 <= i64::MAX,
        ensures
            r.0 == self.0 - rhs.0,
    {
        Latitude(self.0 - rhs.0)
    }
}

impl Longitude {
    /// Adds two longitudes; the sum is not normalized.
    pub fn add(self, rhs: Self) -> (r: Self)
        requires
            i64::MIN <= self.0 + rhs.0 <= i64::MAX,
        ensures
            r.0 == self.0 + rhs.0,
    {
        Longitude(self.0 + rhs.0)
    }

    /// Subtracts a longitude; the difference is not normalized.
    pub fn sub(self, rhs: Self) -> (r: Self)
        requires
            i64::MIN <= self.0 - rhs.0 <= i64::MAX,
        ensures
            r.0 == self.0 - rhs.0,
    {
        Longitude(self.0 - rhs.0)
    }
}

impl From<i64> for Latitude {
    /// Wraps a raw fixed-point value as a latitude, losslessly.
    fn from(value: i64) -> (r: Self) {
        Latitude(value)
    }
}

impl vstd::std_specs::convert::FromSpecImpl<i64> for Latitude {
    open spec fn obeys_from_spec() -> bool {
        true
    }

    open spec fn from_spec(value: i64) -> Self {
        Latitude(value)
    }
}

impl From<i64> for Longitude {
    /// Wraps a raw fixed-point value as a longitude, losslessly.
    fn from(value: i64) -> (r: Self) {
        Longitude(value)
    }
}

impl vstd::std_specs::convert::FromSpecImpl<i64> for Longitude {
    open spec fn obeys_from_spec() -> bool {
        true
    }

    open spec fn from_spec(value: i64) -> Self {
        Longitude(value)
    }
}

impl From<Latitude> for i64 {
    /// Unwraps the raw fixed-point value of a latitude, losslessly.
    fn from(value: Latitude) -> (r: i64) {
        value.0
    }
}

impl vstd::std_specs::convert::FromSpecImpl<Latitude> for i64 {
    open spec fn obeys_from_spec() -> bool {
        true
    }

    open spec fn from_spec(value: Latitude) -> i64 {
        value.0
    }
}

impl From<Longitude> for i64 {
    /// Unwraps the raw fixed-point value of a longitude, losslessly.
    fn from(value: Longitude) -> (r: i64) {
        value.0
    }
}

impl vstd::std_specs::convert::FromSpecImpl<Longitude> for i64 {
    open spec fn obeys_from_spec() -> bool {
        true
    }

    open spec fn from_spec(value: Longitude) -> i64 {
        value.0
    }
}

/// The value a longitude normalizes to: congruent modulo a full turn and
/// within the half-open range `(-HALF_TURN, HALF_TURN]`.
pub open spec fn wrap_longitude(x: int) -> int {
    let r = x % (FULL_TURN as int);
    if r > HALF_TURN as int {
        r - FULL_TURN as int
    } else {
        r
    }
}

/// The value a latitude normalizes to: out-of-range values are folded back
/// by reflecting through the pole they passed over, into
/// `[-QUARTER_TURN, QUARTER_TURN]`.
pub open spec fn fold_latitude(x: int) -> int {
    let r = wrap_longitude(x);
    if r > QUARTER_TURN as int {
        HALF_TURN as int - r
    } else if r < -(QUARTER_TURN as int) {
        -(HALF_TURN as int) - r
    } else {
        r
    }
}

/// Wrapping leaves any value already in `(-HALF_TURN, HALF_TURN]` unchanged.
pub proof fn lemma_wrap_identity(x: int)
    requires
        -(HALF_TURN as int) < x <= HALF_TURN as int,
    ensures
        wrap_longitude(x) == x,
{
    if x >= 0 {
        lemma_fundamental_div_mod_converse(x, FULL_TURN as int, 0, x);
    } else {
        lemma_fundamental_div_mod_converse(x, FULL_TURN as int, -1, x + FULL_TURN as int);
    }
}

/// Wrapping depends only on the value's residue modulo a full turn.
pub proof fn lemma_wrap_congruent(x: int, y: int)
    requires
        x % (FULL_TURN as int) == y % (FULL_TURN as int),
    ensures
        wrap_longitude(x) == wrap_longitude(y),
        fold_latitude(x) == fold_latitude(y),
{
}

/// Normalizes a latitude into the range [-90, 90] degrees, folding values
/// that pass over a pole back toward the equator.
pub fn normalize_latitude(latitude: Latitude) -> (r: Latitude)
    ensures
        r.0 == fold_latitude(latitude.0 as int),
        -QUARTER_TURN <= r.0 <= QUARTER_TURN,
        -QUARTER_TURN <= latitude.0 <= QUARTER_TURN ==> r.0 == latitude.0,
{
    let m = arith::rem_euclid_i64(latitude.0, FULL_TURN);
    let w: i64 = if m > HALF_TURN {
        m - FULL_TURN
    } else {
        m
    };
    proof {
        lemma_mod_division_less_than_divisor(latitude.0 as int, FULL_TURN as int);
        if -QUARTER_TURN <= latitude.0 <= QUARTER_TURN {
            lemma_wrap_identity(latitude.0 as int);
        }
    }
    if w > QUARTER_TURN {
        Latitude(HALF_TURN - w)
    } else if w < -QUARTER_TURN {
        Latitude(-HALF_TURN - w)
    } else {
        Latitude(w)
    }
}

/// Normalizes a longitude into the range (-180, 180] degrees, wrapping
/// across the antimeridian.
pub fn normalize_longitude(longitude: Longitude) -> (r: Longitude)
    ensures
        r.0 == wrap_longitude(longitude.0 as int),
        -HALF_TURN < r.0 <= HALF_TURN,
        -HALF_TURN < longitude.0 <= HALF_TURN ==> r.0 == longitude.0,
{
    let m = arith::rem_euclid_i64(longitude.0, FULL_TURN);
    proof {
        lemma_mod_division_less_than_divisor(longitude.0 as int, FULL_TURN as int);
        if -HALF_TURN < longitude.0 <= HALF_TURN {
            lemma_wrap_identity(longitude.0 as int);
        }
    }
    if m > HALF_TURN {
        Longitude(m - FULL_TURN)
    } else {
        Longitude(m)
    }
}

/// Stores a latitude and longitude
#[derive(Debug, Copy, Clone, PartialEq, Eq, Structural)]
pub struct LatLon {
    /// Latitude, millionths of a degree
    pub latitude: Latitude,
    /// Longitude, millionths of a degree
    pub longitude: Longitude,
}

impl LatLon {
    /// Returns a LatLon that is diametrically opposite from this (on the
    /// other side of the planet): both components move half a turn and are
    /// then normalized through the spherical normalization functions.
    pub fn antipode(&self) -> (r: LatLon)
        ensures
            r.latitude.0 == fold_latitude(self.latitude.0 + HALF_TURN),
            r.longitude.0 == wrap_longitude(self.longitude.0 + HALF_TURN),
    {
        let lat_wrapped = arith::rem_euclid_i64(self.latitude.0, FULL_TURN);
        let lon_wrapped = arith::rem_euclid_i64(self.longitude.0, FULL_TURN);
        proof {
            lemma_congruent_after_shift(self.latitude.0 as int, HALF_TURN as int);
            lemma_congruent_after_shift(self.longitude.0 as int, HALF_TURN as int);
            lemma_wrap_congruent(lat_wrapped + HALF_TURN, self.latitude.0 + HALF_TURN);
            lemma_wrap_congruent(lon_wrapped + HALF_TURN, self.longitude.0 + HALF_TURN);
        }
        LatLon {
            latitude: normalize_latitude(Latitude(lat_wrapped + HALF_TURN)),
            longitude: normalize_longitude(Longitude(lon_wrapped + HALF_TURN)),
        }
    }
}

///
/// A rectangle in latitude and longitude
///
/// The bounds are four independent scalars; nothing is enforced between
/// them, and a region crossing the antimeridian cannot be represented.
#[derive(Debug, Copy, Clone, PartialEq, Eq, Structural)]
pub struct LatLonRect {
    /// The north latitude (meant to stay >= south)
    north: Latitude,
    /// The south latitude
    south: Latitude,
    /// The east longitude (meant to stay >= west)
    east: Longitude,
    /// The west longitude
    west: Longitude,
}

impl LatLonRect {
    /// The northern bound.
    pub closed spec fn spec_north(self) -> Latitude {
        self.north
    }

    /// The southern bound.
    pub closed spec fn spec_south(self) -> Latitude {
        self.south
    }

    /// The eastern bound.
    pub closed spec fn spec_east(self) -> Longitude {
        self.east
    }

    /// The western bound.
    pub closed spec fn spec_west(self) -> Longitude {
        self.west
    }

    /// Builds a rectangle from its four bounds.
    pub fn from_bounds(north: Latitude, south: Latitude, east: Longitude, west: Longitude) -> (r:
        LatLonRect)
        ensures
            r.spec_north() == north,
            r.spec_south() == south,
            r.spec_east() == east,
            r.spec_west() == west,
    {
        LatLonRect { north, south, east, west }
    }

    /// Builds a rectangle from its northwest and southeast corners.
    pub fn from_corners(northwest: &LatLon, southeast: &LatLon) -> (r: LatLonRect)
        ensures
            r.spec_north() == northwest.latitude,
            r.spec_south() == southeast.latitude,
            r.spec_east() == southeast.longitude,
            r.spec_west() == northwest.longitude,
    {
        LatLonRect {
            north: northwest.latitude,
            south: southeast.latitude,
            east: southeast.longitude,
            west: northwest.longitude,
        }
    }

    /// Returns the northern bound.
    pub fn north(&self) -> (r: Latitude)
        ensures
            r == self.spec_north(),
    {
        self.north
    }

    /// Returns the southern bound.
    pub fn south(&self) -> (r: Latitude)
        ensures
            r == self.spec_south(),
    {
        self.south
    }

    /// Returns the eastern bound.
    pub fn east(&self) -> (r: Longitude)
        ensures
            r == self.spec_east(),
    {
        self.east
    }

    /// Returns the western bound.
    pub fn west(&self) -> (r: Longitude)
        ensures
            r == self.spec_west(),
    {
        self.west
    }

    /// Replaces the northern bound.
    pub fn set_north(&mut self, north: Latitude)
        ensures
            final(self).spec_north() == north,
            final(self).spec_south() == old(self).spec_south(),
            final(self).spec_east() == old(self).spec_east(),
            final(self).spec_west() == old(self).spec_west(),
    {
        self.north = north
    }

    /// Replaces the southern bound.
    pub fn set_south(&mut self, south: Latitude)
        ensures
            final(self).spec_south() == south,
            final(self).spec_north() == old(self).spec_north(),
            final(self).spec_east() == old(self).spec_east(),
            final(self).spec_west() == old(self).spec_west(),
    {
        self.south = south
    }

    /// Replaces the eastern bound.
    pub fn set_east(&mut self, east: Longitude)
        ensures
            final(self).spec_east() == east,
            final(self).spec_north() == old(self).spec_north(),
            final(self).spec_south() == old(self).spec_south(),
            final(self).spec_west() == old(self).spec_west(),
    {
        self.east = east
    }

    /// Replaces the western bound.
    pub fn set_west(&mut self, west: Longitude)
        ensures
            final(self).spec_west() == west,
            final(self).spec_north() == old(self).spec_north(),
            final(self).spec_south() == old(self).spec_south(),
            final(self).spec_east() == old(self).spec_east(),
    {
        self.west = west
    }
}

/// Stores a point
#[derive(Debug, Copy, Clone, PartialEq, Eq, Structural)]
pub struct Point<N> {
    /// X coordinate
    pub x: N,
    /// Y coordinate
    pub y: N,
}

impl Point<i64> {
    /// Returns a point at (0, 0)
    pub fn origin() -> (r: Point<i64>)
        ensures
            r.x == 0,
            r.y == 0,
    {
        Point { x: 0, y: 0 }
    }

    /// Componentwise vector addition.
    pub fn add(self, rhs: Self) -> (r: Self)
        requires
            i64::MIN <= self.x + rhs.x <= i64::MAX,
            i64::MIN <= self.y + rhs.y <= i64::MAX,
        ensures
            r.x == self.x + rhs.x,
            r.y == self.y + rhs.y,
    {
        Point { x: self.x + rhs.x, y: self.y + rhs.y }
    }

    /// Componentwise vector subtraction.
    pub fn sub(self, rhs: Self) -> (r: Self)
        requires
            i64::MIN <= self.x - rhs.x <= i64::MAX,
            i64::MIN <= self.y - rhs.y <= i64::MAX,
        ensures
            r.x == self.x - rhs.x,
            r.y == self.y - rhs.y,
    {
        Point { x: self.x - rhs.x, y: self.y - rhs.y }
    }

    /// Uniform scaling by a scalar factor.
    pub fn mul(self, rhs: i64) -> (r: Self)
        requires
            i64::MIN <= self.x * rhs <= i64::MAX,
            i64::MIN <= self.y * rhs <= i64::MAX,
        ensures
            r.x == self.x * rhs,
            r.y == self.y * rhs,
    {
        Point { x: self.x * rhs, y: self.y * rhs }
    }
}

///
/// A polygon
///
/// P is the type used to represent a point
///
pub struct Polygon<P> {
    /// The points in this polygon, in drawing order
    points: Vec<P>,
}

impl<P> Polygon<P> {
    /// The vertex sequence, in order.
    pub closed spec fn vertices(self) -> Seq<P> {
        self.points@
    }

    /// Borrows the vertices, preserving order and count.
    pub fn points(&self) -> (r: &[P])
        ensures
            r@ == self.vertices(),
    {
        self.points.as_slice()
    }
}

impl<P: Copy> Polygon<P> {
    /// Builds a polygon from a slice of vertices, preserving order and count.
    pub fn new(points: &[P]) -> (r: Polygon<P>)
        ensures
            r.vertices() == points@,
    {
        let mut v: Vec<P> = Vec::new();
        let mut i: usize = 0;
        while i < points.len()
            invariant
                i <= points@.len(),
                v@ == points@.subrange(0, i as int),
            decreases points@.len() - i,
        {
            v.push(points[i]);
            i = i + 1;
        }
        proof {
            assert(v@ =~= points@);
        }
        Polygon { points: v }
    }
}

/// Shifting by a constant preserves congruence with the shifted original:
/// `(x % m) + s` and `x + s` have the same residue modulo a full turn.
proof fn lemma_congruent_after_shift(x: int, s: int)
    ensures
        (x % (FULL_TURN as int) + s) % (FULL_TURN as int) == (x + s) % (FULL_TURN as int),
{
    lemma_fundamental_div_mod(x, FULL_TURN as int);
    let q = x / (FULL_TURN as int);
    assert(x % (FULL_TURN as int) + s == (x + s) + (-q) * (FULL_TURN as int)) by {
        assert((-q) * (FULL_TURN as int) == -(FULL_TURN as int * q)) by (nonlinear_arith);
    };
    lemma_mod_multiples_vanish_helper(-q, x % (FULL_TURN as int) + s);
}

/// A multiple of the modulus vanishes from a sum's residue.
proof fn lemma_mod_multiples_vanish_helper(a: int, b: int)
    ensures
        (b - a * (FULL_TURN as int)) % (FULL_TURN as int) == b % (FULL_TURN as int),
{
    vstd::arithmetic::div_mod::lemma_mod_multiples_vanish(-a, b, FULL_TURN as int);
}

} // verus!
