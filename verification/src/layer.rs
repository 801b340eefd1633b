//! Layers that can be drawn on the map.

use vstd::prelude::*;
use crate::LatLonRect;
use crate::projection::Projection;

verus! {

///
/// Trait for required functionality for map layers
///
/// The core only consumes this capability: a map hands each layer a
/// projection that maps between latitude/longitude and display coordinates,
/// together with the target pixel rectangle, and the layer renders itself.
pub trait Layer {
    ///
    /// Draws this layer
    ///
    /// The provided projection maps between latitude/longitude and
    /// display coordinates.
    ///
    fn draw<P: Projection>(&self, projection: &P, x: i32, y: i32, width: i32, height: i32);

    ///
    /// Returns a LatLonRect that bounds the items that this layer displays,
    /// or None if this layer's bounds are not known or if the layer covers
    /// the whole globe.
    ///
    fn bounds(&self) -> Option<LatLonRect>;
}

} // verus!
