//! Sample plugin values for exercising a reload by hand.
//!
//! A host that wants to see a reload take effect builds its plugin
//! library once with each of two variants and watches the loaded value
//! change. The variants carry no behaviour of their own; the host layer
//! keeps mirror types implementing its plugin interface and converts.

use vstd::prelude::*;

verus! {

/// The first sample plugin variant. It records a type-identity marker
/// observed when the plugin value was produced, so a host can check
/// which build of the interface type the loaded code saw.
#[derive(Clone, Copy, Debug)]
pub struct PluginA {
    typeid_of_x: u64,
}

impl View for PluginA {
    type V = u64;

    closed spec fn view(&self) -> u64 {
        self.typeid_of_x
    }
}

impl PluginA {
    /// Wraps the marker the producing build observed.
    pub fn new(typeid_of_x: u64) -> (r: PluginA)
        ensures
            r@ == typeid_of_x,
    {
        PluginA { typeid_of_x }
    }

    /// The recorded type-identity marker.
    pub fn typeid_of_x(&self) -> (r: u64)
        ensures
            r == self@,
    {
        self.typeid_of_x
    }
}

/// The second sample plugin variant, distinguishable from the first by
/// its type alone.
#[derive(Clone, Copy, Debug, PartialEq, Eq, Structural)]
pub struct PluginB {}

} // verus!
