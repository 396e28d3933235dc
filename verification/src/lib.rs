//! Interactive viewer state for escape-time fractal rendering.
//!
//! The library holds the navigation state of a Mandelbrot / Julia viewer
//! (zoom, center, Julia seed, palette offset, active set), the routing of
//! key events to state changes with redraw gating, the event dispatcher
//! of the application, and an exact fixed-point model of the two
//! escape-time kernels.

pub mod controller;
pub mod input;
pub mod kernel;
pub mod laws;
pub mod rat;
pub mod state;
pub mod zoomstep;

use vstd::prelude::*;

verus! {

/// Which fractal set the viewer draws.
#[derive(Clone, Copy, PartialEq, Eq, Structural, Debug)]
pub enum FractalSet {
    Mandelbrot,
    Julia,
}

impl FractalSet {
    /// The set's name, as the status text prints it.
    pub fn name(&self) -> (r: &'static str)
        ensures
            self is Mandelbrot ==> r@ == "Mandelbrot"@,
            self is Julia ==> r@ == "Julia"@,
    {
        match self {
            FractalSet::Mandelbrot => "Mandelbrot",
            FractalSet::Julia => "Julia",
        }
    }
}

} // verus!
