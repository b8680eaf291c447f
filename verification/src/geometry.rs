//! The fixed geometry: one triangle and one clear colour.
//!
//! Coordinates and colour channels are kept in hundredths of a unit, so
//! that the exact values can be stated and proved; the driver divides by
//! `COORD_SCALE` when it uploads the data.

use vstd::prelude::*;

verus! {

/// Denominator of the fixed-point coordinates and colour channels.
pub const COORD_SCALE: i32 = 100;

/// One vertex position, in hundredths of a normalized-device unit.
#[derive(Clone, Copy, Debug, PartialEq, Eq, Structural)]
pub struct Vertex {
    pub x_hundredths: i32,
    pub y_hundredths: i32,
}

/// A clear colour, each channel in hundredths (0 .. 100).
#[derive(Clone, Copy, Debug, PartialEq, Eq, Structural)]
pub struct ClearColor {
    pub red_hundredths: i32,
    pub green_hundredths: i32,
    pub blue_hundredths: i32,
    pub alpha_hundredths: i32,
}

/// The triangle: (-0.50, -0.25), (0.00, 0.50), (0.25, -0.10).
pub open spec fn spec_triangle_vertices() -> Seq<Vertex> {
    seq![
        Vertex { x_hundredths: -50i32, y_hundredths: -25i32 },
        Vertex { x_hundredths: 0, y_hundredths: 50 },
        Vertex { x_hundredths: 25, y_hundredths: -10i32 },
    ]
}

/// The vertex data uploaded once and drawn every frame.
pub fn triangle_vertices() -> (v: Vec<Vertex>)
    ensures
        v@ == spec_triangle_vertices(),
{
    let v: Vec<Vertex> = vec![
        Vertex { x_hundredths: -50i32, y_hundredths: -25i32 },
        Vertex { x_hundredths: 0, y_hundredths: 50 },
        Vertex { x_hundredths: 25, y_hundredths: -10i32 },
    ];
    proof {
        assert(v@ =~= spec_triangle_vertices());
    }
    v
}

/// The colour every frame is cleared to: opaque blue.
pub fn clear_color() -> (c: ClearColor)
    ensures
        c.red_hundredths == 0,
        c.green_hundredths == 0,
        c.blue_hundredths == 100,
        c.alpha_hundredths == 100,
{
    ClearColor { red_hundredths: 0, green_hundredths: 0, blue_hundredths: 100, alpha_hundredths: 100 }
}

/// The triangle's contents are fixed: exactly three vertices, with these
/// coordinates, independent of any frame-loop state. Nothing in the crate
/// mutates them; every call of `triangle_vertices` yields this sequence.
pub proof fn lemma_triangle_vertices_fixed()
    ensures
        spec_triangle_vertices().len() == 3,
        spec_triangle_vertices()[0] == (Vertex { x_hundredths: -50i32, y_hundredths: -25i32 }),
        spec_triangle_vertices()[1] == (Vertex { x_hundredths: 0, y_hundredths: 50 }),
        spec_triangle_vertices()[2] == (Vertex { x_hundredths: 25, y_hundredths: -10i32 }),
{
}

} // verus!
