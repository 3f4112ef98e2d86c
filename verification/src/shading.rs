//! The shading policies, and what each of them paints for a ray.

use vstd::prelude::*;
use crate::color::Color;

verus! {

/// How a render turns a ray into a colour.
#[derive(Clone, Copy, Debug, PartialEq, Eq)]
pub enum Shading {
    /// One solid colour where the ray hits the sphere, the sky elsewhere.
    SolidHit,
    /// The surface normal at the hit point shown as a colour, the sky
    /// elsewhere.
    NormalVisualization,
    /// The sky everywhere, whatever the ray hits.
    GradientSky,
}

/// What is painted for one ray.
#[derive(Clone, Copy, Debug, PartialEq, Eq)]
pub enum Paint {
    /// The solid colour of a hit.
    Solid,
    /// The colour that shows the surface normal at the hit point.
    SurfaceNormal,
    /// The gradient of the sky along the ray's direction.
    Sky,
}

impl Shading {
    /// What the policy paints for a ray, given whether the ray hits the
    /// sphere at a distance above zero.
    pub open spec fn paint_spec(self, hit: bool) -> Paint {
        match self {
            Shading::SolidHit if hit => Paint::Solid,
            Shading::NormalVisualization if hit => Paint::SurfaceNormal,
            _ => Paint::Sky,
        }
    }

    /// Chooses what to paint for a ray. `hit` says whether the ray hits the
    /// sphere at a distance above zero.
    pub fn paint(self, hit: bool) -> (paint: Paint)
        ensures
            paint == self.paint_spec(hit),
            !hit ==> paint == Paint::Sky,
            self == Shading::GradientSky ==> paint == Paint::Sky,
    {
        if hit {
            match self {
                Shading::SolidHit => Paint::Solid,
                Shading::NormalVisualization => Paint::SurfaceNormal,
                Shading::GradientSky => Paint::Sky,
            }
        } else {
            Paint::Sky
        }
    }
}

/// The solid colour of a hit: red at full intensity, no green, no blue.
pub fn solid_color() -> (color: Color)
    ensures
        color == (Color { red: 255, green: 0, blue: 0 }),
{
    Color::new(255, 0, 0)
}

} // verus!
