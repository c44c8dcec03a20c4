use vstd::prelude::*;

verus! {

/// The three kinds of surface material.
#[derive(Debug, Clone, Copy, PartialEq, Eq, Structural)]
pub enum MaterialKind {
    /// Diffuse: scatters around the normal, attenuating by its albedo.
    Lambertian,
    /// Specular with fuzz: mirrors the incoming direction, perturbed by the fuzz.
    Metal,
    /// Glass: reflects or refracts, without tint.
    Dielectric,
}

/// Whether a material of `kind` scatters (rather than absorbs) the ray. `toward_normal`
/// says whether the dot product of the scattered direction and the surface normal is
/// strictly positive. Only metal absorbs, and only a ray that would go into the surface.
pub fn scatters(kind: MaterialKind, toward_normal: bool) -> (r: bool)
    ensures
        r == (kind != MaterialKind::Metal || toward_normal),
{
    match kind {
        MaterialKind::Metal => toward_normal,
        _ => true,
    }
}

/// Which way a ray crosses the boundary of a dielectric.
#[derive(Debug, Clone, Copy, PartialEq, Eq, Structural)]
pub enum Side {
    /// From outside into the medium: the outward normal is the surface normal and the
    /// index ratio is `1 / refractive_index`.
    Entering,
    /// From inside out of the medium: the outward normal is the negated surface normal
    /// and the index ratio is `refractive_index`.
    Exiting,
}

/// The side a ray meets a dielectric from. `dot_positive` says whether the dot product
/// of the ray's direction and the surface normal is strictly positive; a grazing ray
/// (dot product zero) counts as entering.
pub fn medium_side(dot_positive: bool) -> (r: Side)
    ensures
        dot_positive <==> r == Side::Exiting,
{
    if dot_positive {
        Side::Exiting
    } else {
        Side::Entering
    }
}

/// The ray a dielectric sends out.
#[derive(Debug, Clone, Copy, PartialEq, Eq, Structural)]
pub enum Outgoing {
    /// The mirror reflection of the incoming direction.
    Reflected,
    /// The direction bent by Snell's law.
    Refracted,
}

/// Chooses between reflection and refraction at a dielectric. `refracts` says whether
/// Snell's law gives a refracted direction (its discriminant is strictly positive);
/// `draw_below_reflectance` whether the uniform draw in `[0, 1)` fell below the Schlick
/// reflectance. Total internal reflection forces reflection, whatever was drawn.
pub fn dielectric_outgoing(refracts: bool, draw_below_reflectance: bool) -> (r: Outgoing)
    ensures
        r == Outgoing::Reflected <==> (!refracts || draw_below_reflectance),
{
    if refracts && !draw_below_reflectance {
        Outgoing::Refracted
    } else {
        Outgoing::Reflected
    }
}

} // verus!
