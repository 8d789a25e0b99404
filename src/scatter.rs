use vstd::prelude::*;

verus! {

/// The side of a surface that a ray meets.
#[derive(Debug, Clone, Copy, PartialEq, Eq, Structural)]
pub enum Face {
    /// The ray arrives against the outward normal: it comes from outside.
    Front,
    /// The ray travels along the outward normal: it comes from inside.
    Back,
}

impl Face {
    /// The face that a ray meets, given whether its direction has a positive
    /// component along the surface's outward normal.
    pub fn of_incidence(along_normal: bool) -> (r: Face)
        ensures
            r == (if along_normal {
                Face::Back
            } else {
                Face::Front
            }),
    {
        if along_normal {
            Face::Back
        } else {
            Face::Front
        }
    }
}

/// The kind of event that turns an incident ray into the next ray of a path.
#[derive(Debug, Clone, Copy, PartialEq, Eq, Structural)]
pub enum Scatter {
    Diffuse,
    Specular,
    Refract,
}

/// The two-stage choice of a scattering event: a refraction attempt when the
/// first draw fell below the material's transmissibility; otherwise a
/// specular reflection when the second draw fell below its coherency, and a
/// diffuse one when it did not.
pub open spec fn chosen_scatter(transmits: bool, coherent: bool) -> Scatter {
    if transmits {
        Scatter::Refract
    } else if coherent {
        Scatter::Specular
    } else {
        Scatter::Diffuse
    }
}

impl Scatter {
    /// Chooses the event from the outcomes of the two draws (see
    /// `chosen_scatter`).
    pub fn select(transmits: bool, coherent: bool) -> (r: Scatter)
        ensures
            r == chosen_scatter(transmits, coherent),
    {
        if transmits {
            Scatter::Refract
        } else if coherent {
            Scatter::Specular
        } else {
            Scatter::Diffuse
        }
    }
}

/// Whether a refraction attempt bends the ray through the surface or, past the
/// critical angle, reflects it back (total internal reflection).
#[derive(Debug, Clone, Copy, PartialEq, Eq, Structural)]
pub enum Refract {
    Refract,
    Reflect,
}

/// The refractive indices on the two sides of a surface, seen from the
/// incoming ray, and whether the surface normal must be turned round to face
/// that ray.
#[derive(Debug)]
pub struct Interface<T> {
    pub eta_in: T,
    pub eta_out: T,
    pub flip_normal: bool,
}

/// Through a front face the ray leaves its own medium for the material; through
/// a back face it leaves the material for the outside medium, against the
/// flipped normal.
pub open spec fn interface_of<T>(face: Face, ray_medium: T, material_index: T, outside_index: T) -> Interface<T> {
    match face {
        Face::Front => Interface { eta_in: ray_medium, eta_out: material_index, flip_normal: false },
        Face::Back => Interface { eta_in: material_index, eta_out: outside_index, flip_normal: true },
    }
}

/// The medium of the ray that leaves the surface: the far side's when it
/// refracts, the near side's when it is reflected.
pub open spec fn medium_after_spec<T>(iface: Interface<T>, outcome: Refract) -> T {
    match outcome {
        Refract::Refract => iface.eta_out,
        Refract::Reflect => iface.eta_in,
    }
}

impl<T: Copy> Interface<T> {
    /// The interface met through `face` by a ray in `ray_medium`, for a
    /// material of index `material_index` surrounded by `outside_index`.
    pub fn new(face: Face, ray_medium: T, material_index: T, outside_index: T) -> (r: Self)
        ensures
            r == interface_of(face, ray_medium, material_index, outside_index),
    {
        match face {
            Face::Front => Interface { eta_in: ray_medium, eta_out: material_index, flip_normal: false },
            Face::Back => Interface { eta_in: material_index, eta_out: outside_index, flip_normal: true },
        }
    }

    /// The medium of the ray that leaves the surface.
    pub fn medium_after(&self, outcome: Refract) -> (r: T)
        ensures
            r == medium_after_spec(*self, outcome),
    {
        match outcome {
            Refract::Refract => self.eta_out,
            Refract::Reflect => self.eta_in,
        }
    }
}

/// A refracted ray entering through a front face travels in the material; one
/// leaving through a back face travels in the outside medium; a totally
/// internally reflected ray stays in the medium it arrived in.
pub proof fn lemma_refraction_medium<T>(face: Face, ray_medium: T, material_index: T, outside_index: T)
    ensures
        medium_after_spec(
            interface_of(Face::Front, ray_medium, material_index, outside_index),
            Refract::Refract,
        ) == material_index,
        medium_after_spec(
            interface_of(Face::Back, ray_medium, material_index, outside_index),
            Refract::Refract,
        ) == outside_index,
        medium_after_spec(
            interface_of(face, ray_medium, material_index, outside_index),
            Refract::Reflect,
        ) == interface_of(face, ray_medium, material_index, outside_index).eta_in,
{
}

/// Whether the checkerboard tile whose cell indices (the floors of the hit
/// point's x and z) are `cell_x` and `cell_z` is a dark one: exactly one of the
/// two indices is odd.
pub fn checkerboard_dark(cell_x: i64, cell_z: i64) -> (r: bool)
    ensures
        r == ((cell_x as int % 2 == 1) != (cell_z as int % 2 == 1)),
{
    (cell_x % 2 != 0) != (cell_z % 2 != 0)
}

} // verus!
