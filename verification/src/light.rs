//! Point lights as the lit fragment stage reads them, and the packing of a
//! scene's lights into the fixed block that is uploaded each frame.

use vstd::prelude::*;
use crate::math::{pad, spec_pad, Scalar, Vec3, Vec4, ZERO};

verus! {

/// The number of light records in the uniform block, used or not.
pub const MAX_LIGHTS: usize = 512;

/// A point light as a scene describes it.
#[derive(Clone, Copy, Debug, PartialEq, Eq)]
pub struct Light {
    /// Red, green, blue, alpha.
    pub color: Vec4,
    /// Position in world space.
    pub center: Vec3,
    /// Weight of the term that does not fall off with distance.
    pub propagation_constant: Scalar,
    /// Weight of the term that falls off with the distance.
    pub propagation_linear: Scalar,
    /// Weight of the term that falls off with the squared distance.
    pub propagation_r_square: Scalar,
}

/// A point light as the uniform block lays it out: three 16-byte vectors.
#[derive(Clone, Copy, Debug, PartialEq, Eq)]
pub struct PointLight {
    /// Constant, linear and inverse-square weights; the fourth slot is zero.
    pub propagation: Vec4,
    /// Position; the fourth slot is zero.
    pub center: Vec4,
    /// Red, green, blue, alpha.
    pub color: Vec4,
}

impl PointLight {
    /// The record that fills unused slots: every component is zero, so a
    /// shader that reads it adds nothing.
    pub open spec fn spec_zero() -> PointLight {
        PointLight {
            propagation: Vec4::spec_zero(),
            center: Vec4::spec_zero(),
            color: Vec4::spec_zero(),
        }
    }

    /// The record of a scene light: weights and position padded with zero,
    /// color as it is.
    pub open spec fn spec_from_light(light: Light) -> PointLight {
        PointLight {
            propagation: Vec4 {
                x: light.propagation_constant,
                y: light.propagation_linear,
                z: light.propagation_r_square,
                w: ZERO,
            },
            center: spec_pad(light.center),
            color: light.color,
        }
    }

    /// The record that fills unused slots.
    pub fn zero() -> (r: PointLight)
        ensures
            r == PointLight::spec_zero(),
    {
        PointLight { propagation: Vec4::zero(), center: Vec4::zero(), color: Vec4::zero() }
    }

    /// Lays out a scene light for the uniform block.
    pub fn from_light(light: &Light) -> (r: PointLight)
        ensures
            r == PointLight::spec_from_light(*light),
    {
        PointLight {
            propagation: Vec4 {
                x: light.propagation_constant,
                y: light.propagation_linear,
                z: light.propagation_r_square,
                w: ZERO,
            },
            center: pad(light.center),
            color: light.color,
        }
    }
}

/// How many of `n` scene lights the block holds: all of them up to the
/// block's capacity, and no more.
pub open spec fn spec_active_count(n: nat) -> nat {
    if n <= MAX_LIGHTS {
        n
    } else {
        MAX_LIGHTS as nat
    }
}

/// The block for a scene's lights: slot `i` holds the record of light `i`
/// while there is such a light, and the zero record after that. Lights past
/// the capacity are left out.
pub open spec fn spec_pack_lights(lights: Seq<Light>) -> Seq<PointLight> {
    Seq::new(
        MAX_LIGHTS as nat,
        |i: int|
            if i < lights.len() {
                PointLight::spec_from_light(lights[i])
            } else {
                PointLight::spec_zero()
            },
    )
}

/// What every uploaded block satisfies: it has exactly [`MAX_LIGHTS`]
/// records, and those from `active` on are zero.
pub open spec fn is_light_block(block: Seq<PointLight>, active: nat) -> bool {
    &&& block.len() == MAX_LIGHTS
    &&& active <= MAX_LIGHTS
    &&& forall|i: int| active <= i < MAX_LIGHTS ==> #[trigger] block[i] == PointLight::spec_zero()
}

/// The loop bound handed to the lit fragment stage for a scene of
/// `lights.len()` lights.
pub fn active_count(lights: &Vec<Light>) -> (count: i32)
    ensures
        count == spec_active_count(lights@.len()),
{
    if lights.len() <= MAX_LIGHTS {
        lights.len() as i32
    } else {
        MAX_LIGHTS as i32
    }
}

/// Packs a scene's lights into the block that is uploaded before drawing.
///
/// The first `min(lights.len(), MAX_LIGHTS)` slots hold the scene's lights
/// in scene order; the rest hold the zero record. A scene with more lights
/// than the block has slots loses the later ones without notice.
pub fn pack_lights(lights: &Vec<Light>) -> (block: Vec<PointLight>)
    ensures
        block@ == spec_pack_lights(lights@),
        is_light_block(block@, spec_active_count(lights@.len())),
{
    let mut block: Vec<PointLight> = Vec::new();
    let kept: usize = if lights.len() <= MAX_LIGHTS {
        lights.len()
    } else {
        MAX_LIGHTS
    };
    let mut i: usize = 0;
    while i < kept
        invariant
            i <= kept,
            kept == spec_active_count(lights@.len()),
            block@.len() == i,
            forall|j: int| 0 <= j < i ==> #[trigger] block@[j] == PointLight::spec_from_light(lights@[j]),
        decreases kept - i,
    {
        block.push(PointLight::from_light(&lights[i]));
        i += 1;
    }
    while block.len() < MAX_LIGHTS
        invariant
            kept == spec_active_count(lights@.len()),
            kept <= block@.len() <= MAX_LIGHTS,
            forall|j: int| 0 <= j < kept ==> #[trigger] block@[j] == PointLight::spec_from_light(lights@[j]),
            forall|j: int| kept <= j < block@.len() ==> #[trigger] block@[j] == PointLight::spec_zero(),
        decreases MAX_LIGHTS - block@.len(),
    {
        block.push(PointLight::zero());
    }
    assert(block@ =~= spec_pack_lights(lights@));
    block
}

/// While a scene has no more lights than the block has slots, the block
/// holds every light, in scene order, then zero records to the end, and the
/// active count is the number of lights.
pub proof fn lemma_pack_within_capacity(lights: Seq<Light>)
    requires
        lights.len() <= MAX_LIGHTS,
    ensures
        spec_active_count(lights.len()) == lights.len(),
        spec_pack_lights(lights).len() == MAX_LIGHTS,
        forall|i: int|
            0 <= i < lights.len() ==> #[trigger] spec_pack_lights(lights)[i]
                == PointLight::spec_from_light(lights[i]),
        forall|i: int|
            lights.len() <= i < MAX_LIGHTS ==> #[trigger] spec_pack_lights(lights)[i]
                == PointLight::spec_zero(),
{
}

/// Once a scene has more lights than the block has slots, the block holds
/// the first [`MAX_LIGHTS`] of them, in scene order, and the active count is
/// the capacity.
pub proof fn lemma_pack_over_capacity(lights: Seq<Light>)
    requires
        lights.len() > MAX_LIGHTS,
    ensures
        spec_active_count(lights.len()) == MAX_LIGHTS,
        spec_pack_lights(lights).len() == MAX_LIGHTS,
        forall|i: int|
            0 <= i < MAX_LIGHTS ==> #[trigger] spec_pack_lights(lights)[i]
                == PointLight::spec_from_light(lights[i]),
{
}

} // verus!
