//! What a pass is, and the arguments that select what each pass works on.

use vstd::prelude::*;
use crate::encoder::{Encoder, Op};
use crate::math::Vec4;
use crate::scene::Frame;

pub mod forward;

verus! {

/// Argument of the clear pass: the color to clear to.
#[derive(Clone, Copy, Debug, PartialEq, Eq)]
pub struct Clear {
    pub color: Vec4,
}

/// Argument of the flat pass: which scene to draw, seen by which camera.
#[derive(Clone, Debug, PartialEq, Eq)]
pub struct DrawNoShading {
    pub camera: String,
    pub scene: String,
}

/// Argument of the lit pass: which scene to draw, seen by which camera.
#[derive(Clone, Debug, PartialEq, Eq)]
pub struct DrawShaded {
    pub camera: String,
    pub scene: String,
}

/// Argument of the wireframe pass: which scene to draw, seen by which
/// camera.
#[derive(Clone, Debug, PartialEq, Eq)]
pub struct Wireframe {
    pub camera: String,
    pub scene: String,
}

/// One way of rendering into a target.
///
/// Whoever runs a frame applies passes in the order it wants; a pass knows
/// nothing of the passes before or after it. Applying a pass records
/// commands behind those that the encoder holds already and changes nothing
/// else: what is recorded depends on the pass, its argument, the target and
/// the frame alone.
pub trait Pass {
    /// Selects what one application works on.
    type Arg;

    /// What the pass renders into.
    type Target;

    /// Whether `frame` holds every scene and camera that `arg` names. A pass
    /// must not be applied to an argument that the frame does not resolve.
    spec fn resolves(arg: &Self::Arg, frame: &Frame) -> bool;

    /// The commands of one application, first to last.
    spec fn recorded(&self, arg: &Self::Arg, target: &Self::Target, frame: &Frame) -> Seq<Op>;

    /// Records the commands of one application behind those in `encoder`.
    fn apply(&self, arg: &Self::Arg, target: &Self::Target, frame: &Frame, encoder: &mut Encoder)
        requires
            Self::resolves(arg, frame),
        ensures
            final(encoder)@ == old(encoder)@ + self.recorded(arg, target, frame),
    ;
}

} // verus!
