//! Render targets, and what a recorded stream is known to leave in them.

use vstd::prelude::*;
use crate::encoder::{Data, Op};
use crate::math::{Scalar, Vec4};
use crate::scene::Handle;

verus! {

/// The color and depth images that a pass renders into.
#[derive(Clone, Copy, Debug, PartialEq, Eq)]
pub struct ColorBuffer {
    pub color: Handle,
    pub output_depth: Handle,
}

impl Data {
    /// The color image that a draw with these bindings renders into.
    pub open spec fn color_target(self) -> Handle {
        match self {
            Data::Flat(d) => d.out_ka,
            Data::Shaded(d) => d.out_ka,
            Data::Wireframe(d) => d.out_ka,
        }
    }

    /// The depth image that a draw with these bindings tests against and
    /// writes, if it binds one.
    pub open spec fn depth_target(self) -> Option<Handle> {
        match self {
            Data::Flat(d) => Some(d.out_depth),
            Data::Shaded(d) => Some(d.out_depth),
            Data::Wireframe(_) => None,
        }
    }
}

/// The color that `ops` leaves in every texel of the color image `view`:
/// that of the last clear of `view`, provided that no draw rendered into
/// `view` after it. `None` where the stream settles no such color.
pub open spec fn cleared_color(ops: Seq<Op>, view: Handle) -> Option<Vec4>
    decreases ops.len(),
{
    if ops.len() == 0 {
        None
    } else {
        let before = cleared_color(ops.drop_last(), view);
        match ops.last() {
            Op::ClearColor { view: v, color } => if v == view {
                Some(color)
            } else {
                before
            },
            Op::Draw { data, .. } => if data.color_target() == view {
                None
            } else {
                before
            },
            _ => before,
        }
    }
}

/// The depth that `ops` leaves in every texel of the depth image `view`:
/// that of the last clear of `view`, provided that no draw bound `view`
/// after it. `None` where the stream settles no such depth.
pub open spec fn cleared_depth(ops: Seq<Op>, view: Handle) -> Option<Scalar>
    decreases ops.len(),
{
    if ops.len() == 0 {
        None
    } else {
        let before = cleared_depth(ops.drop_last(), view);
        match ops.last() {
            Op::ClearDepth { view: v, depth } => if v == view {
                Some(depth)
            } else {
                before
            },
            Op::Draw { data, .. } => if data.depth_target() == Some(view) {
                None
            } else {
                before
            },
            _ => before,
        }
    }
}

/// What is known of a target after a stream of commands.
pub struct TargetState {
    /// The color that every texel holds, where the stream settles one.
    pub color: Option<Vec4>,
    /// The depth that every texel holds, where the stream settles one.
    pub depth: Option<Scalar>,
}

/// The state in which `ops` leaves `target`.
pub open spec fn target_state(ops: Seq<Op>, target: ColorBuffer) -> TargetState {
    TargetState {
        color: cleared_color(ops, target.color),
        depth: cleared_depth(ops, target.output_depth),
    }
}

} // verus!
