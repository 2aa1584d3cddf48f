//! The moving bodies and the wall.
//!
//! The simulation has a fixed cast: one light block, one heavy block, and one
//! immovable wall at the negative end of the axis.  A block is a record of
//! position, velocity, strictly positive mass, and half the width of its
//! footprint.

use vstd::prelude::*;

use crate::rational::{q_add, q_pos, q_wf, Q, Rat};

verus! {

/// Mathematical state of one block.
pub ghost struct BodyView {
    pub position: Q,
    pub velocity: Q,
    pub mass: Q,
    pub half_extent: Q,
}

/// Every fraction of the block is well formed; this says nothing of the mass's
/// sign.
pub open spec fn body_rats_wf(b: BodyView) -> bool {
    q_wf(b.position) && q_wf(b.velocity) && q_wf(b.mass) && q_wf(b.half_extent)
}

/// A valid block: well-formed fractions and a strictly positive mass.
pub open spec fn body_wf(b: BodyView) -> bool {
    body_rats_wf(b) && q_pos(b.mass)
}

/// Where one tick of movement leaves a block: the position advances by the
/// velocity; nothing else changes.
pub open spec fn spec_integrate(b: BodyView) -> BodyView {
    BodyView { position: q_add(b.position, b.velocity), ..b }
}

/// One sliding block.  Created once at simulation start; its position and
/// velocity change every tick, its mass and half extent never do.
#[derive(Clone, Copy, Debug)]
pub struct Body {
    pub position: Rat,
    pub velocity: Rat,
    pub mass: Rat,
    pub half_extent: Rat,
}

impl View for Body {
    type V = BodyView;

    open spec fn view(&self) -> BodyView {
        BodyView {
            position: self.position@,
            velocity: self.velocity@,
            mass: self.mass@,
            half_extent: self.half_extent@,
        }
    }
}

impl Body {
    /// A valid block: every scalar is well formed in its machine words and
    /// the mass is strictly positive.
    pub open spec fn wf(self) -> bool {
        self.position.wf() && self.velocity.wf() && self.mass.wf() && self.half_extent.wf()
            && q_pos(self@.mass)
    }

    /// Builds a block from its four scalars.
    pub fn new(position: Rat, velocity: Rat, mass: Rat, half_extent: Rat) -> (r: Body)
        ensures
            r@ == (BodyView {
                position: position@,
                velocity: velocity@,
                mass: mass@,
                half_extent: half_extent@,
            }),
    {
        Body { position, velocity, mass, half_extent }
    }
}

/// The immovable boundary: an infinite-mass body fixed at one coordinate.
#[derive(Clone, Copy, Debug)]
pub struct Wall {
    pub boundary: Rat,
}

impl View for Wall {
    type V = Q;

    open spec fn view(&self) -> Q {
        self.boundary@
    }
}

impl Wall {
    /// Builds the wall at the given coordinate.
    pub fn new(boundary: Rat) -> (r: Wall)
        ensures
            r@ == boundary@,
    {
        Wall { boundary }
    }
}

} // verus!
