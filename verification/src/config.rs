//! Configuration of a visualization: the natural number, the modulus, and
//! which of the two diagrams to draw.

use vstd::prelude::*;

verus! {

/// The two mutually exclusive interpretations of a configuration.
#[derive(Debug, Clone, Copy, PartialEq, Eq, Structural)]
pub enum Mode {
    /// Show every natural from `0` to `natural` on concentric rings and an
    /// arrow from the last of them to its residue on the innermost ring.
    Reduction,
    /// Show the residues `0..modulus-1` on a single ring, with one arrow per
    /// residue for repeated addition of `natural`.
    Cycle,
}

/// A complete set of parameters for one diagram.
///
/// A configuration is replaced atomically by the session; it is never
/// partially mutated. `modulus == 0` is invalid and is rejected before any
/// geometry is computed.
#[derive(Debug, Clone, Copy, PartialEq, Eq, Structural)]
pub struct Config {
    /// The natural number being reduced, or the step added in a cycle.
    pub natural: u32,
    /// The base of the modular arithmetic; must be at least `1`.
    pub modulus: u32,
    /// Which diagram to draw.
    pub mode: Mode,
}

/// Everything that can go wrong in the engine.
#[derive(Debug, Clone, Copy, PartialEq, Eq, Structural)]
pub enum VizError {
    /// The modulus was `0`; the attempted commit is rejected and any prior
    /// configuration stays active.
    InvalidConfiguration,
    /// A ring partition with zero points per ring reached the reveal policy;
    /// callers treat the frame as having no opaque rings and no arrow.
    DegenerateLayout,
    /// No point matched the congruence filter for the highlight arrow; the
    /// arrow is skipped for the frame.
    EmptyArrowMatch,
}

impl Config {
    /// A configuration the layout engine accepts: the modulus is positive,
    /// and the natural leaves room for the count `natural + 1` in a machine
    /// word.
    pub open spec fn valid(self) -> bool {
        &&& self.modulus >= 1
        &&& self.natural < u32::MAX
    }
}

} // verus!
