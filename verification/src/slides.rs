//! Slides that only show text: they keep no state and take no steps.

use vstd::prelude::*;

verus! {

/// What the network is, in a handful of bullet points.
#[derive(Clone, Copy, Debug, PartialEq, Eq, Structural)]
pub struct GeneralScene {}

impl GeneralScene {
    pub fn new() -> GeneralScene {
        GeneralScene {  }
    }
}

/// Where the network falls short.
#[derive(Clone, Copy, Debug, PartialEq, Eq, Structural)]
pub struct DisadvantageScene {}

impl DisadvantageScene {
    pub fn new() -> DisadvantageScene {
        DisadvantageScene {  }
    }
}

/// Symmetric and asymmetric encryption side by side.
#[derive(Clone, Copy, Debug, PartialEq, Eq, Structural)]
pub struct FunctionalityScene {}

impl FunctionalityScene {
    pub fn new() -> FunctionalityScene {
        FunctionalityScene {  }
    }
}

} // verus!
