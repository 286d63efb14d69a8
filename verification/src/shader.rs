//! Handles of a linked shader program.

use vstd::prelude::*;

verus! {

/// The device objects that make up one shader: the linked program and the
/// two compiled stages it was linked from.
#[derive(Clone, Copy, Debug, PartialEq, Eq, Structural)]
pub struct Shader {
    pub program: u32,
    pub vertex_stage: u32,
    pub fragment_stage: u32,
}

impl Shader {
    /// The program to make current for the draw calls that follow.
    pub fn bind(&self) -> (program: u32)
        ensures
            program == self.program,
    {
        self.program
    }
}

} // verus!
