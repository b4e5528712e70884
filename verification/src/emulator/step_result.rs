use vstd::prelude::*;

verus! {

/// What a call to `emulate` produced besides advancing the machine.
#[derive(Clone, Copy, PartialEq, Eq, Structural, Debug)]
pub enum StepResult {
    VBlank,
    AudioBufferFull,
    Nothing,
}

} // verus!
