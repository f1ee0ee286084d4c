// A CHIP-8 interpreter core: instruction decoding, the machine state and its execution
// semantics, the sprite compositor and the two clocks, with the laws they obey.
use vstd::prelude::*;

pub mod instruction;
pub mod lemmas;
pub mod machine;
pub mod timer;

verus! {

} // verus!
