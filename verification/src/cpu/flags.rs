use vstd::prelude::*;

verus! {

/// The four ALU condition flags.
#[derive(Clone, Copy, Debug, PartialEq, Eq, Structural)]
pub struct Flags {
    pub negative: bool,
    pub zero: bool,
    pub carry: bool,
    pub signed_overflow: bool,
}

} // verus!
