use vstd::prelude::*;

verus! {

/// The width of a single load or store.
#[derive(Clone, Copy, Debug, PartialEq, Eq, Structural)]
pub enum DataType {
    Byte,
    Halfword,
    Word,
}

} // verus!
