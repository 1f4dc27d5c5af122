use vstd::prelude::*;

verus! {

/// What the host was asked to run: the ROM file and the window scale.
#[derive(Clone, Debug, PartialEq, Eq)]
pub struct Options {
    pub rom: String,
    pub scale: u8,
}

} // verus!
