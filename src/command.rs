use vstd::prelude::*;

verus! {

/// An abstract input, already decoded from whatever produced it.
#[derive(Debug, Clone, Copy, PartialEq, Eq, Structural)]
pub enum Command {
    Quit,
    Pause,
    Resume,
    Toggle,
    Enter,
    Skip,
    Reset,
    Yes,
    No,
}

} // verus!
