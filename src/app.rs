use vstd::prelude::*;

verus! {

/// An application of the entity-system variant: its systems run through a
/// `Lifecycle`; running it starts nothing else of its own.
pub struct App {}

impl App {
    pub fn run(self) {
    }
}

} // verus!
