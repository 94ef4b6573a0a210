use vstd::prelude::*;

verus! {

/// Marks an entity whose states' ends are to be reported.
#[derive(Debug, Clone, Copy, PartialEq, Eq, Structural)]
pub struct ListenAnimationEnd;

} // verus!
