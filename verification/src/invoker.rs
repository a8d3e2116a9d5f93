//! The trampoline behind a facade's callback registration.

use vstd::prelude::*;

verus! {

/// The heap-allocated intermediary between the toolkit's dispatch and a
/// user callback.
///
/// The toolkit object keeps only the trampoline's token as its target — a
/// raw, non-owning back-reference used purely for dispatch. The facade owns
/// the trampoline itself, keeps at most one alive at a time, and releases
/// each exactly once: either when a later registration replaces it or when
/// the facade is torn down.
#[derive(Clone, Copy, Debug, PartialEq, Eq, Structural)]
pub struct TargetActionHandler {
    /// Stands for the trampoline's stable heap address: the value the
    /// toolkit object holds as its target/action pair while this
    /// trampoline is installed.
    pub token: u64,
}

impl TargetActionHandler {
    /// Allocates a trampoline under the given token.
    pub fn new(token: u64) -> (h: TargetActionHandler)
        ensures
            h.token == token,
    {
        TargetActionHandler { token }
    }
}

} // verus!
