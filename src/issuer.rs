use std::sync::atomic::{AtomicUsize, Ordering};
use vstd::prelude::*;

verus! {

/// Hands out connection identities from one shared counter, starting at 0.
///
/// Issuing is a single atomic increment, so it never waits on the registry's
/// lock. The value an increment returns depends on what other tasks did
/// before it, so `issue` promises nothing about it to the verifier.
pub struct IdIssuer {
    next: AtomicUsize,
}

impl IdIssuer {
    pub fn new() -> (r: IdIssuer) {
        IdIssuer { next: AtomicUsize::new(0) }
    }

    /// The next identity: the counter's value before it is incremented.
    pub fn issue(&self) -> usize {
        self.next.fetch_add(1, Ordering::Relaxed)
    }
}

} // verus!
