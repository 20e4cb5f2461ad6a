use std::sync::atomic::AtomicBool;
use std::sync::atomic::Ordering;
use std::sync::Arc;
use vstd::prelude::*;

verus! {

/// Check if the program was interrupted: reads the flag that the interrupt
/// handler sets. Another thread may set it at any moment, so nothing is known
/// of the value read.
pub fn is_interrupted(interrupted: &Arc<AtomicBool>) -> bool {
    interrupted.load(Ordering::SeqCst)
}

} // verus!
