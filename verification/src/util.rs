//! Compile-time checks that a type can cross thread boundaries.

use vstd::prelude::*;

verus! {

/// Implemented for every `Sync` type; calling a method asserts the bound at
/// compile time.
pub trait CanSync {
    fn can_sync();

    fn can_sync_i(&self);
}

impl<T: Sync> CanSync for T {
    fn can_sync() {
    }

    fn can_sync_i(&self) {
    }
}

/// Implemented for every `Send` type; calling a method asserts the bound at
/// compile time.
pub trait CanSend {
    fn can_send();

    fn can_send_i(&self);
}

impl<T: Send> CanSend for T {
    fn can_send() {
    }

    fn can_send_i(&self) {
    }
}

} // verus!
