//! Pointer position shared with the evdev thread (as the bit patterns of the logical `f64`
//! coordinates).

use std::sync::atomic::{AtomicU64, Ordering};
use std::sync::Arc;

use vstd::prelude::*;

verus! {

/// The last pointer position, written by the main loop and read by the evdev thread. What
/// a read returns is not claimed here: another thread may have stored a newer value.
pub struct HardwareBridge {
    pointer_x: AtomicU64,
    pointer_y: AtomicU64,
}

impl Default for HardwareBridge {
    fn default() -> Self {
        HardwareBridge { pointer_x: AtomicU64::new(0), pointer_y: AtomicU64::new(0) }
    }
}

impl HardwareBridge {
    pub fn new_arc() -> Arc<Self> {
        Arc::new(Self::default())
    }

    pub fn set_pointer_bits(&self, x_bits: u64, y_bits: u64) {
        self.pointer_x.store(x_bits, Ordering::Relaxed);
        self.pointer_y.store(y_bits, Ordering::Relaxed);
    }

    pub fn pointer_bits(&self) -> (u64, u64) {
        (self.pointer_x.load(Ordering::Relaxed), self.pointer_y.load(Ordering::Relaxed))
    }
}

} // verus!
