//! Menu requests from the evdev reader thread to the main loop.

use std::sync::atomic::{AtomicBool, AtomicU64, Ordering};
use std::sync::Arc;

use vstd::prelude::*;

verus! {

/// A pending "open the WM menu at (x, y)" request. The coordinates travel as the bit
/// patterns of the logical `f64` position; the main loop decodes them.
///
/// The flags are shared with another thread: what a read returns is not claimed here.
pub struct ContextMenuControl {
    requested: AtomicBool,
    x: AtomicU64,
    y: AtomicU64,
    wake_loop: bool,
}

impl ContextMenuControl {
    /// The main loop must be woken (by a signal) after each request.
    pub closed spec fn wakes_loop(&self) -> bool {
        self.wake_loop
    }

    pub fn new() -> (r: Arc<Self>)
        ensures
            !r.wakes_loop(),
    {
        Self::with_loop_wake(false)
    }

    pub fn with_loop_wake(wake: bool) -> (r: Arc<Self>)
        ensures
            r.wakes_loop() == wake,
    {
        Arc::new(ContextMenuControl {
            requested: AtomicBool::new(false),
            x: AtomicU64::new(0),
            y: AtomicU64::new(0),
            wake_loop: wake,
        })
    }

    /// Records a request; `true` when the caller must wake the main loop.
    pub fn request_open(&self, x_bits: u64, y_bits: u64) -> (wake: bool)
        ensures
            wake == self.wakes_loop(),
    {
        self.x.store(x_bits, Ordering::Relaxed);
        self.y.store(y_bits, Ordering::Relaxed);
        self.requested.store(true, Ordering::SeqCst);
        self.wake_loop
    }

    /// Takes the pending request, if any: the position's bit patterns.
    pub fn poll(&self) -> Option<(u64, u64)> {
        if !self.requested.swap(false, Ordering::SeqCst) {
            return None;
        }
        let x = self.x.load(Ordering::Relaxed);
        let y = self.y.load(Ordering::Relaxed);
        Some((x, y))
    }
}

} // verus!
