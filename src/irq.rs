//! The process-wide interrupt-enable flag.
use std::sync::atomic::{AtomicI32, Ordering};
use std::sync::Arc;
use vstd::prelude::*;

verus! {

/// One flag referenced by every context: a store by one context is seen by
/// the loads of every other, including contexts made later. No ordering
/// beyond that is given to the guest.
pub struct IrqFlag {
    cell: Arc<AtomicI32>,
}

impl IrqFlag {
    /// A new flag holding `enabled`.
    pub fn new(enabled: i32) -> (r: IrqFlag) {
        IrqFlag { cell: Arc::new(AtomicI32::new(enabled)) }
    }

    /// A handle on the same flag, for another context.
    pub fn share(&self) -> (r: IrqFlag) {
        IrqFlag { cell: self.cell.clone() }
    }

    /// `set_irq_enabled(enabled)`.
    pub fn set(&self, enabled: i32) {
        self.cell.store(enabled, Ordering::SeqCst);
    }

    /// `get_irq_enabled()`.
    pub fn get(&self) -> (r: i32) {
        self.cell.load(Ordering::SeqCst)
    }
}

} // verus!
