//! The non-owning store: dropping the bookkeeping never runs the
//! wrapped value's destructor, and the wrapped value stays reachable.

use std::cell::Cell;
use std::rc::Rc;

use xr_frame_core::store::NonOwned;

/// A stand-in for a foreign-owned resource: counts how often it is
/// dropped.
struct DropCounter {
    drops: Rc<Cell<u32>>,
}

impl Drop for DropCounter {
    fn drop(&mut self) {
        self.drops.set(self.drops.get() + 1);
    }
}

#[test]
fn teardown_never_drops_the_wrapped_value() {
    let drops = Rc::new(Cell::new(0));
    {
        let buffer = NonOwned::new(DropCounter { drops: drops.clone() });
        let _ = buffer;
    }
    assert_eq!(drops.get(), 0);
}

#[test]
fn teardown_of_a_whole_store_frees_only_bookkeeping() {
    let drops = Rc::new(Cell::new(0));
    {
        let mut buffers: Vec<NonOwned<DropCounter>> = Vec::new();
        for _ in 0..3 {
            buffers.push(NonOwned::new(DropCounter { drops: drops.clone() }));
        }
        assert_eq!(buffers.len(), 3);
    }
    // the vector and the wrappers are gone; no destructor ran for any
    // wrapped value
    assert_eq!(drops.get(), 0);
}

#[test]
fn the_wrapped_value_stays_reachable() {
    let buffer = NonOwned::new(42u64);
    assert_eq!(*buffer.get(), 42);

    let drops = Rc::new(Cell::new(0));
    let counted = NonOwned::new(DropCounter { drops: drops.clone() });
    assert_eq!(counted.get().drops.get(), 0);
}
