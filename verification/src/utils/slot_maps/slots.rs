//! The slots of a slot map.

use crate::utils::handles::HandleType;
use vstd::prelude::*;

verus! {

/// One slot. The slot with number `s` serves two purposes at once.
///
/// As the slot of handle `s`, `index` says where in the dense data the item of
/// that handle lies; while the handle is free, `index` names the next free slot.
/// As the companion of the item at position `s` of the dense data, `reverse_slot`
/// names the handle that the item belongs to.
#[derive(Clone, Copy)]
pub struct Slot<K: HandleType> {
    /// Position of the handle's item, or the next free slot.
    pub index: K,
    /// The handle of the item at this position.
    pub reverse_slot: K,
}

} // verus!
