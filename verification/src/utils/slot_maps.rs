//! Slot maps: dense storage whose items are reached through stable handles.

pub mod slot_map;
pub mod slots;
