//! Setting up an instance of the graphics API: version numbers and the layers
//! and extensions that must be there.

use vstd::prelude::*;

verus! {

/// A version as the graphics API wants it: the three parts packed into one
/// number, seven bits of major version above ten of minor above twelve of patch,
/// under three bits of variant that are zero. Bits of a part that do not fit are
/// cut off or run into the part above, as the shifts have it.
pub fn packed_version(major: u32, minor: u32, patch: u32) -> (packed: u32)
    ensures
        packed == (major << 22u32) | (minor << 12u32) | patch,
{
    (major << 22u32) | (minor << 12u32) | patch
}

/// Whether `name` is one of `available`.
pub open spec fn is_available(available: Seq<Vec<u8>>, name: Seq<u8>) -> bool {
    exists|i: int| 0 <= i < available.len() && (#[trigger] available[i])@ == name
}

/// Whether two names are the same, byte for byte.
fn same_name(left: &Vec<u8>, right: &Vec<u8>) -> (same: bool)
    ensures
        same == (left@ == right@),
{
    if left.len() != right.len() {
        return false;
    }
    let len = left.len();
    let mut i: usize = 0;
    while i < len
        invariant
            i <= len,
            len == left@.len(),
            len == right@.len(),
            forall|k: int| 0 <= k < i ==> left@[k] == right@[k],
        decreases len - i,
    {
        if left[i] != right[i] {
            return false;
        }
        i += 1;
    }
    assert(left@ =~= right@);
    true
}

/// Whether `name` is one of `available`.
pub fn name_is_available(available: &Vec<Vec<u8>>, name: &Vec<u8>) -> (found: bool)
    ensures
        found == is_available(available@, name@),
{
    let count = available.len();
    let mut i: usize = 0;
    while i < count
        invariant
            i <= count,
            count == available@.len(),
            forall|k: int| 0 <= k < i ==> (#[trigger] available@[k])@ != name@,
        decreases count - i,
    {
        if same_name(&available[i], name) {
            return true;
        }
        i += 1;
    }
    false
}

/// Whether every layer or extension that is required is among those that the
/// graphics API offers. Only then may the instance be created with them.
pub fn all_required_available(available: &Vec<Vec<u8>>, required: &Vec<Vec<u8>>) -> (all: bool)
    ensures
        all == forall|r: int|
            0 <= r < required@.len() ==> is_available(available@, (#[trigger] required@[r])@),
{
    let count = required.len();
    let mut r: usize = 0;
    while r < count
        invariant
            r <= count,
            count == required@.len(),
            forall|k: int| 0 <= k < r ==> is_available(available@, (#[trigger] required@[k])@),
        decreases count - r,
    {
        if !name_is_available(available, &required[r]) {
            return false;
        }
        r += 1;
    }
    true
}

} // verus!
