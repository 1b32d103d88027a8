//! Typed handles: an index that remembers what kind of thing it points at.

use core::marker::PhantomData;
use vstd::prelude::*;

verus! {

/// An integer type that can index a container.
pub trait HandleType: Copy + Sized {
    /// The number that the value stands for.
    spec fn index(self) -> nat;

    /// The largest number that the type can hold.
    spec fn max_index() -> nat;

    /// Every value is at most the largest.
    proof fn index_bounded(self)
        ensures
            self.index() <= Self::max_index(),
    ;

    /// Two values that stand for the same number are the same value.
    proof fn index_injective(self, other: Self)
        requires
            self.index() == other.index(),
        ensures
            self == other,
    ;

    /// The value as a `usize`, or `None` if it does not fit.
    fn to_usize(self) -> (converted: Option<usize>)
        ensures
            converted == (if self.index() <= usize::MAX {
                Some(self.index() as usize)
            } else {
                None
            }),
    ;

    /// The value that stands for `index`, or `None` if the type cannot hold it.
    fn from_usize(index: usize) -> (converted: Option<Self>)
        ensures
            (index <= Self::max_index()) == converted.is_some(),
            converted matches Some(value) ==> value.index() == index,
    ;

    /// The value that stands for zero.
    fn zero() -> (value: Self)
        ensures
            value.index() == 0,
    ;
}

impl HandleType for u8 {
    open spec fn index(self) -> nat {
        self as nat
    }

    open spec fn max_index() -> nat {
        u8::MAX as nat
    }

    proof fn index_bounded(self) {
    }

    proof fn index_injective(self, other: Self) {
    }

    fn to_usize(self) -> (converted: Option<usize>) {
        Some(self as usize)
    }

    fn from_usize(index: usize) -> (converted: Option<Self>) {
        if index <= u8::MAX as usize {
            Some(index as u8)
        } else {
            None
        }
    }

    fn zero() -> (value: Self) {
        0
    }
}

impl HandleType for u16 {
    open spec fn index(self) -> nat {
        self as nat
    }

    open spec fn max_index() -> nat {
        u16::MAX as nat
    }

    proof fn index_bounded(self) {
    }

    proof fn index_injective(self, other: Self) {
    }

    fn to_usize(self) -> (converted: Option<usize>) {
        Some(self as usize)
    }

    fn from_usize(index: usize) -> (converted: Option<Self>) {
        if index <= u16::MAX as usize {
            Some(index as u16)
        } else {
            None
        }
    }

    fn zero() -> (value: Self) {
        0
    }
}

impl HandleType for u32 {
    open spec fn index(self) -> nat {
        self as nat
    }

    open spec fn max_index() -> nat {
        u32::MAX as nat
    }

    proof fn index_bounded(self) {
    }

    proof fn index_injective(self, other: Self) {
    }

    fn to_usize(self) -> (converted: Option<usize>) {
        Some(self as usize)
    }

    fn from_usize(index: usize) -> (converted: Option<Self>) {
        if index <= u32::MAX as usize {
            Some(index as u32)
        } else {
            None
        }
    }

    fn zero() -> (value: Self) {
        0
    }
}

impl HandleType for u64 {
    open spec fn index(self) -> nat {
        self as nat
    }

    open spec fn max_index() -> nat {
        u64::MAX as nat
    }

    proof fn index_bounded(self) {
    }

    proof fn index_injective(self, other: Self) {
    }

    fn to_usize(self) -> (converted: Option<usize>) {
        if self <= usize::MAX as u64 {
            Some(self as usize)
        } else {
            None
        }
    }

    fn from_usize(index: usize) -> (converted: Option<Self>) {
        Some(index as u64)
    }

    fn zero() -> (value: Self) {
        0
    }
}

impl HandleType for usize {
    open spec fn index(self) -> nat {
        self as nat
    }

    open spec fn max_index() -> nat {
        usize::MAX as nat
    }

    proof fn index_bounded(self) {
    }

    proof fn index_injective(self, other: Self) {
    }

    fn to_usize(self) -> (converted: Option<usize>) {
        Some(self)
    }

    fn from_usize(index: usize) -> (converted: Option<Self>) {
        Some(index)
    }

    fn zero() -> (value: Self) {
        0
    }
}

/// Handle to a `T` kept in some container, holding an index of type `K`.
pub struct Handle<T, K: HandleType = u32> {
    /// The index.
    pub value: K,
    /// Ties the handle to the kind of thing it points at.
    pub marker: PhantomData<T>,
}

impl<T, K: HandleType> Handle<T, K> {
    /// The handle that holds `value`.
    pub fn new(value: K) -> (handle: Self)
        ensures
            handle.value == value,
    {
        Handle { value, marker: PhantomData }
    }
}

impl<T, K: HandleType> Clone for Handle<T, K> {
    fn clone(&self) -> (copy: Self)
        ensures
            copy.value == self.value,
    {
        Handle { value: self.value, marker: PhantomData }
    }
}

impl<T, K: HandleType> Copy for Handle<T, K> {

}

} // verus!
