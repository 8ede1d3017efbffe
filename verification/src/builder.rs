use crate::Builder;
use std::marker::PhantomData;
use vstd::prelude::*;

verus! {

impl<'a> Builder<'a> {
    /// The handle on the builder at address `raw`.
    pub fn from_raw(raw: usize) -> (b: Self)
        ensures
            b@ == raw,
    {
        Builder { builder: raw, phantom: PhantomData }
    }

    /// The address of the builder.
    pub fn as_raw(&self) -> (raw: usize)
        ensures
            raw == self@,
    {
        self.builder
    }
}

} // verus!
