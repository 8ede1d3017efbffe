use crate::Context;
use std::marker::PhantomData;
use vstd::prelude::*;

verus! {

impl<'a> Context<'a> {
    /// The handle on the context at address `raw`, which this handle
    /// created and so disposes of.
    pub fn created(raw: usize) -> (c: Self)
        ensures
            c@ == (raw, true),
    {
        Context { ctx: raw, dispose: true, phantom: PhantomData }
    }

    /// The handle on the context at address `raw`, which belongs to
    /// someone else and is not disposed of with this handle.
    pub fn shared(raw: usize) -> (c: Self)
        ensures
            c@ == (raw, false),
    {
        Context { ctx: raw, dispose: false, phantom: PhantomData }
    }

    /// The address of the context.
    pub fn as_raw(&self) -> (raw: usize)
        ensures
            raw == self@.0,
    {
        self.ctx
    }

    /// Whether disposing of this handle disposes of the context.
    pub fn needs_dispose(&self) -> (d: bool)
        ensures
            d == self@.1,
    {
        self.dispose
    }
}

} // verus!
