use crate::convert::{c_count, HandleArray};
use crate::Type;
use std::marker::PhantomData;
use vstd::prelude::*;

verus! {

impl<'a> Type<'a> {
    /// The handle on the type at address `raw`.
    pub fn from_raw(raw: usize) -> (t: Self)
        ensures
            t@ == raw,
    {
        Type { ty: raw, phantom: PhantomData }
    }

    /// The address of the type.
    pub fn as_raw(&self) -> (raw: usize)
        ensures
            raw == self@,
    {
        self.ty
    }

    /// The handles of `elems`, in order, with their count, as the LLVM
    /// calls that build struct and function types take them.
    pub fn handle_array(elems: &[Type<'a>]) -> (a: HandleArray)
        ensures
            a.handles@.len() == elems@.len(),
            forall|i: int| 0 <= i < elems@.len() ==> a.handles@[i] == elems@[i]@,
            a.count == elems@.len() as u32,
    {
        let mut handles: Vec<usize> = Vec::with_capacity(elems.len());
        let mut i: usize = 0;
        while i < elems.len()
            invariant
                i <= elems@.len(),
                handles@.len() == i,
                forall|k: int| 0 <= k < i ==> handles@[k] == elems@[k]@,
            decreases elems@.len() - i,
        {
            handles.push(elems[i].ty);
            i += 1;
        }
        HandleArray { handles, count: c_count(elems.len()) }
    }

    /// The types whose handles LLVM wrote into `raw`, in order.
    pub fn from_handles(raw: &[usize]) -> (ts: Vec<Type<'a>>)
        ensures
            ts@.len() == raw@.len(),
            forall|i: int| 0 <= i < raw@.len() ==> ts@[i]@ == raw@[i],
    {
        let mut ts: Vec<Type<'a>> = Vec::with_capacity(raw.len());
        let mut i: usize = 0;
        while i < raw.len()
            invariant
                i <= raw@.len(),
                ts@.len() == i,
                forall|k: int| 0 <= k < i ==> ts@[k]@ == raw@[k],
            decreases raw@.len() - i,
        {
            ts.push(Type { ty: raw[i], phantom: PhantomData });
            i += 1;
        }
        ts
    }
}

} // verus!
