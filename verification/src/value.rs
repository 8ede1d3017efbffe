use crate::convert::{c_count, HandleArray};
use crate::Value;
use std::marker::PhantomData;
use vstd::prelude::*;

verus! {

/// A handle on a use of an LLVM value.
pub struct Use<'a> {
    useref: usize,
    phantom: PhantomData<&'a ()>,
}

/// An iteration over the uses of a value: the handle on the next use, zero
/// when no use is left.
pub struct UseIter<'a> {
    next: usize,
    phantom: PhantomData<&'a ()>,
}

impl<'a> View for Use<'a> {
    type V = usize;

    closed spec fn view(&self) -> usize {
        self.useref
    }
}

impl<'a> View for UseIter<'a> {
    type V = usize;

    closed spec fn view(&self) -> usize {
        self.next
    }
}

impl<'a> Use<'a> {
    /// The handle on the use at address `raw`.
    pub fn from_raw(raw: usize) -> (u: Self)
        ensures
            u@ == raw,
    {
        Use { useref: raw, phantom: PhantomData }
    }

    /// The address of the use.
    pub fn as_raw(&self) -> (raw: usize)
        ensures
            raw == self@,
    {
        self.useref
    }
}

impl<'a> UseIter<'a> {
    /// The iteration that starts at the use `first` (zero for a value that
    /// has no use).
    pub fn starting_at(first: usize) -> (it: Self)
        ensures
            it@ == first,
    {
        UseIter { next: first, phantom: PhantomData }
    }

    /// The next use, if any is left; `successor_of` gives the use that
    /// follows a use.  An iteration that is over stays over.
    pub fn next_with<F: Fn(usize) -> usize>(&mut self, successor_of: F) -> (r: Option<Use<'a>>)
        requires
            old(self)@ != 0 ==> call_requires(successor_of, (old(self)@,)),
        ensures
            r is None <==> old(self)@ == 0,
            old(self)@ == 0 ==> final(self)@ == 0,
            r matches Some(u) ==> u@ == old(self)@ && call_ensures(
                successor_of,
                (old(self)@,),
                final(self)@,
            ),
    {
        if self.next == 0 {
            None
        } else {
            let out = self.next;
            self.next = successor_of(out);
            Some(Use { useref: out, phantom: PhantomData })
        }
    }
}

impl<'a> Value<'a> {
    /// The handle on the value at address `raw`.
    pub fn from_raw(raw: usize) -> (v: Self)
        ensures
            v@ == raw,
    {
        Value { value: raw, phantom: PhantomData }
    }

    /// The address of the value.
    pub fn as_raw(&self) -> (raw: usize)
        ensures
            raw == self@,
    {
        self.value
    }

    /// The handles of `vals`, in order, with their count, as the LLVM calls
    /// that build aggregate returns and invokes take them.
    pub fn handle_array(vals: &[Value<'a>]) -> (a: HandleArray)
        ensures
            a.handles@.len() == vals@.len(),
            forall|i: int| 0 <= i < vals@.len() ==> a.handles@[i] == vals@[i]@,
            a.count == vals@.len() as u32,
    {
        let mut handles: Vec<usize> = Vec::with_capacity(vals.len());
        let mut i: usize = 0;
        while i < vals.len()
            invariant
                i <= vals@.len(),
                handles@.len() == i,
                forall|k: int| 0 <= k < i ==> handles@[k] == vals@[k]@,
            decreases vals@.len() - i,
        {
            handles.push(vals[i].value);
            i += 1;
        }
        HandleArray { handles, count: c_count(vals.len()) }
    }
}

} // verus!
