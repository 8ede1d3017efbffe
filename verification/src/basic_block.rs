use crate::BasicBlock;
use std::marker::PhantomData;
use vstd::prelude::*;

verus! {

impl<'a> BasicBlock<'a> {
    /// The handle on the basic block at address `raw`.
    pub fn from_raw(raw: usize) -> (b: Self)
        ensures
            b@ == raw,
    {
        BasicBlock { block: raw, phantom: PhantomData }
    }

    /// The address of the basic block.
    pub fn as_raw(&self) -> (raw: usize)
        ensures
            raw == self@,
    {
        self.block
    }

    /// The basic blocks whose handles LLVM wrote into `raw`, in order.
    pub fn from_handles(raw: &[usize]) -> (bs: Vec<BasicBlock<'a>>)
        ensures
            bs@.len() == raw@.len(),
            forall|i: int| 0 <= i < raw@.len() ==> bs@[i]@ == raw@[i],
    {
        let mut bs: Vec<BasicBlock<'a>> = Vec::with_capacity(raw.len());
        let mut i: usize = 0;
        while i < raw.len()
            invariant
                i <= raw@.len(),
                bs@.len() == i,
                forall|k: int| 0 <= k < i ==> bs@[k]@ == raw@[k],
            decreases raw@.len() - i,
        {
            bs.push(BasicBlock { block: raw[i], phantom: PhantomData });
            i += 1;
        }
        bs
    }
}

} // verus!
