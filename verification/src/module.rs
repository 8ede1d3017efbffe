use crate::text::{string_lossy, text_of};
use crate::{Module, Value};
use std::marker::PhantomData;
use vstd::prelude::*;

verus! {

/// How a module flag behaves when two modules that both set it are linked.
pub enum ModuleFlagBehavior {
    /// Emits an error if two values disagree, otherwise the resulting
    /// value is that of the operands.
    Error,
    /// Emits a warning if two values disagree. The result value will
    /// be the operand for the flag from the first module being
    /// linked.
    Warning,
    /// Adds a requirement that another module flag be present and
    /// have a specified value after linking is performed. The value
    /// must be a metadata pair, where the first element of the pair
    /// is the ID of the module flag to be restricted, and the second
    /// element of the pair is the value the module flag should be
    /// restricted to. This behavior can be used to restrict the
    /// allowable results (via triggering of an error) of linking IDs
    /// with the **Override** behavior.
    Require,
    /// Uses the specified value, regardless of the behavior or value
    /// of the other module. If both modules specify **Override**, but
    /// the values differ, an error will be emitted.
    Override,
    /// Appends the two values, which are required to be metadata nodes.
    Append,
    /// Appends the two values, which are required to be metadata
    /// nodes. However, duplicate entries in the second list are
    /// dropped during the append operation.
    AppendUnique,
}

/// An iteration over the functions of a module: the handle on the next
/// function, zero when no function is left.
pub struct FunctionIter<'a> {
    next: usize,
    phantom: PhantomData<&'a ()>,
}

impl<'a> View for FunctionIter<'a> {
    type V = usize;

    closed spec fn view(&self) -> usize {
        self.next
    }
}

impl<'a> FunctionIter<'a> {
    /// The iteration that starts at the function `first` (zero for a
    /// module without functions).
    pub fn starting_at(first: usize) -> (it: Self)
        ensures
            it@ == first,
    {
        FunctionIter { next: first, phantom: PhantomData }
    }

    /// The next function, if any is left; `successor_of` gives the
    /// function that follows a function.  An iteration that is over stays
    /// over.
    pub fn next_with<F: Fn(usize) -> usize>(&mut self, successor_of: F) -> (r: Option<Value<'a>>)
        requires
            old(self)@ != 0 ==> call_requires(successor_of, (old(self)@,)),
        ensures
            r is None <==> old(self)@ == 0,
            old(self)@ == 0 ==> final(self)@ == 0,
            r matches Some(f) ==> f@ == old(self)@ && call_ensures(
                successor_of,
                (old(self)@,),
                final(self)@,
            ),
    {
        if self.next == 0 {
            None
        } else {
            let out = self.next;
            self.next = successor_of(out);
            Some(Value::from_raw(out))
        }
    }
}

/// The outcome of verifying a module, from the status that LLVM's verifier
/// returned (zero when the module is valid) and the bytes of the message
/// it wrote: the message's text when the module is not valid.
pub fn verify_outcome(status: i32, message: &[u8]) -> (r: Result<(), String>)
    ensures
        r is Ok <==> status == 0,
        r matches Err(m) ==> m@ == text_of(message@),
{
    if status == 0 {
        Ok(())
    } else {
        Err(string_lossy(message))
    }
}


impl<'a> Module<'a> {
    /// The handle on the module at address `raw`.
    pub fn from_raw(raw: usize) -> (m: Self)
        ensures
            m@ == raw,
    {
        Module { module: raw, phantom: PhantomData }
    }

    /// The address of the module.
    pub fn as_raw(&self) -> (raw: usize)
        ensures
            raw == self@,
    {
        self.module
    }
}

} // verus!
