//! The plain values that pass to and from the LLVM C interface: booleans
//! as C `int`s, counts as C `unsigned`s, and arrays of handles.
use vstd::prelude::*;

verus! {

/// The `LLVMBool` (a C `int`) that stands for `b`.
pub open spec fn llvm_bool(b: bool) -> i32 {
    if b {
        1
    } else {
        0
    }
}

/// Reads an `LLVMBool` that LLVM handed back: any nonzero value is true.
pub fn decode_bool(raw: i32) -> (b: bool)
    ensures
        b == (raw != 0),
{
    raw != 0
}

/// The `LLVMBool` to hand to LLVM for `b`: 1 for true, 0 for false.
pub fn encode_bool(b: bool) -> (raw: i32)
    ensures
        raw == llvm_bool(b),
{
    if b {
        1
    } else {
        0
    }
}

/// Reading back the `LLVMBool` written for a flag gives the flag.
pub proof fn lemma_bool_round_trip(b: bool)
    ensures
        (llvm_bool(b) != 0) == b,
{
}

/// The count handed to LLVM (a C `unsigned`) for a length `len`: the
/// length cut to 32 bits, as a cast to `u32` does.
pub fn c_count(len: usize) -> (n: u32)
    ensures
        n == len as u32,
        len <= u32::MAX ==> n == len,
{
    len as u32
}

/// A count that LLVM reports as a C `int`, as a `usize`, as a cast does.
pub fn count_from_c_int(raw: i32) -> (n: usize)
    ensures
        n == raw as usize,
        raw >= 0 ==> n == raw,
{
    raw as usize
}

/// A buffer of `len` null handles, for LLVM to fill in.
pub fn null_handles(len: usize) -> (v: Vec<usize>)
    ensures
        v@ == Seq::new(len as nat, |i: int| 0usize),
{
    let mut v: Vec<usize> = Vec::with_capacity(len);
    let mut i: usize = 0;
    while i < len
        invariant
            i <= len,
            v@ == Seq::new(i as nat, |k: int| 0usize),
        decreases len - i,
    {
        v.push(0);
        i += 1;
        assert(v@ =~= Seq::new(i as nat, |k: int| 0usize));
    }
    v
}

/// Handles laid out as the C array that an LLVM call takes, with the
/// count that goes with it.
pub struct HandleArray {
    pub handles: Vec<usize>,
    pub count: u32,
}

} // verus!
