//! Handles on LLVM objects, and the logic that stands around the calls of
//! the LLVM C interface: names passed as C strings, text read back, flags,
//! counts and arrays of handles.
//!
//! A handle is the address of the LLVM object it refers to, zero where
//! LLVM handed back a null pointer.
use std::marker::PhantomData;
use vstd::prelude::*;

pub mod basic_block;
pub mod builder;
pub mod context;
pub mod convert;
pub mod cstr;
pub mod module;
pub mod text;
pub mod types;
pub mod value;

verus! {

/// Type representing basic LLVM functions.  It is handed to the function
/// that `with_llvm` runs; the run itself makes no LLVM call, and shutting
/// LLVM down after it (`LLVMShutdown`) is left to the caller that makes the
/// LLVM calls.
pub struct LLVM<'a>(PhantomData<&'a ()>);

impl<'a> LLVM<'a> {
    /// Run `func` with an `LLVM` handle.
    pub fn with_llvm<F, T, U>(func: F, arg: T) -> (res: U) where F: FnOnce(&mut LLVM<'a>, T) -> U
        requires
            forall|llvm: &mut LLVM<'a>| call_requires(func, (llvm, arg)),
        ensures
            exists|llvm: &mut LLVM<'a>| call_ensures(func, (llvm, arg), res),
    {
        let mut llvm = LLVM(PhantomData);
        func(&mut llvm, arg)
    }
}

/// A handle on an LLVM instruction builder.
pub struct Builder<'a> {
    builder: usize,
    phantom: PhantomData<&'a ()>,
}

/// A handle on an LLVM basic block.
pub struct BasicBlock<'a> {
    block: usize,
    phantom: PhantomData<&'a ()>,
}

/// A handle on an LLVM context, and whether disposing of the handle
/// disposes of the context (only a context that this handle created is).
pub struct Context<'a> {
    ctx: usize,
    dispose: bool,
    phantom: PhantomData<&'a ()>,
}

/// A message made by LLVM, held as the bytes of its text.
pub struct Message<'a> {
    msg: Vec<u8>,
    phantom: PhantomData<&'a ()>,
}

/// An LLVM metadata kind identifier.
pub struct MDKindID<'a> {
    id: libc::c_uint,
    phantom: PhantomData<&'a libc::c_uint>,
}

/// A handle on an LLVM module.
pub struct Module<'a> {
    module: usize,
    phantom: PhantomData<&'a ()>,
}

/// A handle on an LLVM type.  Two handles are equal when they refer to the
/// same type (LLVM keeps one object for each type).
#[derive(Clone, Copy, Debug)]
pub struct Type<'a> {
    ty: usize,
    phantom: PhantomData<&'a ()>,
}

/// A handle on an LLVM value.
pub struct Value<'a> {
    value: usize,
    phantom: PhantomData<&'a ()>,
}

impl<'a> View for Builder<'a> {
    type V = usize;

    closed spec fn view(&self) -> usize {
        self.builder
    }
}

impl<'a> View for BasicBlock<'a> {
    type V = usize;

    closed spec fn view(&self) -> usize {
        self.block
    }
}

impl<'a> View for Context<'a> {
    /// The handle, and whether disposing of it disposes of the context.
    type V = (usize, bool);

    closed spec fn view(&self) -> (usize, bool) {
        (self.ctx, self.dispose)
    }
}

impl<'a> View for Message<'a> {
    type V = Seq<u8>;

    closed spec fn view(&self) -> Seq<u8> {
        self.msg@
    }
}

impl<'a> View for MDKindID<'a> {
    type V = u32;

    closed spec fn view(&self) -> u32 {
        self.id
    }
}

impl<'a> View for Module<'a> {
    type V = usize;

    closed spec fn view(&self) -> usize {
        self.module
    }
}

impl<'a> View for Type<'a> {
    type V = usize;

    closed spec fn view(&self) -> usize {
        self.ty
    }
}

impl<'a> View for Value<'a> {
    type V = usize;

    closed spec fn view(&self) -> usize {
        self.value
    }
}

impl<'a> PartialEq for Type<'a> {
    fn eq(&self, other: &Self) -> (r: bool) {
        self.ty == other.ty
    }
}

impl<'a> vstd::std_specs::cmp::PartialEqSpecImpl for Type<'a> {
    open spec fn obeys_eq_spec() -> bool {
        true
    }

    open spec fn eq_spec(&self, other: &Self) -> bool {
        self@ == other@
    }
}

impl<'a> Message<'a> {
    /// The message whose text is `bytes`, the bytes of the C string that
    /// LLVM made, without its terminator.
    pub fn from_c_bytes(bytes: Vec<u8>) -> (m: Self)
        ensures
            m@ == bytes@,
    {
        Message { msg: bytes, phantom: PhantomData }
    }

    /// The text of the message, decoded as `CStr::to_string_lossy` does.
    pub fn to_str(&self) -> (s: String)
        ensures
            s@ == text::text_of(self@),
    {
        text::string_lossy(self.msg.as_slice())
    }

    /// The text of the message as a `String`.
    pub fn to_string(&self) -> (s: String)
        ensures
            s@ == text::text_of(self@),
    {
        self.to_str()
    }
}


impl<'a> MDKindID<'a> {
    /// The metadata kind with identifier `id`.
    pub fn from_raw(id: libc::c_uint) -> (k: Self)
        ensures
            k@ == id,
    {
        MDKindID { id, phantom: PhantomData }
    }
}


/// A message whose bytes are the UTF-8 encoding of a text reads back as
/// that text.
pub proof fn lemma_message_reads_back<'a>(m: Message<'a>, s: Seq<char>)
    requires
        m@ == vstd::utf8::encode_utf8(s),
    ensures
        text::text_of(m@) == s,
{
    text::lemma_text_of_encoding(s);
}

} // verus!
