//! Conversion of names and other text into NUL-terminated byte strings,
//! the form in which the LLVM C interface takes them.
use vstd::prelude::*;
use crate::text::{lemma_text_of_encoding, text_of};
use vstd::utf8::*;

verus! {

broadcast use vstd::seq::group_seq_axioms;

/// The error of building a C string from bytes that hold a zero byte:
/// `position` is the index of the first zero byte and `bytes` are the
/// bytes that were given.
#[derive(Debug)]
pub struct NulError {
    pub position: usize,
    pub bytes: Vec<u8>,
}

/// `bytes` hold a zero byte.
pub open spec fn has_nul(bytes: Seq<u8>) -> bool {
    exists|i: int| 0 <= i < bytes.len() && bytes[i] == 0u8
}

/// `pos` is the index of the first zero byte of `bytes`.
pub open spec fn first_nul_at(bytes: Seq<u8>, pos: int) -> bool {
    &&& 0 <= pos < bytes.len()
    &&& bytes[pos] == 0u8
    &&& forall|i: int| 0 <= i < pos ==> bytes[i] != 0u8
}

/// Builds a C string from `bytes`: the bytes followed by a terminating
/// zero byte, or an error naming the first zero byte when `bytes` hold one.
pub fn nul_terminated(bytes: Vec<u8>) -> (r: Result<Vec<u8>, NulError>)
    ensures
        r is Ok <==> !has_nul(bytes@),
        r matches Ok(c) ==> c@ == bytes@.push(0u8),
        r matches Err(e) ==> e.bytes@ == bytes@ && first_nul_at(bytes@, e.position as int),
{
    let mut i: usize = 0;
    while i < bytes.len()
        invariant
            i <= bytes.len(),
            forall|j: int| 0 <= j < i ==> bytes@[j] != 0u8,
        decreases bytes.len() - i,
    {
        if bytes[i] == 0 {
            return Err(NulError { position: i, bytes });
        }
        i += 1;
    }
    let mut c = bytes;
    c.push(0);
    Ok(c)
}

proof fn lemma_scalar_nul(c: char)
    ensures
        has_nul(encode_scalar(c as u32)) <==> c == '\0',
{
    broadcast use char_is_scalar;

    let v = c as u32;
    assert(is_scalar(v));
    if has_width_1_encoding(v) {
        assert((v & 0x7F) as u8 == 0 <==> v == 0) by (bit_vector)
            requires
                v <= 0x7F,
        ;
        let e = encode_scalar(v);
        assert(e =~= seq![leading_byte_width_1(v)]);
        if c == '\0' {
            assert(e[0] == 0u8);
        }
        if has_nul(e) {
            assert(v == 0);
            char_u32_cast(c, v);
        }
    } else {
        assert(v != 0);
        assert(c != '\0');
        assert(0xC0u8 | (((v >> 6) & 0x1F) as u8) != 0) by (bit_vector);
        assert(0xE0u8 | (((v >> 12) & 0x0F) as u8) != 0) by (bit_vector);
        assert(0xF0u8 | (((v >> 18) & 0x7) as u8) != 0) by (bit_vector);
        assert(0x80u8 | ((v & 0x3F) as u8) != 0) by (bit_vector);
        assert(0x80u8 | (((v >> 6) & 0x3F) as u8) != 0) by (bit_vector);
        assert(0x80u8 | (((v >> 12) & 0x3F) as u8) != 0) by (bit_vector);
        let e = encode_scalar(v);
        assert forall|i: int| 0 <= i < e.len() implies e[i] != 0u8 by {}
    }
}

/// The UTF-8 encoding of a text holds a zero byte exactly when the text
/// holds the NUL character.
pub proof fn lemma_encode_has_nul(s: Seq<char>)
    ensures
        has_nul(encode_utf8(s)) <==> s.contains('\0'),
    decreases s.len(),
{
    if s.len() == 0 {
        assert(encode_utf8(s) =~= Seq::<u8>::empty());
    } else {
        let head = encode_scalar(s[0] as u32);
        let rest = s.drop_first();
        let tail = encode_utf8(rest);
        lemma_scalar_nul(s[0]);
        lemma_encode_has_nul(rest);
        let e = encode_utf8(s);
        assert(e =~= head + tail);
        if has_nul(head) {
            let i = choose|i: int| 0 <= i < head.len() && head[i] == 0u8;
            assert(e[i] == 0u8);
        }
        if has_nul(tail) {
            let i = choose|i: int| 0 <= i < tail.len() && tail[i] == 0u8;
            assert(e[head.len() + i] == 0u8);
        }
        if has_nul(e) {
            let i = choose|i: int| 0 <= i < e.len() && e[i] == 0u8;
            if i < head.len() {
                assert(head[i] == 0u8);
            } else {
                assert(tail[i - head.len()] == 0u8);
            }
        }
        if s.contains('\0') {
            let k = choose|k: int| 0 <= k < s.len() && s[k] == '\0';
            if k > 0 {
                assert(rest[k - 1] == '\0');
            }
        }
        if rest.contains('\0') {
            let k = choose|k: int| 0 <= k < rest.len() && rest[k] == '\0';
            assert(s[k + 1] == '\0');
        }
    }
}

/// A name in the form the C interface takes it: `bytes` are the UTF-8
/// bytes of the name followed by a zero byte, and `len` is the number of
/// bytes of the name itself.
#[derive(Debug)]
pub struct CName {
    pub bytes: Vec<u8>,
    pub len: usize,
}

/// Converts `name` into a C string, as the LLVM calls that take a name
/// need it; fails when the name holds the NUL character.
pub fn c_name(name: &str) -> (r: Result<CName, NulError>)
    ensures
        r is Ok <==> !name@.contains('\0'),
        r matches Ok(c) ==> c.bytes@ == encode_utf8(name@).push(0u8) && c.len as int
            == encode_utf8(name@).len(),
        r matches Err(e) ==> e.bytes@ == encode_utf8(name@) && first_nul_at(
            e.bytes@,
            e.position as int,
        ),
{
    let bytes = vstd::slice::slice_to_vec(name.as_bytes());
    let len = bytes.len();
    proof {
        lemma_encode_has_nul(name@);
    }
    match nul_terminated(bytes) {
        Ok(c) => Ok(CName { bytes: c, len }),
        Err(e) => Err(e),
    }
}

/// A C string made by `c_name` ends where the name ends: its first zero
/// byte is its terminator, so C code that reads it sees the whole name and
/// nothing more.
pub proof fn lemma_c_name_terminator(name: Seq<char>, c: Seq<u8>)
    requires
        !name.contains('\0'),
        c == encode_utf8(name).push(0u8),
    ensures
        first_nul_at(c, encode_utf8(name).len() as int),
{
    lemma_encode_has_nul(name);
    let e = encode_utf8(name);
    assert forall|i: int| 0 <= i < e.len() implies c[i] != 0u8 by {
        assert(c[i] == e[i]);
    }
}

/// The text that a C string made by `c_name` holds, read back without its
/// terminator, is the name it was made from.
pub proof fn lemma_c_name_reads_back(name: Seq<char>, c: Seq<u8>)
    requires
        c == encode_utf8(name).push(0u8),
    ensures
        text_of(c.drop_last()) == name,
{
    assert(c.drop_last() =~= encode_utf8(name));
    lemma_text_of_encoding(name);
}

} // verus!
