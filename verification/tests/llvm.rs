use llvm_wrap::convert::{c_count, count_from_c_int, decode_bool, encode_bool, null_handles};
use llvm_wrap::cstr::{c_name, nul_terminated};
use llvm_wrap::module::{verify_outcome, FunctionIter, ModuleFlagBehavior};
use llvm_wrap::text::{optional_text, string_lossy};
use llvm_wrap::value::{Use, UseIter};
use llvm_wrap::{BasicBlock, Builder, Context, MDKindID, Message, Module, Type, Value, LLVM};

#[test]
fn test_with_llvm() {
    let res = LLVM::with_llvm(|_llvm, x| x, 0);

    assert_eq!(0, res)
}

#[test]
fn with_llvm_passes_the_argument() {
    let res = LLVM::with_llvm(|_llvm, x: &str| x.len() + 1, "four");
    assert_eq!(5, res);
}

#[test]
fn message_reads_back_its_text() {
    let name = c_name("test").unwrap();
    let text = name.bytes[..name.len].to_vec();
    let msg = Message::from_c_bytes(text);
    assert_eq!("test", msg.to_string());
    assert_eq!("test", msg.to_str());
}

#[test]
fn message_decodes_lossily() {
    let msg = Message::from_c_bytes(vec![b'a', 0xff, b'b']);
    assert_eq!("a\u{fffd}b", msg.to_string());
    let msg = Message::from_c_bytes(vec![0xc3, 0xa9]);
    assert_eq!("é", msg.to_string());
}

#[test]
fn c_name_of_plain_name() {
    let c = c_name("abc").unwrap();
    assert_eq!(vec![b'a', b'b', b'c', 0], c.bytes);
    assert_eq!(3, c.len);
}

#[test]
fn c_name_of_empty_name() {
    let c = c_name("").unwrap();
    assert_eq!(vec![0u8], c.bytes);
    assert_eq!(0, c.len);
}

#[test]
fn c_name_of_multibyte_name() {
    let c = c_name("é€").unwrap();
    assert_eq!(vec![0xc3, 0xa9, 0xe2, 0x82, 0xac, 0], c.bytes);
    assert_eq!(5, c.len);
}

#[test]
fn c_name_refuses_nul() {
    let e = c_name("a\0b\0").unwrap_err();
    assert_eq!(1, e.position);
    assert_eq!(vec![b'a', 0, b'b', 0], e.bytes);
}

#[test]
fn nul_terminated_appends_terminator() {
    assert_eq!(vec![1u8, 2, 0], nul_terminated(vec![1, 2]).unwrap());
    let e = nul_terminated(vec![0, 5]).unwrap_err();
    assert_eq!(0, e.position);
    assert_eq!(vec![0u8, 5], e.bytes);
}

#[test]
fn string_lossy_replaces_invalid_bytes() {
    assert_eq!("\u{fffd}", string_lossy(&[0xff]));
    assert_eq!("ok", string_lossy(b"ok"));
    assert_eq!("", string_lossy(&[]));
}

#[test]
fn optional_text_follows_null() {
    assert_eq!(None, optional_text(None));
    assert_eq!(Some("mod".to_string()), optional_text(Some(b"mod".to_vec())));
}

#[test]
fn verify_outcome_by_status() {
    assert_eq!(Ok(()), verify_outcome(0, b""));
    assert_eq!(Err("broken module".to_string()), verify_outcome(1, b"broken module"));
}

#[test]
fn bools_round_trip() {
    assert_eq!(1, encode_bool(true));
    assert_eq!(0, encode_bool(false));
    assert!(decode_bool(encode_bool(true)));
    assert!(!decode_bool(encode_bool(false)));
    assert!(decode_bool(-3));
    assert!(decode_bool(2));
    assert!(!decode_bool(0));
}

#[test]
fn counts_are_cast() {
    assert_eq!(7, c_count(7));
    assert_eq!(u32::MAX, c_count(u32::MAX as usize));
    assert_eq!(12, count_from_c_int(12));
    assert_eq!(usize::MAX, count_from_c_int(-1));
}

#[test]
fn counts_are_cut_to_32_bits() {
    if usize::BITS == 64 {
        assert_eq!(3, c_count(((u32::MAX as usize) + 1) + 3));
    }
}

#[test]
fn null_handles_are_zero() {
    assert_eq!(vec![0usize, 0, 0], null_handles(3));
    assert!(null_handles(0).is_empty());
}

#[test]
fn type_handles_round_trip() {
    let a = Type::from_raw(0x1000);
    let b = Type::from_raw(0x2000);
    let elems = [a, b];
    let arr = Type::handle_array(&elems);
    assert_eq!(vec![0x1000usize, 0x2000], arr.handles);
    assert_eq!(2, arr.count);
    let back = Type::from_handles(&arr.handles);
    assert_eq!(vec![a, b], back);
    assert_eq!(0x2000, back[1].as_raw());
}

#[test]
fn type_handles_compare_by_address() {
    assert_eq!(Type::from_raw(8), Type::from_raw(8));
    assert_ne!(Type::from_raw(8), Type::from_raw(16));
}

#[test]
fn value_handle_array_keeps_order() {
    let vals = [Value::from_raw(3), Value::from_raw(1), Value::from_raw(2)];
    let arr = Value::handle_array(&vals);
    assert_eq!(vec![3usize, 1, 2], arr.handles);
    assert_eq!(3, arr.count);
    assert_eq!(0, Value::handle_array(&[]).count);
}

#[test]
fn basic_block_handle_keeps_its_address() {
    assert_eq!(5, BasicBlock::from_raw(5).as_raw());
}

#[test]
fn basic_blocks_from_handles() {
    let bs = BasicBlock::from_handles(&[5, 9]);
    assert_eq!(2, bs.len());
    assert_eq!(5, bs[0].as_raw());
    assert_eq!(9, bs[1].as_raw());
    assert!(BasicBlock::from_handles(&null_handles(0)).is_empty());
}

#[test]
fn use_iter_walks_the_chain() {
    // uses 10 -> 20 -> 30 -> end
    let succ = |u: usize| match u {
        10 => 20,
        20 => 30,
        _ => 0,
    };
    let mut it = UseIter::starting_at(10);
    let mut seen = vec![];
    while let Some(u) = it.next_with(succ) {
        seen.push(u.as_raw());
    }
    assert_eq!(vec![10usize, 20, 30], seen);
    assert!(it.next_with(succ).is_none());
    assert!(UseIter::starting_at(0).next_with(succ).is_none());
    assert_eq!(4, Use::from_raw(4).as_raw());
}

#[test]
fn function_iter_walks_the_chain() {
    let succ = |f: usize| if f == 1 { 2 } else { 0 };
    let mut it = FunctionIter::starting_at(1);
    assert_eq!(1, it.next_with(succ).unwrap().as_raw());
    assert_eq!(2, it.next_with(succ).unwrap().as_raw());
    assert!(it.next_with(succ).is_none());
    assert!(it.next_with(succ).is_none());
}

#[test]
fn contexts_dispose_only_when_created() {
    let c = Context::created(77);
    assert!(c.needs_dispose());
    assert_eq!(77, c.as_raw());
    let g = Context::shared(78);
    assert!(!g.needs_dispose());
    assert_eq!(78, g.as_raw());
}

#[test]
fn handles_keep_their_address() {
    assert_eq!(11, Builder::from_raw(11).as_raw());
    assert_eq!(12, Module::from_raw(12).as_raw());
    assert_eq!(13, Value::from_raw(13).as_raw());
    let _ = MDKindID::from_raw(4);
    let _ = ModuleFlagBehavior::AppendUnique;
}
