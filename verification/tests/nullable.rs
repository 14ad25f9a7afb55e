use std::any::TypeId;
use std::mem::MaybeUninit;
use std::ops::Range;
use std::rc::Rc;
use std::sync::atomic::{AtomicBool, AtomicI32, AtomicI8, AtomicU32, AtomicU64, AtomicUsize, Ordering};
use std::sync::Arc;

use nullable::null_round_trip;
use nullable::wrapper::boxed_is_null_matches_inner;
use nullable::wrapper::range_is_null_matches_endpoints;
use nullable::wrapper::shared_is_null_matches_inner;
use nullable::wrapper::sync_shared_is_null_matches_inner;
use nullable::Null;

#[test]
fn test() {
    let s = Some(1);
    assert_eq!(s.is_null(), false);
    assert_eq!(1.is_null(), false);
    assert_eq!(i8::MIN.is_null(), true);
    assert_eq!("".is_null(), true);
    assert_eq!("2".is_null(), false);
    println!("TYpeId3:{:?}", TypeId::of::<()>());
}

#[test]
fn round_trip_unsigned() {
    assert!(<u8 as Null>::null().is_null());
    assert!(<u16 as Null>::null().is_null());
    assert!(<u32 as Null>::null().is_null());
    assert!(<u64 as Null>::null().is_null());
    assert!(<u128 as Null>::null().is_null());
    assert!(<usize as Null>::null().is_null());
}

#[test]
fn round_trip_signed() {
    assert!(<i8 as Null>::null().is_null());
    assert!(<i16 as Null>::null().is_null());
    assert!(<i32 as Null>::null().is_null());
    assert!(<i64 as Null>::null().is_null());
    assert!(<i128 as Null>::null().is_null());
    assert!(<isize as Null>::null().is_null());
}

#[test]
fn round_trip_composites() {
    assert!(<Option<u64> as Null>::null().is_null());
    assert!(<String as Null>::null().is_null());
    assert!(<&str as Null>::null().is_null());
    assert!(<Vec<i16> as Null>::null().is_null());
    assert!(<Box<i32> as Null>::null().is_null());
    assert!(<Rc<u8> as Null>::null().is_null());
    assert!(<Arc<isize> as Null>::null().is_null());
    assert!(<Range<u32> as Null>::null().is_null());
    assert!(<TypeId as Null>::null().is_null());
    assert!(<MaybeUninit<u64> as Null>::null().is_null());
}

#[test]
fn round_trip_through_law_function() {
    assert!(null_round_trip::<u8>());
    assert!(null_round_trip::<i128>());
    assert!(null_round_trip::<bool>());
    assert!(null_round_trip::<Option<i32>>());
    assert!(null_round_trip::<String>());
    assert!(null_round_trip::<Vec<u8>>());
    assert!(null_round_trip::<Box<u64>>());
    assert!(null_round_trip::<Range<i8>>());
    assert!(null_round_trip::<TypeId>());
    assert!(null_round_trip::<AtomicU32>());
    assert!(null_round_trip::<AtomicI8>());
    assert!(null_round_trip::<AtomicBool>());
}

#[test]
fn integer_sentinels_are_the_extremes() {
    assert_eq!(<u8 as Null>::null(), u8::MAX);
    assert_eq!(<u64 as Null>::null(), u64::MAX);
    assert_eq!(<usize as Null>::null(), usize::MAX);
    assert_eq!(<i8 as Null>::null(), i8::MIN);
    assert_eq!(<i64 as Null>::null(), i64::MIN);
    assert_eq!(<isize as Null>::null(), isize::MIN);
    assert!(u32::MAX.is_null());
    assert!(i32::MIN.is_null());
}

#[test]
fn legitimate_values_are_not_sentinels() {
    assert!(!0u8.is_null());
    assert!(!0i8.is_null());
    assert!(!42u64.is_null());
    assert!(!(-42i64).is_null());
    assert!(!u8::MIN.is_null());
    assert!(!i8::MAX.is_null());
    assert!(!Some(0u32).is_null());
    assert!(!vec![1, 2, 3].is_null());
    assert!(!String::from("x").is_null());
}

#[test]
fn bool_sentinel_is_false() {
    assert_eq!(<bool as Null>::null(), false);
    assert!(false.is_null());
    assert!(!true.is_null());
}

#[test]
fn option_sentinel_is_none() {
    assert!(None::<i32>.is_null());
    assert!(!Some(1).is_null());
    assert!(!Some(i32::MIN).is_null());
}

#[test]
fn wrapper_delegates_to_inner() {
    assert!(Box::new(u16::MAX).is_null());
    assert!(!Box::new(7u16).is_null());
    assert!(Rc::new(i64::MIN).is_null());
    assert!(!Rc::new(0i64).is_null());
    assert!(Arc::new(String::new()).is_null());
    assert!(!Arc::new(String::from("a")).is_null());
    assert!(Box::new(Box::new(u8::MAX)).is_null());
}

#[test]
fn wrapper_laws_on_concrete_values() {
    assert!(boxed_is_null_matches_inner(u32::MAX));
    assert!(!boxed_is_null_matches_inner(5u32));
    assert!(shared_is_null_matches_inner(i16::MIN));
    assert!(!shared_is_null_matches_inner(-1i16));
    assert!(sync_shared_is_null_matches_inner(usize::MAX));
    assert!(!sync_shared_is_null_matches_inner(0usize));
}

#[test]
fn range_needs_both_endpoints() {
    assert!(Range { start: i32::MIN, end: i32::MIN }.is_null());
    assert!(!Range { start: i32::MIN, end: 0 }.is_null());
    assert!(!Range { start: 0, end: i32::MIN }.is_null());
    assert!(!Range { start: 1, end: 4 }.is_null());
    assert!(range_is_null_matches_endpoints(u8::MAX, u8::MAX));
    assert!(!range_is_null_matches_endpoints(u8::MAX, 9));
}

#[test]
fn text_sentinel_is_empty() {
    assert_eq!(<&str as Null>::null(), "");
    assert!("".is_null());
    assert!(!" ".is_null());
    assert!(String::new().is_null());
    assert!(!String::from("0").is_null());
}

#[test]
fn vec_sentinel_is_empty() {
    let v: Vec<u8> = Null::null();
    assert_eq!(v.len(), 0);
    assert!(v.is_null());
    assert!(Vec::<String>::new().is_null());
    assert!(!vec![0u8].is_null());
}

#[test]
fn type_id_sentinel_is_unit() {
    assert_eq!(<TypeId as Null>::null(), TypeId::of::<()>());
    assert!(TypeId::of::<()>().is_null());
    assert!(!TypeId::of::<u32>().is_null());
    assert!(!TypeId::of::<Option<()>>().is_null());
}

#[test]
fn maybe_uninit_is_always_null() {
    assert!(MaybeUninit::<u64>::null().is_null());
    assert!(MaybeUninit::new(17u64).is_null());
}

#[test]
fn atomic_round_trip() {
    assert!(AtomicUsize::null().is_null());
    assert!(AtomicU32::null().is_null());
    assert!(AtomicU64::null().is_null());
    assert!(AtomicI32::null().is_null());
    assert!(AtomicI8::null().is_null());
    assert!(AtomicBool::null().is_null());
}

#[test]
fn atomic_store_then_test() {
    let a = AtomicU32::new(5);
    assert!(!a.is_null());
    a.store(u32::MAX, Ordering::Relaxed);
    assert!(a.is_null());
    a.store(0, Ordering::Relaxed);
    assert!(!a.is_null());

    let b = AtomicI32::new(0);
    assert!(!b.is_null());
    b.store(i32::MIN, Ordering::Relaxed);
    assert!(b.is_null());

    let c = AtomicBool::new(true);
    assert!(!c.is_null());
    c.store(false, Ordering::Relaxed);
    assert!(c.is_null());
}
