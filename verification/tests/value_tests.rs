use std::cmp::Ordering;

use ddlog_rt::dispatch_cmp_matches_native;
use ddlog_rt::dispatch_eq_matches_native;
use ddlog_rt::dispatch_hash_matches_native;
use ddlog_rt::erase_consume_round_trip;
use ddlog_rt::mutation_isolation;
use ddlog_rt::string_append;
use ddlog_rt::string_append_str;
use ddlog_rt::DDValConvert;
use ddlog_rt::DDValue;
use ddlog_rt::Record;
use ddlog_rt::RefCounter;
use ddlog_rt::TypeRegistry;
use ddlog_rt::Val;

#[test]
fn scenario_register_u32_and_compare() {
    let mut registry = TypeRegistry::new();
    registry.register(32);
    assert!(registry.is_registered(32));
    let five = 5u32.into_ddvalue();
    assert_eq!(u32::from_ddvalue(five), 5);
    let a = 5u32.into_ddvalue();
    let b = 5u32.into_ddvalue();
    assert!(a.eq_value(&b));
    let three = 3u32.into_ddvalue();
    let five2 = 5u32.into_ddvalue();
    assert_eq!(three.cmp_value(&five2), Ordering::Less);
}

#[test]
fn round_trip_inline_branch() {
    assert_eq!(erase_consume_round_trip(42u32), 42);
    assert_eq!(erase_consume_round_trip(true), true);
    assert_eq!(erase_consume_round_trip(-7i64), -7);
    assert_eq!(erase_consume_round_trip(255u8), 255);
    assert_eq!(erase_consume_round_trip(()), ());
}

#[test]
fn round_trip_shared_heap_branch() {
    assert_eq!(
        erase_consume_round_trip("hello".to_string()),
        "hello".to_string()
    );
    assert_eq!(erase_consume_round_trip(1u128 << 100), 1u128 << 100);
    assert_eq!(erase_consume_round_trip(i128::MIN), i128::MIN);
    assert_eq!(erase_consume_round_trip(vec![1u64, 2, 3]), vec![1, 2, 3]);
}

#[test]
fn storage_branches() {
    assert!(u32::small());
    assert!(u64::small());
    assert!(bool::small());
    assert!(<()>::small());
    assert!(!u128::small());
    assert!(!i128::small());
    assert!(!String::small());
    assert!(!<Vec<u64> as Val>::small());
}

#[test]
fn dispatch_agrees_with_native() {
    let (d, n) = dispatch_eq_matches_native(5u32, 5u32);
    assert!(d && n);
    let (d, n) = dispatch_eq_matches_native("a".to_string(), "b".to_string());
    assert!(!d && !n);
    let (d, n) = dispatch_cmp_matches_native(3u32, 5u32);
    assert_eq!(d, Ordering::Less);
    assert_eq!(n, Ordering::Less);
    let (d, n) = dispatch_cmp_matches_native("b".to_string(), "a".to_string());
    assert_eq!(d, Ordering::Greater);
    assert_eq!(n, Ordering::Greater);
    let (d, n) = dispatch_hash_matches_native(77u64);
    assert_eq!(d, n);
    let (d, n) = dispatch_hash_matches_native("abc".to_string());
    assert_eq!(d, n);
}

#[test]
fn mutation_isolated_from_prior_clone() {
    // A large (shared heap) value: clones share the allocation.
    let mut handle = (7u128).into_ddvalue();
    let before = handle.clone_value();
    let res = handle.mutate(&Record::UInt(9));
    assert!(res.is_ok());
    // The mutated handle holds the new value; the earlier clone still
    // observes the old one.
    assert_eq!(u128::from_ddvalue(handle), 9);
    assert_eq!(u128::from_ddvalue(before), 7);
}

#[test]
fn mutation_isolation_witness() {
    let mut handle = "shared".to_string().into_ddvalue();
    let witness = mutation_isolation(&mut handle, &Record::Str("changed".to_string()));
    assert_eq!(witness, "shared");
    assert_eq!(String::from_ddvalue(handle), "changed");
}

#[test]
fn mutation_rejects_foreign_records() {
    let mut handle = 5u32.into_ddvalue();
    let res = handle.mutate(&Record::Bool(true));
    assert!(res.is_err());
    assert_eq!(u32::from_ddvalue(handle), 5);
}

#[test]
fn record_conversion_round_trips() {
    let rec = 5u32.to_record();
    assert_eq!(u32::from_record(&rec), Ok(5));
    let rec = (-3i8).to_record();
    assert_eq!(i8::from_record(&rec), Ok(-3));
    let rec = "hi".to_string().to_record();
    assert_eq!(String::from_record(&rec), Ok("hi".to_string()));
    let rec = vec![1u64, 2].to_record();
    assert_eq!(<Vec<u64> as Val>::from_record(&rec), Ok(vec![1, 2]));
    let rec = ().to_record();
    assert_eq!(<() as Val>::from_record(&rec), Ok(()));
    let rec = true.to_record();
    assert_eq!(bool::from_record(&rec), Ok(true));
}

#[test]
fn record_conversion_errors() {
    // Out of range for the width.
    assert!(u32::from_record(&Record::UInt(1 << 40)).is_err());
    assert!(i8::from_record(&Record::SInt(200)).is_err());
    // Wrong record shape.
    assert!(u32::from_record(&Record::SInt(5)).is_err());
    assert!(bool::from_record(&Record::UInt(1)).is_err());
    assert!(String::from_record(&Record::Bool(false)).is_err());
    assert!(<() as Val>::from_record(&Record::Tuple(vec![Record::Bool(true)])).is_err());
    // A collection with one unconvertible entry.
    assert!(
        <Vec<u64> as Val>::from_record(&Record::Array(vec![
            Record::UInt(1),
            Record::Bool(false)
        ]))
        .is_err()
    );
}

#[test]
fn record_rendering() {
    assert_eq!(Record::UInt(5).render(), "5");
    assert_eq!(Record::UInt(0).render(), "0");
    assert_eq!(Record::UInt(u128::MAX).render(), u128::MAX.to_string());
    assert_eq!(Record::SInt(-3).render(), "-3");
    assert_eq!(Record::SInt(i128::MIN).render(), i128::MIN.to_string());
    assert_eq!(Record::Bool(true).render(), "true");
    assert_eq!(Record::Bool(false).render(), "false");
    assert_eq!(Record::Str("hi".to_string()).render(), "\"hi\"");
    assert_eq!(
        Record::Tuple(vec![Record::UInt(1), Record::UInt(2)]).render(),
        "(1, 2)"
    );
    assert_eq!(Record::Tuple(vec![]).render(), "()");
    assert_eq!(Record::Array(vec![Record::SInt(-1)]).render(), "[-1]");
    assert_eq!(
        Record::NamedStruct("point".to_string(), vec![Record::UInt(1), Record::UInt(2)]).render(),
        "point{1, 2}"
    );
}

#[test]
fn handle_rendering_routes_through_records() {
    let h = 5u32.into_ddvalue();
    assert_eq!(h.fmt_display(), "5");
    assert_eq!(h.fmt_debug(), "5");
    let h = "x".to_string().into_ddvalue();
    assert_eq!(h.fmt_display(), "\"x\"");
    match h.into_record() {
        Record::Str(s) => assert_eq!(s, "x"),
        _ => panic!("string value converts to a text record"),
    }
}

#[test]
fn string_helpers_concatenate() {
    assert_eq!(string_append_str("foo".to_string(), "bar"), "foobar");
    assert_eq!(
        string_append("foo".to_string(), &"baz".to_string()),
        "foobaz"
    );
    assert_eq!(string_append_str(String::new(), ""), "");
}

#[test]
fn string_order_and_equality() {
    assert_eq!(
        "apple".to_string().cmp_val(&"banana".to_string()),
        Ordering::Less
    );
    assert_eq!(
        "banana".to_string().cmp_val(&"apple".to_string()),
        Ordering::Greater
    );
    assert_eq!("same".to_string().cmp_val(&"same".to_string()), Ordering::Equal);
    assert!("same".to_string().eq_val(&"same".to_string()));
    assert!(!"same".to_string().eq_val(&"other".to_string()));
}

#[test]
fn vector_order_is_lexicographic() {
    let a = vec![1u64, 2, 3];
    let b = vec![1u64, 2, 4];
    assert_eq!(a.cmp_val(&b), Ordering::Less);
    assert_eq!(b.cmp_val(&a), Ordering::Greater);
    assert_eq!(a.cmp_val(&vec![1u64, 2, 3]), Ordering::Equal);
    assert_eq!(a.cmp_val(&vec![1u64, 2]), Ordering::Greater);
    assert_eq!(vec![0u64; 0].cmp_val(&a), Ordering::Less);
}

#[test]
fn hashes_are_deterministic() {
    assert_eq!(5u32.hash_val(), 5u32.hash_val());
    assert_eq!("abc".to_string().hash_val(), "abc".to_string().hash_val());
    assert_eq!(vec![1u64, 2].hash_val(), vec![1u64, 2].hash_val());
    let h = 9u128.into_ddvalue();
    assert_eq!(h.hash_value(), 9u128.hash_val());
}

#[test]
fn defaults() {
    assert_eq!(u32::default_val(), 0);
    assert_eq!(bool::default_val(), false);
    assert_eq!(String::default_val(), "");
    assert_eq!(<Vec<u64> as Val>::default_val(), Vec::<u64>::new());
}

#[test]
fn registry_is_idempotent() {
    let mut r = TypeRegistry::new();
    assert!(!r.is_registered(1));
    r.register(1);
    assert!(r.is_registered(1));
    r.register(1);
    assert!(r.is_registered(1));
    r.register(2);
    assert!(r.is_registered(1));
    assert!(r.is_registered(2));
    assert!(!r.is_registered(3));
}

#[test]
fn registry_issues_distinct_tokens() {
    let mut r = TypeRegistry::new();
    let t0 = r.fresh_token();
    let t1 = r.fresh_token();
    let t2 = r.fresh_token();
    assert_eq!(t0, 0);
    assert_eq!(t1, 1);
    assert_eq!(t2, 2);
}

#[test]
fn reference_count_discipline() {
    let mut c = RefCounter::new();
    // Cloning raises the count by one and never destroys.
    c.acquire();
    c.acquire();
    // Dropping lowers it by one; destruction only at zero.
    assert!(!c.release());
    assert!(!c.release());
    // The last drop destroys, exactly once.
    assert!(c.release());
}

#[test]
fn interleavings_destroy_exactly_once() {
    // Clone twice, then drop all three references: one destruction, at the
    // end.
    let ops = vec![true, true, false, false, false];
    assert_eq!(ddlog_rt::run_interleaving(&ops), 1);
    // Interleave clones among the drops: still exactly one destruction.
    let ops = vec![true, false, true, false, false];
    assert_eq!(ddlog_rt::run_interleaving(&ops), 1);
    // Leave a reference live: no destruction at all.
    let ops = vec![true, false];
    assert_eq!(ddlog_rt::run_interleaving(&ops), 0);
    // Drop the only reference straight away: one destruction.
    let ops = vec![false];
    assert_eq!(ddlog_rt::run_interleaving(&ops), 1);
}

#[test]
fn shared_clone_observes_same_value() {
    let big = "a long shared value".to_string();
    let h1: DDValue<String> = big.into_ddvalue();
    let h2 = h1.clone_value();
    assert!(h1.eq_value(&h2));
    assert_eq!(String::from_ddvalue(h2), "a long shared value");
    assert_eq!(String::from_ddvalue(h1), "a long shared value");
}

#[test]
fn borrowing_the_erased_value() {
    let h = 11u32.into_ddvalue();
    assert_eq!(*u32::from_ddvalue_ref(&h), 11);
    let h = "s".to_string().into_ddvalue();
    assert_eq!(String::from_ddvalue_ref(&h).as_str(), "s");
    let borrowed = 13u64.ddvalue();
    assert_eq!(u64::from_ddvalue(borrowed), 13);
}
