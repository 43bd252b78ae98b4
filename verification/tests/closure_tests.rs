use ddlog_rt::default_closure;
use ddlog_rt::ClosureImpl;

fn closure1_f(args: (&String, &u32), captured: &Vec<u64>) -> Vec<String> {
    captured
        .iter()
        .map(|x| format!("x: {}, arg0: {}, arg1: {}", x, args.0, args.1))
        .collect()
}

fn closure2_f(args: (&String, &u32), captured: &String) -> Vec<String> {
    vec![format!(
        "captured: {}, arg0: {}, arg1: {}",
        captured, args.0, args.1
    )]
}

#[test]
fn closure_test() {
    let closure1: ClosureImpl<Vec<u64>, _> = ClosureImpl {
        description: "test closure 1".to_string(),
        token: 1,
        captured: vec![0, 1, 2, 3],
        f: closure1_f,
    };

    let closure2: ClosureImpl<String, _> = ClosureImpl {
        description: "test closure 1".to_string(),
        token: 2,
        captured: "Bar".to_string(),
        f: closure2_f,
    };

    let ref arg1 = "bar".to_string();
    let ref arg2: u32 = 100;
    assert_eq!(
        closure1.call((arg1, arg2)),
        vec![
            "x: 0, arg0: bar, arg1: 100",
            "x: 1, arg0: bar, arg1: 100",
            "x: 2, arg0: bar, arg1: 100",
            "x: 3, arg0: bar, arg1: 100"
        ]
    );
    assert!(closure1.eq_dyn(&closure1.clone_dyn()));
    assert!(closure2.eq_dyn(&closure2.clone_dyn()));
    assert_eq!(closure1.eq_dyn_other(&closure2), false);
}

fn capture_seq_f(_args: (), captured: &Vec<u64>) -> u64 {
    captured.iter().sum()
}

fn capture_text_f(_args: (), captured: &String) -> u64 {
    captured.len() as u64
}

#[test]
fn scenario_closures_with_distinct_captured_types() {
    let a: ClosureImpl<Vec<u64>, _> = ClosureImpl {
        description: "d1".to_string(),
        token: 10,
        captured: vec![0, 1, 2, 3],
        f: capture_seq_f,
    };
    let b: ClosureImpl<String, _> = ClosureImpl {
        description: "d1".to_string(),
        token: 11,
        captured: "Bar".to_string(),
        f: capture_text_f,
    };
    // Distinct captured types mean distinct identity tokens: never equal,
    // and their relative order is the token order.
    assert!(!a.eq_dyn_other(&b));
    assert!(!b.eq_dyn_other(&a));
    assert_eq!(a.cmp_dyn_other(&b), std::cmp::Ordering::Less);
    assert_eq!(b.cmp_dyn_other(&a), std::cmp::Ordering::Greater);
    // A clone equals the closure it came from.
    assert!(a.clone_dyn().eq_dyn(&a));
    assert!(a.eq_dyn(&a.clone_dyn()));
}

fn add_captured_f(args: (u64, u64), captured: &u64) -> u64 {
    args.0 + args.1 + *captured
}

#[test]
fn closure_invocation_delegates() {
    let c: ClosureImpl<u64, _> = ClosureImpl {
        description: "adder".to_string(),
        token: 3,
        captured: 5,
        f: add_captured_f,
    };
    assert_eq!(c.call((2, 3)), add_captured_f((2, 3), &5));
    assert_eq!(c.call((0, 0)), 5);
}

#[test]
fn closure_equality_law() {
    let a: ClosureImpl<u64, _> = ClosureImpl {
        description: "x".to_string(),
        token: 7,
        captured: 41,
        f: add_captured_f,
    };
    let same: ClosureImpl<u64, _> = ClosureImpl {
        description: "y".to_string(),
        token: 7,
        captured: 41,
        f: add_captured_f,
    };
    let other_captured: ClosureImpl<u64, _> = ClosureImpl {
        description: "x".to_string(),
        token: 7,
        captured: 42,
        f: add_captured_f,
    };
    let other_token: ClosureImpl<u64, _> = ClosureImpl {
        description: "x".to_string(),
        token: 8,
        captured: 41,
        f: add_captured_f,
    };
    // Same token, equal captured values: equal, hash equal, order equal.
    assert!(a.eq_dyn(&same));
    assert_eq!(a.hash_dyn(), same.hash_dyn());
    assert_eq!(a.cmp_dyn(&same), std::cmp::Ordering::Equal);
    // Same token, different captured values: order by captured value.
    assert!(!a.eq_dyn(&other_captured));
    assert_eq!(a.cmp_dyn(&other_captured), std::cmp::Ordering::Less);
    // Different tokens: never equal, order by token.
    assert!(!a.eq_dyn(&other_token));
    assert_eq!(a.cmp_dyn(&other_token), std::cmp::Ordering::Less);
    assert_eq!(other_token.cmp_dyn(&a), std::cmp::Ordering::Greater);
}

#[test]
fn closure_hash_is_deterministic() {
    let a: ClosureImpl<u64, _> = ClosureImpl {
        description: "x".to_string(),
        token: 9,
        captured: 1000,
        f: add_captured_f,
    };
    assert_eq!(a.hash_dyn(), a.hash_dyn());
    assert_eq!(a.hash_dyn(), a.clone_dyn().hash_dyn());
}

#[test]
fn closure_deserialization_always_fails() {
    let res: Result<ClosureImpl<u64, fn((u64, u64), &u64) -> u64>, String> =
        ClosureImpl::deserialize(&[1, 2, 3]);
    assert_eq!(
        res.err(),
        Some("Deserialization of closures is not implemented.".to_string())
    );
    let res2: Result<ClosureImpl<u64, fn((u64, u64), &u64) -> u64>, String> =
        ClosureImpl::from_record(&ddlog_rt::Record::UInt(1));
    assert_eq!(
        res2.err(),
        Some("'from_record' not implemented for closures.".to_string())
    );
}

#[test]
fn closure_mutation_always_fails() {
    let mut c: ClosureImpl<u64, _> = ClosureImpl {
        description: "x".to_string(),
        token: 4,
        captured: 1,
        f: add_captured_f,
    };
    let res = c.mutate(&ddlog_rt::Record::UInt(2));
    assert_eq!(
        res.err(),
        Some("'mutate' not implemented for closures.".to_string())
    );
    assert_eq!(c.captured, 1);
    assert_eq!(c.token, 4);
}

#[test]
fn closure_rendering() {
    let c: ClosureImpl<u32, _> = ClosureImpl {
        description: "plus".to_string(),
        token: 12,
        captured: 5,
        f: |_args: (), captured: &u32| *captured,
    };
    assert_eq!(c.fmt_display_dyn(), "<closure: plus, captured_args: 5>");
    assert_eq!(c.fmt_debug_dyn(), "<closure: plus, captured_args: 5>");
    assert_eq!(c.serialize_dyn(), "<closure: plus, captured_args: 5>");
    match c.into_record_dyn() {
        ddlog_rt::Record::Str(s) => assert_eq!(s, "<closure: plus, captured_args: 5>"),
        _ => panic!("closure record is not a text record"),
    }
    assert_eq!(c.internals(), 12);
}

#[test]
fn constructed_closures_get_distinct_tokens() {
    let mut reg = ddlog_rt::TypeRegistry::new();
    let a = ClosureImpl::new(&mut reg, "site one".to_string(), 5u64, add_captured_f);
    let b = ClosureImpl::new(&mut reg, "site two".to_string(), 5u64, add_captured_f);
    assert_eq!(a.token, 0);
    assert_eq!(b.token, 1);
    // Same captured value, but distinct construction sites: never equal.
    assert!(!a.eq_dyn(&b));
    assert!(a.eq_dyn(&a.clone_dyn()));
}

#[test]
fn default_closure_returns_default() {
    let d = default_closure::<(u8, u8), u32>();
    assert_eq!(d.call((3, 4)), 0);
    assert_eq!(d.description, "default closure");
    assert_eq!(d.token, 0);
    let e = default_closure::<(), String>();
    assert_eq!(e.call(()), "");
}
