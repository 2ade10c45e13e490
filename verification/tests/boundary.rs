use surreal_boundary::bridge::{classify, deliver, Failure, HostEnv};
use surreal_boundary::context::ExecutionContext;
use surreal_boundary::registry::Registry;

#[test]
fn create_then_resolve_returns_value() {
    let mut r: Registry<u64> = Registry::new();
    let h = r.create(42);
    assert_ne!(h, 0);
    assert_eq!(r.resolve(h, "Thing"), Ok(&42));
}

#[test]
fn create_then_resolve_string_value() {
    let mut r: Registry<String> = Registry::new();
    let h = r.create(String::from("hello"));
    assert_eq!(r.resolve(h, "Value"), Ok(&String::from("hello")));
}

#[test]
fn handles_are_distinct_and_values_kept() {
    let mut r: Registry<u64> = Registry::new();
    let a = r.create(1);
    let b = r.create(2);
    let c = r.create(3);
    assert!(a != b && b != c && a != c);
    assert_eq!(r.resolve(a, "A"), Ok(&1));
    assert_eq!(r.resolve(b, "B"), Ok(&2));
    assert_eq!(r.resolve(c, "C"), Ok(&3));
}

#[test]
fn resolve_zero_fails_null_handle() {
    let r: Registry<u64> = Registry::new();
    assert_eq!(r.resolve(0, "Foo"), Err(Failure::NullHandle("Foo")));
}

#[test]
fn resolve_exclusive_zero_fails_null_handle() {
    let mut r: Registry<u64> = Registry::new();
    assert_eq!(
        r.resolve_exclusive(0, "Foo"),
        Err(Failure::NullHandle("Foo"))
    );
}

#[test]
fn resolve_exclusive_gives_mutable_view() {
    let mut r: Registry<u64> = Registry::new();
    let h = r.create(5);
    match r.resolve_exclusive(h, "Counter") {
        Ok(v) => *v = 6,
        Err(f) => panic!("unexpected failure: {f:?}"),
    }
    assert_eq!(r.resolve(h, "Counter"), Ok(&6));
}

#[test]
fn release_zero_is_noop() {
    let mut r: Registry<u64> = Registry::new();
    let h = r.create(10);
    r.release(0);
    assert_eq!(r.resolve(h, "Thing"), Ok(&10));
}

#[test]
fn release_keeps_other_handles_live() {
    let mut r: Registry<u64> = Registry::new();
    let a = r.create(1);
    let b = r.create(2);
    r.release(a);
    assert_eq!(r.resolve(b, "B"), Ok(&2));
    let c = r.create(3);
    assert_ne!(c, a);
    assert_eq!(r.resolve(c, "C"), Ok(&3));
}

#[test]
fn classify_internal_error() {
    let e = classify(&Failure::Internal(String::from("engine broke")));
    assert_eq!(e.identity, "java/lang/exception");
    assert_eq!(e.message, "engine broke");
}

#[test]
fn classify_null_handle() {
    let e = classify(&Failure::NullHandle("Surreal"));
    assert_eq!(e.identity, "java/lang/NullPointerException");
    assert_eq!(e.message, "Surreal instance not found");
}

#[test]
fn classify_exhausted() {
    let e = classify(&Failure::Exhausted);
    assert_eq!(e.identity, "java/util/NoSuchElementException");
    assert_eq!(e.message, "No more elements");
}

#[test]
fn classify_domain_error() {
    let e = classify(&Failure::Domain(String::from("table does not exist")));
    assert_eq!(e.identity, "com/surrealdb/SurrealDBException");
    assert_eq!(e.message, "table does not exist");
}

#[test]
fn classify_is_deterministic() {
    let a = classify(&Failure::NullHandle("X"));
    let b = classify(&Failure::NullHandle("X"));
    assert_eq!(a, b);
}

#[test]
fn deliver_sets_pending_and_returns_fallback() {
    let mut env = HostEnv::new();
    let out = deliver(Failure::Exhausted, &mut env, -1i64);
    assert_eq!(out, -1);
    let pending = env.pending.expect("an exception must be pending");
    assert_eq!(pending.identity, "java/util/NoSuchElementException");
    assert_eq!(pending.message, "No more elements");
}

#[test]
fn deliver_never_overwrites_pending() {
    let mut env = HostEnv::new();
    deliver(Failure::NullHandle("First"), &mut env, ());
    let out = deliver(Failure::Domain(String::from("second")), &mut env, 7u32);
    assert_eq!(out, 7);
    let pending = env.pending.expect("the first exception must still be pending");
    assert_eq!(pending.identity, "java/lang/NullPointerException");
    assert_eq!(pending.message, "First instance not found");
}

#[test]
fn block_on_returns_exact_success_value() {
    let ctx = ExecutionContext::new().expect("the engine must start");
    assert_eq!(ctx.block_on(Ok(42u64)), Ok(42));
}

#[test]
fn block_on_propagates_failure_unchanged() {
    let ctx = ExecutionContext::new().expect("the engine must start");
    let out: Result<u64, Failure> = ctx.block_on(Err(Failure::Domain(String::from("boom"))));
    assert_eq!(out, Err(Failure::Domain(String::from("boom"))));
}
