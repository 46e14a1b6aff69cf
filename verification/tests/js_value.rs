use rustyscript::js_value::{
    check_shape, poll_promise, resolve_step, to_rust_hashmap, BridgeStep, Observation, PromisePoll,
    PromiseState, Shape, TypedHandle, ValueFacts,
};
use rustyscript::text::str_eq;
use rustyscript::{Error, JsError};

/// A guest engine for the tests: a promise that settles after a number
/// of loop steps, or never, and a clock that each step moves on.
struct FakeEngine {
    steps_until_settled: Option<u32>,
    steps: u32,
    ms_per_step: u64,
    value: usize,
}

impl FakeEngine {
    fn observe(&self) -> Observation<usize> {
        match self.steps_until_settled {
            Some(n) if self.steps >= n => Observation::Fulfilled(Ok(self.value)),
            _ => Observation::Pending,
        }
    }

    fn elapsed_ms(&self) -> u64 {
        u64::from(self.steps) * self.ms_per_step
    }

    fn tick(&mut self) {
        self.steps += 1;
    }

    /// The loop of a blocking resolve.
    fn into_value(&mut self, timeout_ms: u64) -> Result<usize, Error> {
        loop {
            match resolve_step(self.observe(), self.elapsed_ms(), timeout_ms) {
                BridgeStep::Done(result) => return result,
                BridgeStep::Drive => self.tick(),
            }
        }
    }
}

fn object_entries() -> Vec<(String, Option<usize>)> {
    // `{ a: 1, b: 2, c: 3, 0: 4 }`, in the order in which the engine lists the keys
    vec![
        ("0".to_string(), Some(4)),
        ("a".to_string(), Some(1)),
        ("b".to_string(), Some(2)),
        ("c".to_string(), Some(3)),
    ]
}

#[test]
fn test_map() {
    let m = to_rust_hashmap(object_entries());
    assert_eq!(m.len(), 4);

    let a = m.get("a").unwrap();
    assert_eq!(*a, 1);

    let zero = m.get("0").unwrap();
    assert_eq!(*zero, 4);
}

#[test]
fn map_holds_exactly_the_listed_keys() {
    let m = to_rust_hashmap(object_entries());
    assert_eq!(m.len(), 4);
    for key in ["a", "b", "c", "0"] {
        assert!(m.contains_key(key));
    }
    for key in ["d", "", "A", "1", "00"] {
        assert!(!m.contains_key(key));
    }
    assert_eq!(m.get("b"), Some(&2));
    assert_eq!(m.get("c"), Some(&3));
}

#[test]
fn map_skips_keys_whose_lookup_found_nothing() {
    let m = to_rust_hashmap(vec![
        ("a".to_string(), Some(1)),
        ("gone".to_string(), None),
        ("b".to_string(), Some(2)),
    ]);
    assert_eq!(m.len(), 2);
    assert!(!m.contains_key("gone"));
    assert_eq!(m.get("a"), Some(&1));
    let empty = to_rust_hashmap(Vec::<(String, Option<u8>)>::new());
    assert_eq!(empty.len(), 0);
    assert!(empty.is_empty());
}

#[test]
fn map_keeps_the_last_value_found_for_a_key() {
    let m = to_rust_hashmap(vec![
        ("k".to_string(), Some(1)),
        ("k".to_string(), Some(2)),
        ("k".to_string(), None),
        ("j".to_string(), None),
        ("j".to_string(), Some(7)),
    ]);
    assert_eq!(m.len(), 2);
    assert_eq!(m.get("k"), Some(&2));
    assert_eq!(m.get("j"), Some(&7));
}

#[test]
fn test_promise() {
    // `() => new Promise((resolve) => resolve(42))`
    let mut engine = FakeEngine { steps_until_settled: Some(0), steps: 0, ms_per_step: 1, value: 42 };
    let value = engine.into_value(1000).unwrap();
    assert_eq!(value, 42);
}

#[test]
fn promise_that_resolves_at_once_yields_its_value() {
    // settled by the first step of the loop
    let mut engine = FakeEngine { steps_until_settled: Some(1), steps: 0, ms_per_step: 1, value: 42 };
    assert_eq!(poll_promise(engine.observe()), PromisePoll::Pending);
    assert!(engine.observe().is_pending());
    assert_eq!(engine.observe().state(), PromiseState::Pending);
    engine.tick();
    assert_eq!(poll_promise(engine.observe()), PromisePoll::Ready(Ok(42)));
    assert!(!engine.observe().is_pending());
    assert_eq!(engine.observe().state(), PromiseState::Fulfilled);
    // a poll drives nothing
    assert_eq!(engine.steps, 1);

    let mut waiting = FakeEngine { steps_until_settled: Some(1), steps: 0, ms_per_step: 1, value: 42 };
    assert_eq!(waiting.into_value(1000), Ok(42));
    assert_eq!(waiting.steps, 1);
}

#[test]
fn promise_that_never_settles_times_out() {
    let mut engine = FakeEngine { steps_until_settled: None, steps: 0, ms_per_step: 10, value: 0 };
    assert_eq!(engine.into_value(50), Err(Error::Timeout(50)));
    // five steps of 10 ms use the budget up, and no step is made after that
    assert_eq!(engine.steps, 5);
    assert_eq!(engine.elapsed_ms(), 50);
    assert_eq!(poll_promise(engine.observe()), PromisePoll::Pending);
}

#[test]
fn promise_that_settles_too_late_times_out() {
    let mut engine = FakeEngine { steps_until_settled: Some(6), steps: 0, ms_per_step: 10, value: 1 };
    assert_eq!(engine.into_value(50), Err(Error::Timeout(50)));
    let mut in_time = FakeEngine { steps_until_settled: Some(5), steps: 0, ms_per_step: 10, value: 1 };
    assert_eq!(in_time.into_value(50), Ok(1));
}

#[test]
fn resolve_step_by_case() {
    assert_eq!(resolve_step(Observation::<u8>::Pending, 0, 50), BridgeStep::Drive);
    assert_eq!(resolve_step(Observation::<u8>::Pending, 49, 50), BridgeStep::Drive);
    assert_eq!(resolve_step(Observation::<u8>::Pending, 50, 50), BridgeStep::Done(Err(Error::Timeout(50))));
    assert_eq!(resolve_step(Observation::<u8>::Pending, 51, 50), BridgeStep::Done(Err(Error::Timeout(50))));
    assert_eq!(resolve_step(Observation::<u8>::Pending, 0, 0), BridgeStep::Done(Err(Error::Timeout(0))));
    assert_eq!(resolve_step(Observation::<u8>::Pending, u64::MAX, u64::MAX), BridgeStep::Done(Err(Error::Timeout(u64::MAX))));
    // a settled promise wins over a budget that is used up
    assert_eq!(resolve_step(Observation::Fulfilled(Ok(7u8)), 100, 50), BridgeStep::Done(Ok(7)));
    assert_eq!(resolve_step(Observation::Fulfilled(Ok(7u8)), 0, 50), BridgeStep::Done(Ok(7)));
}

#[test]
fn rejection_and_decode_failure_are_errors() {
    let thrown = JsError { message: "Uncaught Error: no".to_string(), stack: Some("at f (test.js:1:1)".to_string()) };
    assert_eq!(
        poll_promise(Observation::<u8>::Rejected(thrown.clone())),
        PromisePoll::Ready(Err(Error::JsError(thrown.clone())))
    );
    assert_eq!(
        resolve_step(Observation::<u8>::Rejected(thrown.clone()), 99, 10),
        BridgeStep::Done(Err(Error::JsError(thrown.clone())))
    );
    let bare = JsError { message: "x".to_string(), stack: None };
    assert_eq!(
        poll_promise(Observation::<u8>::Rejected(bare.clone())),
        PromisePoll::Ready(Err(Error::JsError(bare)))
    );
    assert_eq!(Observation::<u8>::Rejected(thrown).state(), PromiseState::Rejected);
    assert_eq!(
        poll_promise(Observation::<u8>::Fulfilled(Err("invalid type: string, expected u8".to_string()))),
        PromisePoll::Ready(Err(Error::JsonDecode("invalid type: string, expected u8".to_string())))
    );
    assert_eq!(
        resolve_step(Observation::<u8>::Fulfilled(Err("bad".to_string())), 0, 10),
        BridgeStep::Done(Err(Error::JsonDecode("bad".to_string())))
    );
}

fn facts(is_object: bool, is_promise: bool, is_function: bool, type_repr: &str) -> ValueFacts {
    ValueFacts { is_object, is_promise, is_function, type_repr: type_repr.to_string() }
}

#[test]
fn shape_check_accepts_the_expected_shape() {
    assert_eq!(check_shape(Shape::Object, &facts(true, false, false, "Object")), Ok(()));
    assert_eq!(check_shape(Shape::Promise, &facts(true, true, false, "Promise")), Ok(()));
    assert_eq!(check_shape(Shape::Function, &facts(true, false, true, "Function")), Ok(()));
    // a promise is an object too
    assert_eq!(check_shape(Shape::Object, &facts(true, true, false, "Promise")), Ok(()));
}

#[test]
fn shape_check_names_what_it_found() {
    assert_eq!(
        check_shape(Shape::Object, &facts(false, false, false, "undefined")),
        Err(Error::JsonDecode("Expected an object, found `undefined`".to_string()))
    );
    assert_eq!(
        check_shape(Shape::Promise, &facts(true, false, false, "Object")),
        Err(Error::JsonDecode("Expected a promise, found `Object`".to_string()))
    );
    assert_eq!(
        check_shape(Shape::Function, &facts(true, true, false, "Promise")),
        Err(Error::JsonDecode("Expected a function, found `Promise`".to_string()))
    );
    assert_eq!(
        check_shape(Shape::Promise, &facts(false, false, true, "")),
        Err(Error::JsonDecode("Expected a promise, found ``".to_string()))
    );
}

#[test]
fn str_eq_compares_contents() {
    assert!(str_eq("", ""));
    assert!(str_eq("hostname", "hostname"));
    assert!(!str_eq("hostname", "hostnamE"));
    assert!(!str_eq("hostname", "hostnam"));
    assert!(!str_eq("", "a"));
    assert!(str_eq("ü/é", "ü/é"));
    assert!(!str_eq("ü", "u"));
    let owned = String::from("load") + "avg";
    assert!(str_eq(&owned, "loadavg"));
}

#[test]
fn typed_handle_is_wrapped_after_the_shape_check() {
    let object = facts(true, false, false, "Object");
    let wrapped = TypedHandle::wrap("handle", 7, Shape::Object, &object).unwrap();
    assert_eq!(wrapped.shape(), Shape::Object);
    assert_eq!(wrapped.runtime(), 7);
    assert_eq!(wrapped.access(7), Ok(&"handle"));
    assert_eq!(
        TypedHandle::wrap("handle", 7, Shape::Promise, &object),
        Err(Error::JsonDecode("Expected a promise, found `Object`".to_string()))
    );
    assert_eq!(
        TypedHandle::wrap(1u8, 0, Shape::Function, &facts(false, false, false, "null")),
        Err(Error::JsonDecode("Expected a function, found `null`".to_string()))
    );
}

#[test]
fn typed_handle_is_given_out_to_its_own_runtime_only() {
    let promise = facts(true, true, false, "Promise");
    let wrapped = TypedHandle::wrap(vec![1, 2, 3], 1, Shape::Promise, &promise).unwrap();
    assert_eq!(wrapped.access(1), Ok(&vec![1, 2, 3]));
    assert_eq!(wrapped.access(2), Err(Error::WrongRuntime { expected: 1, found: 2 }));
    assert_eq!(wrapped.access(0), Err(Error::WrongRuntime { expected: 1, found: 0 }));
    assert_eq!(wrapped.access(u64::MAX), Err(Error::WrongRuntime { expected: 1, found: u64::MAX }));
    // asking again changes nothing
    assert_eq!(wrapped.access(1), Ok(&vec![1, 2, 3]));
}
