use monty_python::external::{extract_external_result, ExternalResult, ResultDict};
use monty_python::future::{ResultEntry, Results};
use monty_python::host::{raised, Host, PyError, Tracker};
use monty_python::object::{contains_dataclass, MontyObject};
use monty_python::print::{print_target, CallbackStringPrint, PrintTarget};
use monty_python::snapshot::{read_answer, snapshot_locked};
use std::sync::Arc;

struct Py;

struct Free;

struct Bounded;

impl Tracker for Free {
    type Snapshot = &'static str;
    type FutureSnapshot = &'static str;
    type Repl = String;
    type ReplSnapshot = &'static str;
    type ReplFutureSnapshot = &'static str;
}

impl Tracker for Bounded {
    type Snapshot = u64;
    type FutureSnapshot = u64;
    type Repl = Vec<u64>;
    type ReplSnapshot = u64;
    type ReplFutureSnapshot = u64;
}

impl Host for Py {
    type Dataclass = &'static str;
    type Leaf = i64;
    type Value = &'static str;
    type Exception = &'static str;
    type Diagnostic = &'static str;
    type Error = &'static str;
    type Callback = &'static str;
    type Registry = &'static str;
    type Runner = &'static str;
    type Limits = u64;
    type ReplHandle = &'static str;
    type NoLimit = Free;
    type Limited = Bounded;
}

fn shown(error: PyError<Py>) -> String {
    match error {
        PyError::TypeError(message) => format!("TypeError: {message}"),
        PyError::RuntimeError(message) => format!("RuntimeError: {message}"),
        PyError::ValueError(message) => format!("ValueError: {message}"),
        PyError::KeyError(message) => format!("KeyError: {message}"),
        PyError::Monty(exception) => format!("Monty: {exception}"),
        PyError::Typing(diagnostic) => format!("Typing: {diagnostic}"),
        PyError::Raised(error) => format!("Raised: {error}"),
    }
}

fn ok<T>(result: Result<T, PyError<Py>>) -> T {
    match result {
        Ok(value) => value,
        Err(error) => panic!("{}", shown(error)),
    }
}

fn failure<T>(result: Result<T, PyError<Py>>) -> String {
    match result {
        Ok(_) => panic!("no failure"),
        Err(error) => shown(error),
    }
}

fn dict(len: usize) -> ResultDict<Py> {
    ResultDict { len, return_value: Ok(None), exception: Ok(None), future: Ok(None) }
}

fn leaf(value: i64) -> MontyObject<Py> {
    MontyObject::Other(value)
}

fn returning(value: i64) -> ResultDict<Py> {
    ResultDict { return_value: Ok(Some(Ok(leaf(value)))), ..dict(1) }
}

#[test]
fn return_value_is_extracted() {
    assert!(matches!(
        ok(extract_external_result(returning(4), "bad")),
        ExternalResult::Return(MontyObject::Other(4))
    ));
}

#[test]
fn exception_is_extracted() {
    let answer = ResultDict { exception: Ok(Some("oops")), ..dict(1) };
    assert!(matches!(ok(extract_external_result(answer, "bad")), ExternalResult::Error("oops")));
}

#[test]
fn future_is_extracted() {
    let answer = ResultDict { future: Ok(Some(true)), ..dict(1) };
    assert!(matches!(ok(extract_external_result(answer, "bad")), ExternalResult::Future));
}

#[test]
fn two_answers_are_refused() {
    let answer = ResultDict { exception: Ok(Some("oops")), ..returning(4) };
    assert_eq!(
        failure(extract_external_result(ResultDict { len: 2, ..answer }, "bad")),
        "TypeError: bad"
    );
    assert_eq!(failure(extract_external_result(dict(0), "bad")), "TypeError: bad");
}

#[test]
fn unknown_key_is_refused() {
    assert_eq!(failure(extract_external_result(dict(1), "bad")), "TypeError: bad");
}

#[test]
fn lookup_that_raises_is_passed_on() {
    let answer = ResultDict { exception: Err("hash"), ..dict(1) };
    assert_eq!(failure(extract_external_result(answer, "bad")), "Raised: hash");
    let answer = ResultDict { return_value: Err("hash"), ..dict(1) };
    assert_eq!(failure(extract_external_result(answer, "bad")), "Raised: hash");
    let answer = ResultDict { future: Err("hash"), ..dict(1) };
    assert_eq!(failure(extract_external_result(answer, "bad")), "Raised: hash");
    let answer = ResultDict { future: Err("hash"), ..returning(4) };
    assert!(matches!(ok(extract_external_result(answer, "bad")), ExternalResult::Return(_)));
}

#[test]
fn future_must_be_ellipsis() {
    let answer = ResultDict { future: Ok(Some(false)), ..dict(1) };
    assert_eq!(
        failure(extract_external_result(answer, "bad")),
        "TypeError: Value for the 'future' key must be Ellipsis (...)"
    );
}

#[test]
fn value_that_cannot_be_converted() {
    let answer = ResultDict { return_value: Ok(Some(Err("convert"))), ..dict(1) };
    assert_eq!(failure(extract_external_result(answer, "bad")), "Raised: convert");
}

#[test]
fn resume_without_arguments() {
    let message = "TypeError: resume() accepts either return_value or exception, not both";
    assert_eq!(failure(read_answer::<Py>(None)), message);
    assert_eq!(failure(read_answer(Some(dict(2)))), message);
    assert!(matches!(ok(read_answer(Some(returning(4)))), ExternalResult::Return(_)));
}

#[test]
fn results_are_read_in_order() {
    let mut results = Results::<Py>::new();
    ok(results.read(ResultEntry { key: Ok(5), value: Ok(returning(1)) }));
    ok(results.read(ResultEntry {
        key: Ok(3),
        value: Ok(ResultDict { exception: Ok(Some("oops")), ..dict(1) }),
    }));
    assert_eq!(results.answers.iter().map(|answer| answer.0).collect::<Vec<_>>(), vec![5, 3]);
    assert!(matches!(results.answers[0].1, ExternalResult::Return(MontyObject::Other(1))));
    assert!(matches!(results.answers[1].1, ExternalResult::Error("oops")));
}

#[test]
fn wrong_entry_is_not_read() {
    let mut results = Results::<Py>::new();
    ok(results.read(ResultEntry { key: Ok(5), value: Ok(returning(1)) }));
    let mut wrong = |key, value| failure(results.read(ResultEntry { key, value }));
    assert_eq!(wrong(Err("key"), Err("value")), "Raised: key");
    assert_eq!(wrong(Ok(3), Err("value")), "Raised: value");
    assert_eq!(
        wrong(Ok(3), Ok(dict(0))),
        "TypeError: results values must be a dict with either 'return_value' or 'exception', not both"
    );
    assert_eq!(results.answers.len(), 1);
}

#[test]
fn poisoned_snapshot() {
    assert_eq!(
        shown(snapshot_locked()),
        "RuntimeError: Snapshot is currently being resumed by another thread"
    );
}

#[test]
fn raised_is_passed_on() {
    assert_eq!(ok(raised::<u8, Py>(Ok(4))), 4);
    assert_eq!(failure(raised::<u8, Py>(Err("oops"))), "Raised: oops");
}

#[test]
fn dataclasses_are_found_at_any_depth() {
    let leaf = || MontyObject::<Py>::Other(1);
    let instance = || MontyObject::<Py>::Dataclass("Point");
    assert!(contains_dataclass(&instance()));
    assert!(!contains_dataclass(&leaf()));
    assert!(!contains_dataclass(&MontyObject::List(vec![leaf(), leaf()])));
    assert!(contains_dataclass(&MontyObject::List(vec![leaf(), instance()])));
    assert!(contains_dataclass(&MontyObject::Tuple(vec![MontyObject::List(vec![instance()])])));
    assert!(contains_dataclass(&MontyObject::Dict(vec![(instance(), leaf())])));
    let deep = MontyObject::Dict(vec![(leaf(), MontyObject::Tuple(vec![leaf(), instance()]))]);
    assert!(contains_dataclass(&MontyObject::Dict(vec![(leaf(), leaf()), (leaf(), deep)])));
    assert!(!contains_dataclass(&MontyObject::<Py>::Dict(vec![])));
}

#[test]
fn printed_output() {
    let callback = Arc::new("print");
    let writer = CallbackStringPrint::<Py>::new(&callback);
    let call = writer.stdout_write("hello");
    assert_eq!((call.stream.as_str(), call.text.as_str()), ("stdout", "hello"));
    let call = CallbackStringPrint::<Py>::from_py(callback).stdout_push('\n');
    assert_eq!((call.stream.as_str(), call.text.as_str()), ("stdout", "\n"));
}

#[test]
fn printed_output_without_callback() {
    let callback = Arc::new("print");
    assert!(matches!(print_target::<Py>(None), PrintTarget::Stdout));
    match print_target::<Py>(Some(&callback)) {
        PrintTarget::Callback(writer) => assert!(Arc::ptr_eq(&writer.0, &callback)),
        PrintTarget::Stdout => panic!("no callback"),
    }
}
