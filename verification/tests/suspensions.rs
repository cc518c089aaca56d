use monty_python::external::{ExternalResult, ResultDict};
use monty_python::future::{ResultEntry, Results};
use monty_python::host::{Host, PyError, Tracker};
use monty_python::object::MontyObject;
use monty_python::progress::{
    Context, EitherProgress, PyMontyComplete, RunProgress, Suspension,
};
use monty_python::slot::{Either, Launch, Pending, Variant};
use monty_python::snapshot::PyMontySnapshot;
use std::sync::Arc;

struct Py;

struct Free;

struct Bounded;

impl Tracker for Free {
    type Snapshot = &'static str;
    type FutureSnapshot = &'static str;
    type Repl = String;
    type ReplSnapshot = &'static str;
    type ReplFutureSnapshot = &'static str;
}

impl Tracker for Bounded {
    type Snapshot = u64;
    type FutureSnapshot = u64;
    type Repl = Vec<u64>;
    type ReplSnapshot = u64;
    type ReplFutureSnapshot = u64;
}

impl Host for Py {
    type Dataclass = &'static str;
    type Leaf = i64;
    type Value = &'static str;
    type Exception = &'static str;
    type Diagnostic = &'static str;
    type Error = &'static str;
    type Callback = &'static str;
    type Registry = &'static str;
    type Runner = &'static str;
    type Limits = u64;
    type ReplHandle = &'static str;
    type NoLimit = Free;
    type Limited = Bounded;
}

fn shown(error: PyError<Py>) -> String {
    match error {
        PyError::TypeError(message) => format!("TypeError: {message}"),
        PyError::RuntimeError(message) => format!("RuntimeError: {message}"),
        PyError::ValueError(message) => format!("ValueError: {message}"),
        PyError::KeyError(message) => format!("KeyError: {message}"),
        PyError::Monty(exception) => format!("Monty: {exception}"),
        PyError::Typing(diagnostic) => format!("Typing: {diagnostic}"),
        PyError::Raised(error) => format!("Raised: {error}"),
    }
}

fn ok<T>(result: Result<T, PyError<Py>>) -> T {
    match result {
        Ok(value) => value,
        Err(error) => panic!("{}", shown(error)),
    }
}

fn failure<T>(result: Result<T, PyError<Py>>) -> String {
    match result {
        Ok(_) => panic!("no failure"),
        Err(error) => shown(error),
    }
}

fn context() -> Context<Py> {
    Context {
        script_name: "main.py".to_string(),
        print_callback: Some(Arc::new("print")),
        dc_registry: Arc::new("registry"),
    }
}

fn leaf(value: i64) -> MontyObject<Py> {
    MontyObject::Other(value)
}

fn call<T: Tracker>(state: T::Snapshot) -> RunProgress<Py, T> {
    RunProgress::FunctionCall {
        function_name: "f".to_string(),
        args: vec![leaf(1)],
        kwargs: vec![],
        call_id: 7,
        method_call: true,
        state,
    }
}

fn os_call<T: Tracker>(state: T::Snapshot) -> RunProgress<Py, T> {
    RunProgress::OsCall {
        function: "Path.exists".to_string(),
        args: vec![],
        kwargs: vec![(leaf(1), leaf(2))],
        call_id: 8,
        state,
    }
}

fn at_call(progress: EitherProgress<Py>) -> PyMontySnapshot<Py> {
    match ok(context().settle(Ok(progress))) {
        Suspension::Call(call) => ok(call.finish(Ok(vec!["a"]), Ok(vec![("k", "v")]))),
        _ => panic!("no call"),
    }
}

fn returning(value: Result<MontyObject<Py>, &'static str>) -> ResultDict<Py> {
    ResultDict {
        len: 1,
        return_value: Ok(Some(value)),
        exception: Ok(None),
        future: Ok(None),
    }
}

fn four() -> Option<ResultDict<Py>> {
    Some(returning(Ok(leaf(4))))
}

#[test]
fn completed_run() {
    for progress in [
        EitherProgress::NoLimit(RunProgress::Complete(leaf(5))),
        EitherProgress::Limited(RunProgress::Complete(leaf(5))),
    ] {
        match ok(context().settle(Ok(progress))) {
            Suspension::Complete(completion) => {
                assert!(matches!(completion.output, MontyObject::Other(5)));
                assert_eq!(*completion.dc_registry, "registry");
            }
            _ => panic!("not complete"),
        }
    }
}

#[test]
fn completed_run_for_the_embedder() {
    let complete = ok(PyMontyComplete::<Py>::create(Ok("5")));
    assert_eq!(complete.output, "5");
    assert_eq!(ok(complete.repr(Ok("5".to_string()))), "MontyComplete(output=5)");
    assert_eq!(failure(complete.repr(Err("repr"))), "Raised: repr");
    assert_eq!(failure(PyMontyComplete::<Py>::create(Err("convert"))), "Raised: convert");
}

#[test]
fn run_that_raised() {
    assert_eq!(failure(context().settle(Err("boom"))), "Monty: boom");
}

#[test]
fn run_at_a_function_call() {
    let snapshot = at_call(EitherProgress::NoLimit(call("waiting")));
    assert!(matches!(snapshot.snapshot, Either::NoLimit("waiting")));
    assert_eq!(snapshot.function_name, "f");
    assert!(!snapshot.is_os_function);
    assert!(snapshot.is_method_call);
    assert_eq!(snapshot.args, vec!["a"]);
    assert_eq!(snapshot.kwargs, vec![("k", "v")]);
    assert_eq!(snapshot.call_id, 7);
    assert_eq!(snapshot.script_name, "main.py");
    assert_eq!(**snapshot.print_callback.as_ref().unwrap(), "print");
}

#[test]
fn run_at_an_os_call() {
    let snapshot = at_call(EitherProgress::Limited(os_call(40)));
    assert!(matches!(snapshot.snapshot, Either::Limited(40)));
    assert_eq!(snapshot.function_name, "Path.exists");
    assert!(snapshot.is_os_function);
    assert!(!snapshot.is_method_call);
    assert_eq!(snapshot.call_id, 8);
}

#[test]
fn arguments_that_cannot_be_converted() {
    let finish = |args, kwargs| match ok(context().settle(Ok(EitherProgress::Limited(call(1))))) {
        Suspension::Call(call) => failure(call.finish(args, kwargs)),
        _ => panic!("no call"),
    };
    assert_eq!(finish(Err("args"), Err("kwargs")), "Raised: kwargs");
    assert_eq!(finish(Err("args"), Ok(vec![])), "Raised: args");
}

#[test]
fn call_is_printed() {
    let snapshot = at_call(EitherProgress::NoLimit(call("waiting")));
    assert_eq!(
        ok(snapshot.repr(Ok("(1,)".to_string()), Ok("{}".to_string()))),
        "MontySnapshot(script_name='main.py', function_name='f', args=(1,), kwargs={})"
    );
    assert_eq!(failure(snapshot.repr(Err("args"), Err("kwargs"))), "Raised: args");
    assert_eq!(failure(snapshot.repr(Ok(String::new()), Err("kwargs"))), "Raised: kwargs");
}

#[test]
fn call_is_resumed() {
    let mut snapshot = at_call(EitherProgress::Limited(call(40)));
    match ok(snapshot.resume(four())) {
        Launch::Limited(ready) => {
            assert_eq!(ready.state, 40);
            assert!(matches!(ready.input, ExternalResult::Return(MontyObject::Other(4))));
            assert_eq!(ready.context.script_name, "main.py");
            assert_eq!(*ready.context.print_callback.unwrap(), "print");
        }
        Launch::NoLimit(_) => panic!("no limits"),
    }
    assert_eq!(snapshot.snapshot.variant(), Variant::Done);
}

#[test]
fn call_is_resumed_once() {
    let mut snapshot = at_call(EitherProgress::NoLimit(call("waiting")));
    assert!(matches!(
        ok(snapshot.resume(four())),
        Launch::NoLimit(ready) if ready.state == "waiting"
    ));
    assert_eq!(failure(snapshot.resume(four())), "RuntimeError: Progress already resumed");
    assert_eq!(
        failure(snapshot.resume(Some(returning(Err("convert"))))),
        "Raised: convert"
    );
}

#[test]
fn refused_answer_leaves_the_call_as_it_was() {
    let mut snapshot = at_call(EitherProgress::NoLimit(call("waiting")));
    assert_eq!(
        failure(snapshot.resume(None)),
        "TypeError: resume() accepts either return_value or exception, not both"
    );
    assert_eq!(
        failure(snapshot.resume(Some(returning(Err("convert"))))),
        "Raised: convert"
    );
    let future =
        ResultDict { len: 1, return_value: Ok(None), exception: Ok(None), future: Ok(Some(false)) };
    assert_eq!(
        failure(snapshot.resume(Some(future))),
        "TypeError: Value for the 'future' key must be Ellipsis (...)"
    );
    assert_eq!(snapshot.snapshot.variant(), Variant::NoLimit);
    assert!(matches!(
        ok(snapshot.resume(four())),
        Launch::NoLimit(ready) if ready.state == "waiting"
    ));
}

#[test]
fn futures_are_resumed() {
    let pending = Pending { state: "waiting", call_ids: vec![3, 5] };
    let progress = EitherProgress::NoLimit(RunProgress::ResolveFutures(pending));
    let mut futures = match ok(context().settle(Ok(progress))) {
        Suspension::Futures(futures) => futures,
        _ => panic!("no futures"),
    };
    assert_eq!(ok(futures.pending_call_ids()), &vec![3, 5]);
    assert_eq!(
        futures.repr(),
        "MontyFutureSnapshot(script_name='main.py', pending_call_ids=[3, 5])"
    );
    let mut results = Results::new();
    ok(results.read(ResultEntry { key: Ok(5), value: Ok(returning(Ok(leaf(1)))) }));
    assert_eq!(
        failure(results.read(ResultEntry { key: Ok(4), value: Ok(returning(Err("convert"))) })),
        "Raised: convert"
    );
    assert_eq!(ok(futures.pending_call_ids()), &vec![3, 5]);
    ok(results.read(ResultEntry { key: Ok(3), value: Ok(returning(Ok(leaf(2)))) }));
    match ok(futures.resume(results)) {
        Launch::NoLimit(ready) => {
            assert_eq!(ready.state.state, "waiting");
            assert_eq!(ready.input.iter().map(|answer| answer.0).collect::<Vec<_>>(), vec![5, 3]);
            assert_eq!(ready.context.script_name, "main.py");
        }
        Launch::Limited(_) => panic!("limits"),
    }
    assert_eq!(
        failure(futures.pending_call_ids()),
        "RuntimeError: MontyFutureSnapshot already resumed"
    );
    assert_eq!(
        futures.repr(),
        "MontyFutureSnapshot(script_name='main.py', pending_call_ids=[])"
    );
    assert_eq!(failure(futures.resume(Results::new())), "RuntimeError: Progress already resumed");
}
