use monty_python::external::{ExternalResult, ResultDict};
use monty_python::future::{ResultEntry, Results};
use monty_python::host::{Host, PyError, Tracker};
use monty_python::inputs::Extraction;
use monty_python::object::MontyObject;
use monty_python::repl::{repl_locked, Feed, PyMontyRepl};
use monty_python::repl_create::ReplRequest;
use monty_python::repl_progress::{
    EitherReplProgress, EitherReplStartError, ReplProgress, ReplStartError, ReplSuspension,
    StartOutcome,
};
use monty_python::slot::{Either, Launch, Pending, Variant};
use std::sync::Arc;

struct Py;

struct Free;

struct Bounded;

impl Tracker for Free {
    type Snapshot = &'static str;
    type FutureSnapshot = &'static str;
    type Repl = String;
    type ReplSnapshot = &'static str;
    type ReplFutureSnapshot = &'static str;
}

impl Tracker for Bounded {
    type Snapshot = u64;
    type FutureSnapshot = u64;
    type Repl = Vec<u64>;
    type ReplSnapshot = u64;
    type ReplFutureSnapshot = u64;
}

impl Host for Py {
    type Dataclass = &'static str;
    type Leaf = i64;
    type Value = &'static str;
    type Exception = &'static str;
    type Diagnostic = &'static str;
    type Error = &'static str;
    type Callback = &'static str;
    type Registry = &'static str;
    type Runner = &'static str;
    type Limits = u64;
    type ReplHandle = &'static str;
    type NoLimit = Free;
    type Limited = Bounded;
}

fn shown(error: PyError<Py>) -> String {
    match error {
        PyError::TypeError(message) => format!("TypeError: {message}"),
        PyError::RuntimeError(message) => format!("RuntimeError: {message}"),
        PyError::ValueError(message) => format!("ValueError: {message}"),
        PyError::KeyError(message) => format!("KeyError: {message}"),
        PyError::Monty(exception) => format!("Monty: {exception}"),
        PyError::Typing(diagnostic) => format!("Typing: {diagnostic}"),
        PyError::Raised(error) => format!("Raised: {error}"),
    }
}

fn ok<T>(result: Result<T, PyError<Py>>) -> T {
    match result {
        Ok(value) => value,
        Err(error) => panic!("{}", shown(error)),
    }
}

fn failure<T>(result: Result<T, PyError<Py>>) -> String {
    match result {
        Ok(_) => panic!("no failure"),
        Err(error) => shown(error),
    }
}

fn session() -> PyMontyRepl<Py> {
    PyMontyRepl {
        repl: Either::Limited(vec![1, 2]),
        print_callback: Some(Arc::new("print")),
        dc_registry: Arc::new("registry"),
        script_name: "main.py".to_string(),
    }
}

fn leaf(value: i64) -> MontyObject<Py> {
    MontyObject::Other(value)
}

fn started(
    session: &mut PyMontyRepl<Py>,
    outcome: StartOutcome<Py>,
) -> Result<ReplSuspension<Py>, PyError<Py>> {
    match session.start("f(x)", None, Arc::new("owner")) {
        Launch::Limited(ready) => {
            assert_eq!(ready.state, vec![1, 2]);
            assert_eq!(ready.input, "f(x)");
            assert_eq!(session.repl.variant(), Variant::Done);
            ready.context.settle(outcome, session)
        }
        Launch::NoLimit(_) => panic!("no limits"),
    }
}

fn progress(progress: ReplProgress<Py, Bounded>) -> StartOutcome<Py> {
    StartOutcome::Progress(EitherReplProgress::Limited(progress))
}

fn call() -> ReplProgress<Py, Bounded> {
    ReplProgress::FunctionCall {
        function_name: "f".to_string(),
        args: vec![leaf(1)],
        kwargs: vec![],
        call_id: 7,
        method_call: false,
        state: 40,
    }
}

fn returning(value: Result<MontyObject<Py>, &'static str>) -> ResultDict<Py> {
    ResultDict {
        len: 1,
        return_value: Ok(Some(value)),
        exception: Ok(None),
        future: Ok(None),
    }
}

fn four() -> Option<ResultDict<Py>> {
    Some(returning(Ok(leaf(4))))
}

fn repl_of(session: &PyMontyRepl<Py>) -> Vec<u64> {
    match &session.repl {
        Either::Limited(repl) => repl.clone(),
        _ => panic!("no session"),
    }
}

#[test]
fn session_is_created() {
    let inputs = vec![Ok("x".to_string())];
    let draft = ok(PyMontyRepl::<Py>::create(
        "x".to_string(),
        "main.py",
        Some(&inputs),
        None,
        Some(Arc::new("print")),
        Ok(Arc::new("registry")),
    ));
    let names = &draft.declaration.input_names;
    assert!(matches!(
        ok(PyMontyRepl::<Py>::extract_repl_input_values(names, true)),
        Extraction::Lookup(lookup) if lookup.name() == "x"
    ));
    assert_eq!(
        failure(PyMontyRepl::<Py>::extract_repl_input_values(names, false)),
        "TypeError: Missing required inputs: [\"x\"]"
    );
    let (args, limits, opening) =
        match ok(PyMontyRepl::create_repl(draft, vec![leaf(4)], Some(Ok(9)))) {
            ReplRequest::Limited(args, limits, opening) => (args, limits, opening),
            ReplRequest::NoLimit(..) => panic!("no limits"),
        };
    assert_eq!(args.code, "x");
    assert_eq!(args.script_name, "main.py");
    assert_eq!(args.declaration.input_names, vec!["x"]);
    assert_eq!(args.input_values.len(), 1);
    assert_eq!(limits, 9);
    let opened = ok(opening.open(Ok((vec![1], leaf(4)))));
    assert!(matches!(opened.output, MontyObject::Other(4)));
    let (session, output) = ok(opened.finish(Ok("4")));
    assert_eq!(output, "4");
    assert_eq!(repl_of(&session), vec![1]);
    assert_eq!(session.script_name, "main.py");
    assert_eq!(*session.print_callback.unwrap(), "print");
}

#[test]
fn session_that_cannot_be_created() {
    let bad = vec![Err("no".to_string())];
    let create = |inputs, functions, registry| {
        PyMontyRepl::<Py>::create(String::new(), "main.py", inputs, functions, None, registry)
    };
    assert_eq!(failure(create(Some(&bad), Some(&bad), Err("r"))), "TypeError: inputs: no");
    assert_eq!(failure(create(None, Some(&bad), Err("r"))), "TypeError: external_functions: no");
    assert_eq!(failure(create(None, None, Err("r"))), "Raised: r");
    let draft = || ok(create(None, None, Ok(Arc::new("r"))));
    assert_eq!(
        failure(PyMontyRepl::create_repl(draft(), vec![], Some(Err("limits")))),
        "Raised: limits"
    );
    let opening = || match ok(PyMontyRepl::create_repl(draft(), vec![], None)) {
        ReplRequest::NoLimit(_, opening) => opening,
        ReplRequest::Limited(..) => panic!("limits"),
    };
    assert_eq!(failure(opening().open(Err("syntax"))), "Monty: syntax");
    let opened = ok(opening().open(Ok((String::new(), leaf(1)))));
    assert_eq!(opened.repl.repl.variant(), Variant::NoLimit);
    assert_eq!(failure(opened.finish(Err("convert"))), "Raised: convert");
}

#[test]
fn session_is_fed_in_place() {
    let mut session = session();
    match ok(session.feed("x = 3", None)) {
        Feed::Limited(repl, code, callback) => {
            assert_eq!(code, "x = 3");
            repl.push(3);
            assert_eq!(*callback.unwrap(), "print");
        }
        Feed::NoLimit(..) => panic!("no limits"),
    }
    assert_eq!(repl_of(&session), vec![1, 2, 3]);
    match ok(session.feed("x = 3", Some(Arc::new("other")))) {
        Feed::Limited(_, _, callback) => assert_eq!(*callback.unwrap(), "other"),
        Feed::NoLimit(..) => panic!("no limits"),
    }
    assert_eq!(**session.print_callback.as_ref().unwrap(), "print");
}

#[test]
fn busy_session() {
    let mut session = session();
    session.start("f(x)", None, Arc::new("owner"));
    assert_eq!(failure(session.feed("x = 3", None)), "RuntimeError: REPL is busy");
    assert_eq!(
        shown(repl_locked()),
        "RuntimeError: REPL session is currently executing another snippet"
    );
}

#[test]
fn started_snippet_inherits_from_the_session() {
    let mut session = session();
    match session.start("f(x)", Some(Arc::new("other")), Arc::new("owner")) {
        Launch::Limited(ready) => {
            assert_eq!(ready.context.script_name, "main.py");
            assert_eq!(*ready.context.print_callback.unwrap(), "other");
            assert_eq!(*ready.context.py_repl, "owner");
            assert!(Arc::ptr_eq(&ready.context.dc_registry, &session.dc_registry));
        }
        Launch::NoLimit(_) => panic!("no limits"),
    }
}

#[test]
fn completed_snippet_gives_the_session_back() {
    let mut session = session();
    let complete = progress(ReplProgress::Complete { repl: vec![9], value: leaf(5) });
    match ok(started(&mut session, complete)) {
        ReplSuspension::Complete(completion) => {
            assert!(matches!(completion.output, MontyObject::Other(5)))
        }
        _ => panic!("not complete"),
    }
    assert_eq!(repl_of(&session), vec![9]);
}

#[test]
fn unlimited_snippet_gives_the_session_back() {
    let mut session = session();
    session.repl = Either::NoLimit("before".to_string());
    let context = match session.start("f(x)", None, Arc::new("owner")) {
        Launch::NoLimit(ready) => ready.context,
        Launch::Limited(_) => panic!("limits"),
    };
    let complete = ReplProgress::Complete { repl: "after".to_string(), value: leaf(5) };
    let outcome = StartOutcome::Progress(EitherReplProgress::NoLimit(complete));
    ok(context.settle(outcome, &mut session));
    assert!(matches!(session.repl, Either::NoLimit(repl) if repl == "after"));
}

#[test]
fn snippet_that_raised_gives_the_session_back() {
    let mut session = session();
    let error = ReplStartError { repl: vec![8], error: "boom" };
    let outcome = StartOutcome::Error(EitherReplStartError::Limited(error));
    assert_eq!(failure(started(&mut session, outcome)), "Monty: boom");
    assert_eq!(repl_of(&session), vec![8]);
}

#[test]
fn suspended_snippet_holds_the_session() {
    let mut session = session();
    let mut snapshot = match ok(started(&mut session, progress(call()))) {
        ReplSuspension::Call(call) => ok(call.finish(Ok(vec!["a"]), Ok(vec![("k", "v")]))),
        _ => panic!("no call"),
    };
    assert_eq!(session.repl.variant(), Variant::Done);
    assert_eq!(snapshot.snapshot.variant(), Variant::Limited);
    assert_eq!(snapshot.function_name, "f");
    assert_eq!(snapshot.call_id, 7);
    assert!(!snapshot.is_os_function && !snapshot.is_method_call);
    assert_eq!((snapshot.args.len(), snapshot.kwargs.len()), (1, 1));
    assert_eq!(
        snapshot.repr(),
        "MontyReplSnapshot(script_name='main.py', function_name='f')"
    );
    let context = match ok(snapshot.resume(four())) {
        Launch::Limited(ready) => {
            assert_eq!(ready.state, 40);
            assert!(matches!(ready.input, ExternalResult::Return(_)));
            ready.context
        }
        Launch::NoLimit(_) => panic!("no limits"),
    };
    assert_eq!(*context.py_repl, "owner");
    let complete = progress(ReplProgress::Complete { repl: vec![7], value: leaf(5) });
    ok(context.settle(complete, &mut session));
    assert_eq!(repl_of(&session), vec![7]);
    assert_eq!(failure(snapshot.resume(four())), "RuntimeError: Progress already resumed");
}

#[test]
fn snippet_at_an_os_call() {
    let mut session = session();
    let os_call = ReplProgress::OsCall {
        function: "Path.exists".to_string(),
        args: vec![],
        kwargs: vec![],
        call_id: 8,
        state: 41,
    };
    match ok(started(&mut session, progress(os_call))) {
        ReplSuspension::Call(call) => {
            assert!(call.is_os_function && !call.is_method_call);
            assert_eq!(call.function_name, "Path.exists");
            assert_eq!(failure(call.finish(Err("args"), Err("kwargs"))), "Raised: kwargs");
        }
        _ => panic!("no call"),
    }
}

#[test]
fn snippet_on_futures() {
    let mut session = session();
    let pending = Pending { state: 42, call_ids: vec![3] };
    let mut futures =
        match ok(started(&mut session, progress(ReplProgress::ResolveFutures(pending)))) {
            ReplSuspension::Futures(futures) => futures,
            _ => panic!("no futures"),
        };
    assert_eq!(session.repl.variant(), Variant::Done);
    assert_eq!(ok(futures.pending_call_ids()), &vec![3]);
    assert_eq!(futures.repr(), "MontyReplFutureSnapshot(script_name='main.py')");
    let mut results = Results::new();
    ok(results.read(ResultEntry { key: Ok(3), value: Ok(returning(Ok(leaf(1)))) }));
    match ok(futures.resume(Ok(results))) {
        Launch::Limited(ready) => {
            assert_eq!(ready.state.state, 42);
            assert_eq!(ready.input.len(), 1);
            assert_eq!(*ready.context.py_repl, "owner");
        }
        Launch::NoLimit(_) => panic!("no limits"),
    }
    assert_eq!(
        failure(futures.pending_call_ids()),
        "RuntimeError: MontyReplFutureSnapshot already resumed"
    );
    assert_eq!(
        failure(futures.resume(Ok(Results::new()))),
        "RuntimeError: Progress already resumed"
    );
}

#[test]
fn wrong_answer_uses_the_snippet_up() {
    let mut session = session();
    let mut snapshot = match ok(started(&mut session, progress(call()))) {
        ReplSuspension::Call(call) => ok(call.finish(Ok(vec![]), Ok(vec![]))),
        _ => panic!("no call"),
    };
    assert_eq!(
        failure(snapshot.resume(None)),
        "TypeError: resume() accepts either return_value or exception, not both"
    );
    assert_eq!(snapshot.snapshot.variant(), Variant::Done);
    assert_eq!(session.repl.variant(), Variant::Done);
    assert_eq!(failure(snapshot.resume(Some(returning(Err("convert"))))), "Raised: convert");
    assert_eq!(failure(snapshot.resume(four())), "RuntimeError: Progress already resumed");
}

#[test]
fn wrong_results_use_the_snippet_up() {
    let mut session = session();
    let pending = Pending { state: 42, call_ids: vec![3] };
    let mut futures =
        match ok(started(&mut session, progress(ReplProgress::ResolveFutures(pending)))) {
            ReplSuspension::Futures(futures) => futures,
            _ => panic!("no futures"),
        };
    let mut results = Results::new();
    let read = results.read(ResultEntry { key: Err("key"), value: Err("value") });
    assert_eq!(failure(futures.resume(read.map(|_| results))), "Raised: key");
    assert_eq!(
        failure(futures.pending_call_ids()),
        "RuntimeError: MontyReplFutureSnapshot already resumed"
    );
    assert_eq!(
        failure(futures.resume(Ok(Results::new()))),
        "RuntimeError: Progress already resumed"
    );
}

#[test]
fn starting_agrees_with_feeding() {
    let (mut fed, mut started_session) = (session(), session());
    match ok(fed.feed("x = 3", None)) {
        Feed::Limited(repl, _, _) => repl.push(3),
        Feed::NoLimit(..) => panic!("no limits"),
    }
    let complete = progress(ReplProgress::Complete { repl: vec![1, 2, 3], value: leaf(5) });
    match ok(started(&mut started_session, complete)) {
        ReplSuspension::Complete(completion) => {
            assert!(matches!(completion.output, MontyObject::Other(5)))
        }
        _ => panic!("not complete"),
    }
    assert_eq!(repl_of(&started_session), repl_of(&fed));
}
