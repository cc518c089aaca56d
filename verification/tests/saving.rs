use monty_python::future::PyMontyFutureSnapshot;
use monty_python::host::{Host, PyError, Tracker};
use monty_python::monty::{Compile, Declaration, PyMonty, Runner};
use monty_python::repl::PyMontyRepl;
use monty_python::save::load_variant;
use monty_python::slot::{Either, Pending, Variant};
use monty_python::snapshot::{load_call_id, PyMontySnapshot, SavedCall};
use std::sync::Arc;

struct Py;

struct Free;

struct Bounded;

impl Tracker for Free {
    type Snapshot = &'static str;
    type FutureSnapshot = &'static str;
    type Repl = String;
    type ReplSnapshot = &'static str;
    type ReplFutureSnapshot = &'static str;
}

impl Tracker for Bounded {
    type Snapshot = u64;
    type FutureSnapshot = u64;
    type Repl = Vec<u64>;
    type ReplSnapshot = u64;
    type ReplFutureSnapshot = u64;
}

impl Host for Py {
    type Dataclass = &'static str;
    type Leaf = i64;
    type Value = &'static str;
    type Exception = &'static str;
    type Diagnostic = &'static str;
    type Error = &'static str;
    type Callback = &'static str;
    type Registry = &'static str;
    type Runner = &'static str;
    type Limits = u64;
    type ReplHandle = &'static str;
    type NoLimit = Free;
    type Limited = Bounded;
}

fn shown(error: PyError<Py>) -> String {
    match error {
        PyError::TypeError(message) => format!("TypeError: {message}"),
        PyError::RuntimeError(message) => format!("RuntimeError: {message}"),
        PyError::ValueError(message) => format!("ValueError: {message}"),
        PyError::KeyError(message) => format!("KeyError: {message}"),
        PyError::Monty(exception) => format!("Monty: {exception}"),
        PyError::Typing(diagnostic) => format!("Typing: {diagnostic}"),
        PyError::Raised(error) => format!("Raised: {error}"),
    }
}

fn ok<T>(result: Result<T, PyError<Py>>) -> T {
    match result {
        Ok(value) => value,
        Err(error) => panic!("{}", shown(error)),
    }
}

fn failure<T>(result: Result<T, PyError<Py>>) -> String {
    match result {
        Ok(_) => panic!("no failure"),
        Err(error) => shown(error),
    }
}

fn program(inputs: &[&str], functions: &[&str]) -> PyMonty<Py> {
    let names = |names: &[&str]| names.iter().map(|name| Ok(name.to_string())).collect();
    let (inputs, functions): (Vec<_>, Vec<_>) = (names(inputs), names(functions));
    let declaration = ok(Declaration::read(Some(&inputs), Some(&functions)));
    let compile =
        Compile { code: "x".to_string(), script_name: "m\u{e9}.py".to_string(), declaration };
    let runner = Runner { state: "compiled", code: "x".to_string() };
    ok(compile.finish(Ok(runner), Ok(Arc::new("registry"))))
}

fn at_call() -> PyMontySnapshot<Py> {
    PyMontySnapshot {
        snapshot: Either::Limited(40),
        print_callback: Some(Arc::new("print")),
        dc_registry: Arc::new("registry"),
        script_name: "main.py".to_string(),
        is_os_function: true,
        is_method_call: false,
        function_name: "Path.exists".to_string(),
        args: vec!["a"],
        kwargs: vec![("k", "v")],
        call_id: 300,
    }
}

fn on_futures() -> PyMontyFutureSnapshot<Py> {
    PyMontyFutureSnapshot {
        snapshot: Either::NoLimit(Pending { state: "waiting", call_ids: vec![1, 2] }),
        print_callback: Some(Arc::new("print")),
        dc_registry: Arc::new("registry"),
        script_name: "main.py".to_string(),
    }
}

fn session() -> PyMontyRepl<Py> {
    PyMontyRepl {
        repl: Either::NoLimit("session".to_string()),
        print_callback: Some(Arc::new("print")),
        dc_registry: Arc::new("registry"),
        script_name: "main.py".to_string(),
    }
}

#[test]
fn program_bytes() {
    let bytes = ok(program(&["x", "y"], &["f"]).dump(Ok(vec![9, 8, 7])));
    let mut expected = vec![9, 8, 7];
    expected.extend(
        postcard::to_allocvec(&("m\u{e9}.py", vec!["x", "y"], vec!["f"])).unwrap(),
    );
    assert_eq!(bytes, expected);
    assert_eq!(bytes[3..], [6, 109, 195, 169, 46, 112, 121, 2, 1, 120, 1, 121, 1, 1, 102]);
}

#[test]
fn program_comes_back() {
    let bytes = ok(program(&["x", "y"], &[]).dump(Ok(vec![9, 8, 7])));
    let runner = Runner { state: "decoded", code: "x".to_string() };
    let loaded = ok(PyMonty::<Py>::load(Ok((runner, &bytes[3..])), Ok(Arc::new("new"))));
    assert_eq!(loaded.runner.state, "decoded");
    assert_eq!(loaded.script_name, "m\u{e9}.py");
    assert_eq!(loaded.input_names, vec!["x", "y"]);
    assert!(loaded.external_function_names.is_empty());
    assert_eq!(*loaded.dc_registry, "new");
}

#[test]
fn program_with_bytes_behind_it() {
    let mut bytes = ok(program(&["x"], &[]).dump(Ok(vec![])));
    bytes.push(255);
    let runner = Runner { state: "decoded", code: String::new() };
    let loaded = ok(PyMonty::<Py>::load(Ok((runner, &bytes)), Ok(Arc::new("new"))));
    assert_eq!(loaded.input_names, vec!["x"]);
}

#[test]
fn program_that_cannot_be_saved() {
    assert_eq!(failure(program(&[], &[]).dump(Err("full".to_string()))), "ValueError: full");
}

fn loaded_program(rest: &[u8]) -> String {
    let runner = Runner { state: "decoded", code: String::new() };
    failure(PyMonty::<Py>::load(Ok((runner, rest)), Err("registry")))
}

#[test]
fn program_that_cannot_be_loaded() {
    let decoded = Err("bad code".to_string());
    assert_eq!(failure(PyMonty::<Py>::load(decoded, Err("registry"))), "ValueError: bad code");
    let end = "ValueError: Hit the end of buffer, expected more data";
    assert_eq!(loaded_program(&[]), end);
    assert_eq!(loaded_program(&[3, 97, 98]), end);
    assert_eq!(loaded_program(&[0, 2, 1, 97]), end);
    assert_eq!(loaded_program(&[0, 0]), end);
    assert_eq!(loaded_program(&[1, 255]), "ValueError: Tried to parse invalid utf-8");
    assert_eq!(
        loaded_program(&[255, 255, 255, 255, 255, 255, 255, 255, 255, 255]),
        "ValueError: Found a varint that didn't terminate. Is the usize too big for this platform?"
    );
    assert_eq!(loaded_program(&[0, 0, 0]), "Raised: registry");
}

#[test]
fn call_bytes() {
    let state = postcard::to_allocvec(&40u64).unwrap();
    let args = postcard::to_allocvec(&vec!["a"]).unwrap();
    let kwargs = postcard::to_allocvec(&vec![("k", "v")]).unwrap();
    let bytes = ok(at_call().dump(Ok(Ok(args)), Ok(Ok(kwargs)), Ok(state)));
    let fields = (1u32, 40u64, "main.py", true, false, "Path.exists");
    let expected = (fields, vec!["a"], vec![("k", "v")], 300u32);
    assert_eq!(bytes, postcard::to_allocvec(&expected).unwrap());
}

#[test]
fn call_comes_back() {
    let bytes = ok(at_call().dump(Ok(Ok(vec![5])), Ok(Ok(vec![6, 6])), Ok(vec![40])));
    let (variant, rest) = ok(load_variant::<Py>(&bytes));
    assert_eq!(variant, Variant::Limited);
    assert_eq!(rest[0], 40);
    let (call, rest) = ok(SavedCall::load::<Py>(Ok(&rest[1..])));
    assert_eq!(rest[..3], [5, 6, 6]);
    let call_id = ok(load_call_id::<Py>(Ok(&rest[3..])));
    let loaded = ok(PyMontySnapshot::<Py>::load(
        Either::Limited(40),
        call,
        call_id,
        Ok(Arc::new("new")),
        Ok(vec!["a"]),
        Ok(vec![("k", "v")]),
        None,
    ));
    assert_eq!(loaded.snapshot.variant(), Variant::Limited);
    assert_eq!(loaded.script_name, "main.py");
    assert!(loaded.is_os_function);
    assert!(!loaded.is_method_call);
    assert_eq!(loaded.function_name, "Path.exists");
    assert_eq!(loaded.args, vec!["a"]);
    assert_eq!(loaded.kwargs, vec![("k", "v")]);
    assert_eq!(loaded.call_id, 300);
    assert_eq!(*loaded.dc_registry, "new");
    assert!(loaded.print_callback.is_none());
}

#[test]
fn call_that_cannot_be_saved() {
    let call = at_call();
    let bad = |message: &str| Err(message.to_string());
    assert_eq!(failure(call.dump(Err("args"), Err("kwargs"), bad("state"))), "Raised: args");
    assert_eq!(failure(call.dump(Ok(Ok(vec![])), Err("kwargs"), bad("s"))), "Raised: kwargs");
    assert_eq!(failure(call.dump(Ok(bad("a")), Ok(bad("k")), bad("s"))), "ValueError: s");
    assert_eq!(failure(call.dump(Ok(bad("a")), Ok(bad("k")), Ok(vec![]))), "ValueError: a");
    assert_eq!(failure(call.dump(Ok(Ok(vec![])), Ok(bad("k")), Ok(vec![]))), "ValueError: k");
}

#[test]
fn resumed_call_cannot_be_saved() {
    let mut call = at_call();
    call.snapshot = Either::Done;
    let message = "RuntimeError: Cannot dump progress that has already been resumed";
    assert_eq!(failure(call.check_dump()), message);
    assert_eq!(failure(call.dump(Err("args"), Err("kwargs"), Ok(vec![]))), message);
    ok(at_call().check_dump());
}

#[test]
fn call_that_cannot_be_loaded() {
    let end = "ValueError: Hit the end of buffer, expected more data";
    assert_eq!(failure(SavedCall::load::<Py>(Err("state".to_string()))), "ValueError: state");
    assert_eq!(failure(SavedCall::load::<Py>(Ok(&[]))), end);
    assert_eq!(failure(SavedCall::load::<Py>(Ok(&[0, 1]))), end);
    assert_eq!(
        failure(SavedCall::load::<Py>(Ok(&[0, 2, 0, 0]))),
        "ValueError: Found a bool that wasn't 0 or 1"
    );
    assert_eq!(failure(SavedCall::load::<Py>(Ok(&[0, 1, 0]))), end);
    assert_eq!(failure(load_call_id::<Py>(Err("args".to_string()))), "ValueError: args");
    assert_eq!(failure(load_call_id::<Py>(Ok(&[128]))), end);
    assert_eq!(
        failure(load_call_id::<Py>(Ok(&[255, 255, 255, 255, 16]))),
        "ValueError: Found a varint that didn't terminate. Is the usize too big for this platform?"
    );
    assert_eq!(ok(load_call_id::<Py>(Ok(&[255, 255, 255, 255, 15, 1]))), u32::MAX);
}

#[test]
fn loaded_call_that_cannot_be_converted() {
    let call = || ok(SavedCall::load::<Py>(Ok(&[0, 0, 1, 0]))).0;
    let load = |registry, args, kwargs| {
        failure(PyMontySnapshot::<Py>::load(
            Either::Limited(1),
            call(),
            0,
            registry,
            args,
            kwargs,
            None,
        ))
    };
    assert_eq!(load(Err("registry"), Err("args"), Err("kwargs")), "Raised: registry");
    assert_eq!(load(Ok(Arc::new("r")), Err("args"), Err("kwargs")), "Raised: args");
    assert_eq!(load(Ok(Arc::new("r")), Ok(vec![]), Err("kwargs")), "Raised: kwargs");
}

#[test]
fn variants_are_loaded() {
    assert_eq!(ok(load_variant::<Py>(&[0, 9])).0, Variant::NoLimit);
    assert_eq!(ok(load_variant::<Py>(&[1, 9])).1, [9]);
    assert_eq!(ok(load_variant::<Py>(&[2])).0, Variant::Done);
    assert_eq!(failure(load_variant::<Py>(&[3])), "ValueError: Serde Deserialization Error");
    assert_eq!(
        failure(load_variant::<Py>(&[])),
        "ValueError: Hit the end of buffer, expected more data"
    );
}

#[test]
fn futures_come_back() {
    let bytes = ok(on_futures().dump(Ok(vec![40])));
    assert_eq!(bytes, postcard::to_allocvec(&(0u32, 40u8, "main.py")).unwrap());
    let (variant, rest) = ok(load_variant::<Py>(&bytes));
    assert_eq!(variant, Variant::NoLimit);
    let state = Pending { state: "decoded", call_ids: vec![1, 2] };
    let loaded = ok(PyMontyFutureSnapshot::<Py>::load(
        Ok((Either::NoLimit(state), &rest[1..])),
        Some(Arc::new("other")),
        Ok(Arc::new("new")),
    ));
    assert_eq!(loaded.script_name, "main.py");
    assert_eq!(*loaded.print_callback.clone().unwrap(), "other");
    assert_eq!(ok(loaded.pending_call_ids()), &vec![1, 2]);
}

#[test]
fn futures_that_cannot_be_saved_or_loaded() {
    assert_eq!(failure(on_futures().dump(Err("full".to_string()))), "ValueError: full");
    let mut resumed = on_futures();
    resumed.snapshot = Either::Done;
    assert_eq!(
        failure(resumed.dump(Ok(vec![]))),
        "RuntimeError: Cannot dump progress that has already been resumed"
    );
    let load = PyMontyFutureSnapshot::<Py>::load;
    assert_eq!(failure(load(Err("state".to_string()), None, Err("r"))), "ValueError: state");
    assert_eq!(
        failure(load(Ok((Either::Done, &[1, 200])), None, Err("r"))),
        "ValueError: Tried to parse invalid utf-8"
    );
    assert_eq!(failure(load(Ok((Either::Done, &[0])), None, Err("r"))), "Raised: r");
}

#[test]
fn session_comes_back() {
    let bytes = ok(session().dump(Ok(vec![40])));
    assert_eq!(bytes, postcard::to_allocvec(&(0u32, 40u8, "main.py")).unwrap());
    let (variant, rest) = ok(load_variant::<Py>(&bytes));
    assert_eq!(variant, Variant::NoLimit);
    let loaded = ok(PyMontyRepl::<Py>::load(
        Ok((Either::NoLimit("session".to_string()), &rest[1..])),
        None,
        Ok(Arc::new("new")),
    ));
    assert_eq!(loaded.repr(), "MontyRepl(script_name='main.py')");
    assert!(loaded.print_callback.is_none());
}

#[test]
fn session_that_is_away_is_saved_as_such() {
    let mut away = session();
    away.repl = Either::Done;
    let bytes = ok(away.dump(Err("nothing to encode".to_string())));
    assert_eq!(bytes, postcard::to_allocvec(&(2u32, "main.py")).unwrap());
    let (variant, rest) = ok(load_variant::<Py>(&bytes));
    assert_eq!(variant, Variant::Done);
    let mut loaded =
        ok(PyMontyRepl::<Py>::load(Ok((Either::Done, rest)), None, Ok(Arc::new("new"))));
    assert_eq!(failure(loaded.feed("x", None)), "RuntimeError: REPL is busy");
}

#[test]
fn session_that_cannot_be_saved_or_loaded() {
    assert_eq!(failure(session().dump(Err("full".to_string()))), "ValueError: full");
    let load = PyMontyRepl::<Py>::load;
    assert_eq!(failure(load(Err("state".to_string()), None, Err("r"))), "ValueError: state");
    assert_eq!(
        failure(load(Ok((Either::Done, &[])), None, Err("r"))),
        "ValueError: Hit the end of buffer, expected more data"
    );
    assert_eq!(failure(load(Ok((Either::Done, &[0])), None, Err("r"))), "Raised: r");
}
