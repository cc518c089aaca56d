use monty_python::external::{ExternalResult, ResultDict};
use monty_python::host::{Host, PyError, Tracker};
use monty_python::inputs::{list_str, Extraction, Lookup};
use monty_python::monty::{
    py_type_check, tracking, type_checked, Compile, Creation, Declaration, PyMonty, Runner, Tracking,
};
use monty_python::object::MontyObject;
use monty_python::progress::{output_of, EitherProgress, RunProgress, Suspension};
use monty_python::run::{
    check_os, os_answer, os_arguments, Action, Answerers, OsCall, OsCandidate, Path,
};
use monty_python::slot::{Launch, Pending};
use std::sync::Arc;

struct Py;

struct Free;

struct Bounded;

impl Tracker for Free {
    type Snapshot = &'static str;
    type FutureSnapshot = &'static str;
    type Repl = String;
    type ReplSnapshot = &'static str;
    type ReplFutureSnapshot = &'static str;
}

impl Tracker for Bounded {
    type Snapshot = u64;
    type FutureSnapshot = u64;
    type Repl = Vec<u64>;
    type ReplSnapshot = u64;
    type ReplFutureSnapshot = u64;
}

impl Host for Py {
    type Dataclass = &'static str;
    type Leaf = i64;
    type Value = &'static str;
    type Exception = &'static str;
    type Diagnostic = &'static str;
    type Error = &'static str;
    type Callback = &'static str;
    type Registry = &'static str;
    type Runner = &'static str;
    type Limits = u64;
    type ReplHandle = &'static str;
    type NoLimit = Free;
    type Limited = Bounded;
}

fn shown(error: PyError<Py>) -> String {
    match error {
        PyError::TypeError(message) => format!("TypeError: {message}"),
        PyError::RuntimeError(message) => format!("RuntimeError: {message}"),
        PyError::ValueError(message) => format!("ValueError: {message}"),
        PyError::KeyError(message) => format!("KeyError: {message}"),
        PyError::Monty(exception) => format!("Monty: {exception}"),
        PyError::Typing(diagnostic) => format!("Typing: {diagnostic}"),
        PyError::Raised(error) => format!("Raised: {error}"),
    }
}

fn ok<T>(result: Result<T, PyError<Py>>) -> T {
    match result {
        Ok(value) => value,
        Err(error) => panic!("{}", shown(error)),
    }
}

fn failure<T>(result: Result<T, PyError<Py>>) -> String {
    match result {
        Ok(_) => panic!("no failure"),
        Err(error) => shown(error),
    }
}

fn names(names: &[&str]) -> Vec<Result<String, String>> {
    names.iter().map(|name| Ok(name.to_string())).collect()
}

fn program(code: &str, inputs: &[&str], functions: &[&str]) -> PyMonty<Py> {
    let (inputs, functions) = (names(inputs), names(functions));
    let creation = PyMonty::<Py>::new(
        code.to_string(),
        "main.py",
        Some(&inputs),
        Some(&functions),
        false,
        None,
    );
    let compile = match ok(creation) {
        Creation::Compile(compile) => compile,
        Creation::TypeCheck(_) => panic!("type check"),
    };
    assert_eq!(compile.code, code);
    let runner = Runner { state: "compiled", code: code.to_string() };
    ok(compile.finish(Ok(runner), Ok(Arc::new("registry"))))
}

fn leaf(value: i64) -> MontyObject<Py> {
    MontyObject::Other(value)
}

fn leaves(values: &Vec<MontyObject<Py>>) -> Vec<i64> {
    values
        .iter()
        .map(|value| match value {
            MontyObject::Other(leaf) => *leaf,
            _ => panic!("no leaf"),
        })
        .collect()
}

#[test]
fn names_are_listed() {
    assert_eq!(ok(list_str(Some(&names(&["a", "b"])), "inputs")), vec!["a", "b"]);
    assert!(ok(list_str(None, "inputs")).is_empty());
}

#[test]
fn first_bad_name_decides() {
    let mut listed = names(&["a"]);
    listed.push(Err("not a str".to_string()));
    listed.push(Err("later".to_string()));
    assert_eq!(failure(list_str::<Py>(Some(&listed), "inputs")), "TypeError: inputs: not a str");
}

#[test]
fn inputs_are_read_before_functions() {
    let bad = vec![Err("no".to_string())];
    assert_eq!(
        failure(Declaration::read::<Py>(Some(&bad), Some(&bad))),
        "TypeError: inputs: no"
    );
    assert_eq!(
        failure(Declaration::read::<Py>(None, Some(&bad))),
        "TypeError: external_functions: no"
    );
}

#[test]
fn new_program() {
    let program = program("x + y", &["x", "y"], &["f"]);
    assert_eq!(program.runner.state, "compiled");
    assert_eq!(program.script_name, "main.py");
    assert_eq!(program.input_names, vec!["x", "y"]);
    assert_eq!(program.external_function_names, vec!["f"]);
    assert_eq!(*program.dc_registry, "registry");
}

#[test]
fn new_program_fails() {
    let compile = || Compile {
        code: "x".to_string(),
        script_name: "main.py".to_string(),
        declaration: ok(Declaration::read(None, None)),
    };
    let runner = Runner { state: "compiled", code: String::new() };
    assert_eq!(failure(compile().finish::<Py>(Err("syntax"), Err("registry"))), "Monty: syntax");
    assert_eq!(
        failure(compile().finish::<Py>(Ok(runner), Err("registry"))),
        "Raised: registry"
    );
    let bad = vec![Err("no".to_string())];
    assert_eq!(
        failure(PyMonty::<Py>::new(String::new(), "main.py", Some(&bad), None, true, None)),
        "TypeError: inputs: no"
    );
}

#[test]
fn new_program_is_type_checked() {
    let create = || match ok(PyMonty::<Py>::new(
        "x + 1".to_string(),
        "main.py",
        None,
        None,
        true,
        Some("x: int"),
    )) {
        Creation::TypeCheck(unchecked) => unchecked,
        Creation::Compile(_) => panic!("no type check"),
    };
    let unchecked = create();
    assert_eq!(unchecked.check.source.source_code, "x + 1");
    assert_eq!(unchecked.check.source.path, "main.py");
    assert_eq!(unchecked.check.stubs.as_ref().unwrap().source_code, "x: int");
    assert_eq!(ok(unchecked.checked::<Py>(Ok(None))).code, "x + 1");
    assert_eq!(failure(create().checked::<Py>(Ok(Some("diagnostic")))), "Typing: diagnostic");
    assert_eq!(
        failure(create().checked::<Py>(Err("broken".to_string()))),
        "RuntimeError: broken"
    );
}

#[test]
fn type_check_sources() {
    let check = py_type_check("x + 1", "main.py", Some("x: int"));
    assert_eq!(check.source.source_code, "x + 1");
    assert_eq!(check.source.path, "main.py");
    let stubs = check.stubs.unwrap();
    assert_eq!(stubs.source_code, "x: int");
    assert_eq!(stubs.path, "type_stubs.pyi");
    let check = program("1 + 1", &[], &[]).type_check(None);
    assert_eq!(check.source.source_code, "1 + 1");
    assert!(check.stubs.is_none());
}

#[test]
fn type_check_outcomes() {
    ok(type_checked::<Py>(Ok(None)));
    assert_eq!(failure(type_checked::<Py>(Ok(Some("diagnostic")))), "Typing: diagnostic");
    assert_eq!(failure(type_checked::<Py>(Err("broken".to_string()))), "RuntimeError: broken");
}

#[test]
fn inputs_come_in_declaration_order() {
    let program = program("x + y", &["x", "y", "z"], &[]);
    let mut extraction = ok(program.extract_input_values(true));
    let values = loop {
        match extraction {
            Extraction::Lookup(lookup) => {
                let value = match lookup.name().as_str() {
                    "x" => 1,
                    "y" => 2,
                    _ => 3,
                };
                extraction = ok(lookup.supply(Lookup::Found(Ok(leaf(value)))));
            }
            Extraction::Ready(values) => break values,
        }
    };
    assert_eq!(leaves(&values), vec![1, 2, 3]);
}

fn at_second_input<'a>(program: &'a PyMonty<Py>, lookup: Lookup<Py>) -> String {
    let first = match ok(program.extract_input_values(true)) {
        Extraction::Lookup(lookup) => lookup,
        Extraction::Ready(_) => panic!("no inputs"),
    };
    match ok(first.supply(Lookup::Found(Ok(leaf(1))))) {
        Extraction::Lookup(second) => failure(second.supply(lookup)),
        Extraction::Ready(_) => panic!("one input"),
    }
}

#[test]
fn missing_input_decides() {
    let program = program("", &["x", "y"], &[]);
    assert_eq!(
        at_second_input(&program, Lookup::Missing),
        "KeyError: Missing required input: 'y'"
    );
    assert_eq!(at_second_input(&program, Lookup::Raised("hash")), "Raised: hash");
    assert_eq!(at_second_input(&program, Lookup::Found(Err("convert"))), "Raised: convert");
}

#[test]
fn no_inputs_declared() {
    let program = program("", &[], &[]);
    assert!(matches!(ok(program.extract_input_values(false)), Extraction::Ready(v) if v.is_empty()));
    assert_eq!(
        failure(program.extract_input_values(true)),
        "TypeError: No input variables declared but inputs dict was provided"
    );
}

#[test]
fn no_inputs_given() {
    let program = program("", &["x", "a\"b"], &[]);
    assert_eq!(
        failure(program.extract_input_values(false)),
        "TypeError: Missing required inputs: [\"x\", \"a\\\"b\"]"
    );
}

#[test]
fn limits_choose_the_tracker() {
    assert!(matches!(ok(tracking::<Py>(None)), Tracking::NoLimit));
    assert!(matches!(ok(tracking::<Py>(Some(Ok(5)))), Tracking::Limited(5)));
    assert_eq!(failure(tracking::<Py>(Some(Err("limits")))), "Raised: limits");
}

#[test]
fn start_passes_its_context_on() {
    let program = program("f(x)", &["x"], &["f"]);
    let start = ok(program.start(vec![leaf(4)], Some(Ok(9)), Some(Arc::new("print"))));
    assert_eq!(leaves(&start.input_values), vec![4]);
    assert!(matches!(start.tracking, Tracking::Limited(9)));
    assert_eq!(start.context.script_name, "main.py");
    assert_eq!(*start.context.print_callback.unwrap(), "print");
    assert!(Arc::ptr_eq(&start.context.dc_registry, &program.dc_registry));
    assert_eq!(failure(program.start(vec![], Some(Err("limits")), None)), "Raised: limits");
}

#[test]
fn os_must_be_callable() {
    let os = |callable, class_name| OsCandidate::<Py> { callable, class_name };
    ok(check_os::<Py>(None));
    ok(check_os(Some(os(true, Ok("function".to_string())))));
    assert_eq!(
        failure(check_os(Some(os(false, Ok("int".to_string()))))),
        "TypeError: TypeError: 'int' object is not callable"
    );
    assert_eq!(failure(check_os(Some(os(false, Err("name"))))), "Raised: name");
}

#[test]
fn paths_of_a_run() {
    let os = || Some(OsCandidate::<Py> { callable: true, class_name: Ok("f".to_string()) });
    let plain = program("x", &["x"], &[]);
    assert_eq!(ok(plain.run(vec![leaf(1)], None, false, None, None)).path, Path::Direct);
    assert_eq!(ok(plain.run(vec![leaf(1)], None, false, None, os())).path, Path::Iterative);
    let nested = MontyObject::List(vec![MontyObject::Dataclass("Point")]);
    assert_eq!(ok(plain.run(vec![leaf(1), nested], None, false, None, None)).path, Path::Iterative);
    let calling = program("f()", &[], &["f"]);
    assert_eq!(ok(calling.run(vec![], None, true, None, None)).path, Path::Iterative);
}

#[test]
fn run_is_given_its_answerers() {
    let os = Some(OsCandidate::<Py> { callable: true, class_name: Ok("f".to_string()) });
    let plain = program("x", &[], &[]);
    let run = ok(plain.run(vec![], None, true, Some(Arc::new("print")), os));
    assert_eq!(run.runner.code, "x");
    assert!(run.answerers.external_functions && run.answerers.os);
    assert_eq!(*run.print_callback.unwrap(), "print");
    let run = ok(plain.run(vec![], None, false, None, None));
    assert!(!run.answerers.external_functions && !run.answerers.os);
    assert!(run.print_callback.is_none());
}

#[test]
fn os_is_checked_before_limits() {
    let os = Some(OsCandidate::<Py> { callable: false, class_name: Ok("int".to_string()) });
    let plain = program("x", &[], &[]);
    assert_eq!(
        failure(plain.run(vec![], Some(Err("limits")), false, None, os)),
        "TypeError: TypeError: 'int' object is not callable"
    );
    assert_eq!(
        failure(plain.run(vec![], Some(Err("limits")), false, None, None)),
        "Raised: limits"
    );
}

fn call(method_call: bool) -> RunProgress<Py, Free> {
    RunProgress::FunctionCall {
        function_name: "f".to_string(),
        args: vec![leaf(1)],
        kwargs: vec![(leaf(2), leaf(3))],
        call_id: 7,
        method_call,
        state: "waiting",
    }
}

fn os_call() -> RunProgress<Py, Free> {
    RunProgress::OsCall {
        function: "Path.exists".to_string(),
        args: vec![leaf(1)],
        kwargs: vec![],
        call_id: 8,
        state: "waiting",
    }
}

#[test]
fn steps_of_a_run() {
    let all = Answerers { external_functions: true, os: true };
    assert!(matches!(
        ok(all.step(Ok(RunProgress::<Py, Free>::Complete(leaf(5))))),
        Action::Return(MontyObject::Other(5))
    ));
    match ok(all.step(Ok(call(false)))) {
        Action::CallFunction(call) => {
            assert_eq!(call.function_name, "f");
            assert_eq!(leaves(&call.args), vec![1]);
            assert_eq!(call.kwargs.len(), 1);
            assert_eq!(call.state, "waiting");
        }
        _ => panic!("no call"),
    }
    assert!(matches!(ok(all.step(Ok(call(true)))), Action::CallMethod(_)));
    match ok(all.step(Ok(os_call()))) {
        Action::CallOs(call) => assert_eq!(call.function_name, "Path.exists"),
        _ => panic!("no call"),
    }
    assert_eq!(failure(all.step::<Py, Free>(Err("boom"))), "Monty: boom");
}

#[test]
fn method_calls_need_no_functions() {
    let none = Answerers { external_functions: false, os: false };
    assert!(matches!(ok(none.step(Ok(call(true)))), Action::CallMethod(_)));
}

#[test]
fn function_call_without_functions() {
    let none = Answerers { external_functions: false, os: true };
    assert_eq!(
        failure(none.step(Ok(call(false)))),
        "RuntimeError: External function 'f' called but no external_functions provided"
    );
}

#[test]
fn futures_end_a_run() {
    let all = Answerers { external_functions: true, os: true };
    let futures = Pending { state: "waiting", call_ids: vec![1] };
    assert_eq!(
        failure(all.step(Ok(RunProgress::<Py, Free>::ResolveFutures(futures)))),
        "RuntimeError: async futures not supported with `Monty.run`"
    );
}

#[test]
fn os_call_without_callback() {
    let none = Answerers { external_functions: true, os: false };
    match ok(none.step(Ok(os_call()))) {
        Action::NotImplemented { message, state } => {
            assert_eq!(message, "OS function 'Path.exists' not implemented");
            assert_eq!(state, "waiting");
        }
        _ => panic!("implemented"),
    }
}

#[test]
fn answers_to_os_calls() {
    let returned = OsCall::<Py>::Returned(Ok(leaf(6)));
    assert!(matches!(ok(os_answer(returned)), ExternalResult::Return(MontyObject::Other(6))));
    assert!(matches!(ok(os_answer(OsCall::<Py>::Raised("gone"))), ExternalResult::Error("gone")));
    assert_eq!(failure(os_answer(OsCall::<Py>::Returned(Err("convert")))), "Raised: convert");
}

#[test]
fn arguments_of_os_calls() {
    assert_eq!(ok(os_arguments::<Py>(Ok(vec!["a"]), Ok(vec![]))).0, vec!["a"]);
    assert_eq!(failure(os_arguments::<Py>(Err("args"), Err("kwargs"))), "Raised: args");
    assert_eq!(failure(os_arguments::<Py>(Ok(vec![]), Err("kwargs"))), "Raised: kwargs");
}

#[test]
fn output_of_a_direct_run() {
    assert!(matches!(ok(output_of::<Py>(Ok(leaf(3)))), MontyObject::Other(3)));
    assert_eq!(failure(output_of::<Py>(Err("boom"))), "Monty: boom");
}

#[test]
fn program_is_printed() {
    assert_eq!(program("x", &[], &[]).repr(), "Monty(<1 line of code>, script_name='main.py')");
    assert_eq!(
        program("", &["x", "y"], &["f"]).repr(),
        "Monty(<0 lines of code>, script_name='main.py', inputs=[\"x\", \"y\"], external_functions=[\"f\"])"
    );
    assert_eq!(
        program("a\nb\n", &[], &["f"]).repr(),
        "Monty(<2 lines of code>, script_name='main.py', external_functions=[\"f\"])"
    );
}

#[test]
fn starting_agrees_with_running() {
    let plain = program("x", &["x"], &[]);
    let run = ok(plain.run(vec![leaf(1)], Some(Ok(9)), false, None, None));
    let start = ok(plain.start(vec![leaf(1)], Some(Ok(9)), None));
    assert_eq!(leaves(&run.input_values), leaves(&start.input_values));
    assert_eq!(run.runner.state, start.runner.state);
    assert!(matches!((run.tracking, start.tracking), (Tracking::Limited(9), Tracking::Limited(9))));
    let completed = || RunProgress::<Py, Free>::Complete(leaf(5));
    let at_once = ok(output_of::<Py>(Ok(leaf(5))));
    let none = Answerers { external_functions: false, os: true };
    let stepwise = match ok(none.step(Ok(completed()))) {
        Action::Return(output) => output,
        _ => panic!("a call"),
    };
    let started = match ok(start.context.settle(Ok(EitherProgress::NoLimit(completed())))) {
        Suspension::Complete(completion) => completion.output,
        _ => panic!("suspended"),
    };
    assert_eq!(leaves(&vec![at_once, stepwise, started]), vec![5, 5, 5]);
}

#[test]
fn stepping_agrees_with_running() {
    let program = program("f(1)", &[], &["f"]);
    let all = Answerers { external_functions: true, os: false };
    let (run_state, run_args) = match ok(all.step(Ok(call(false)))) {
        Action::CallFunction(call) => (call.state, leaves(&call.args)),
        _ => panic!("no function"),
    };
    let start = ok(program.start(vec![], None, None));
    let pending = match ok(start.context.settle(Ok(EitherProgress::NoLimit(call(false))))) {
        Suspension::Call(call) => call,
        _ => panic!("no call"),
    };
    assert_eq!(leaves(&pending.args), run_args);
    let mut snapshot = ok(pending.finish(Ok(vec!["1"]), Ok(vec![])));
    let answer = ResultDict {
        len: 1,
        return_value: Ok(Some(Ok(leaf(2)))),
        exception: Ok(None),
        future: Ok(None),
    };
    match ok(snapshot.resume(Some(answer))) {
        Launch::NoLimit(ready) => {
            assert_eq!(ready.state, run_state);
            assert!(matches!(ready.input, ExternalResult::Return(MontyObject::Other(2))));
        }
        Launch::Limited(_) => panic!("limits"),
    }
}

#[test]
fn creation_checks_as_type_check() {
    let creation = PyMonty::<Py>::new("x".to_string(), "main.py", None, None, true, Some("x: int"));
    let unchecked = match ok(creation) {
        Creation::TypeCheck(unchecked) => unchecked,
        Creation::Compile(_) => panic!("no type check"),
    };
    let check = program("x", &[], &[]).type_check(Some("x: int"));
    assert_eq!(unchecked.check.source.source_code, check.source.source_code);
    assert_eq!(unchecked.check.source.path, check.source.path);
    assert_eq!(unchecked.check.stubs.unwrap().path, check.stubs.unwrap().path);
}
