//! Running a program to its end: which calls the embedder answers, and how.
use std::sync::Arc;
use vstd::prelude::*;
use vstd::string::*;

use crate::external::ExternalResult;
use crate::host::{raised, ErrorView, Host, PyError, Tracker};
use crate::monty::{tracking, PyMonty, Runner, Tracking};
use crate::object::{any_contains_dataclass, MontyObject};
use crate::progress::RunProgress;
use crate::slot::Pending;

verus! {

/// What is read of the object that answers calls of the operating system.
pub struct OsCandidate<H: Host> {
    pub callable: bool,
    /// The name of its type, unless reading it raised.
    pub class_name: Result<String, H::Error>,
}

/// What answers the calls of a program while it runs.
pub struct Answerers {
    /// Whether there are external functions.
    pub external_functions: bool,
    /// Whether there is a callback for calls of the operating system.
    pub os: bool,
}

/// How a program is run.
#[derive(Clone, Copy, PartialEq, Eq, Structural, Debug)]
pub enum Path {
    /// In one go: it cannot call back.
    Direct,
    /// From call to call.
    Iterative,
}

/// A program ready to be run.
pub struct Run<'a, H: Host> {
    pub path: Path,
    /// The compiled code.
    pub runner: &'a Runner<H>,
    /// The values of the inputs, in the order of their declaration.
    pub input_values: Vec<MontyObject<H>>,
    pub tracking: Tracking<H>,
    /// What answers the calls of the program.
    pub answerers: Answerers,
    /// The callback that receives what the program prints.
    pub print_callback: Option<Arc<H::Callback>>,
}

/// What is to be done where the interpreter stopped.
pub enum Action<H: Host, S> {
    /// The program ran to its end; its output is to be converted.
    Return(MontyObject<H>),
    /// A method of a dataclass instance, the first argument, is to be called.
    CallMethod(HostCall<H, S>),
    /// An external function is to be called.
    CallFunction(HostCall<H, S>),
    /// The callback for calls of the operating system is to be called.
    CallOs(HostCall<H, S>),
    /// The call is to be answered with a `NotImplementedError`.
    NotImplemented { message: String, state: S },
}

/// A call to be made, and the state that waits for its answer.
pub struct HostCall<H: Host, S> {
    pub function_name: String,
    pub args: Vec<MontyObject<H>>,
    pub kwargs: Vec<(MontyObject<H>, MontyObject<H>)>,
    pub state: S,
}

/// How a call of the operating system went.
pub enum OsCall<H: Host> {
    /// The callback returned a value, which was converted unless that raised.
    Returned(Result<MontyObject<H>, H::Error>),
    /// The callback raised.
    Raised(H::Exception),
}

/// What is wrong with a callback for calls of the operating system.
pub open spec fn os_error<H: Host>(os: Option<OsCandidate<H>>) -> Option<ErrorView<H>> {
    match os {
        Some(os) => if os.callable {
            None
        } else {
            match os.class_name {
                Ok(name) => Some(
                    ErrorView::TypeError("TypeError: '"@ + name@ + "' object is not callable"@),
                ),
                Err(error) => Some(ErrorView::Raised(error)),
            }
        },
        None => None,
    }
}

/// Refuses a callback that cannot be called.
///
/// `TypeError` with the name of its type; an exception that reading the name
/// raised is passed on.
pub fn check_os<H: Host>(os: Option<OsCandidate<H>>) -> (result: Result<(), PyError<H>>)
    ensures
        crate::host::outcome(result) == match os_error(os) {
            Some(error) => Err::<(), ErrorView<H>>(error),
            None => Ok(()),
        },
{
    let os = match os {
        Some(os) => os,
        None => return Ok(()),
    };
    if os.callable {
        return Ok(());
    }
    match os.class_name {
        Ok(name) => {
            let mut message: String = "TypeError: '".to_owned();
            message.append(name.as_str());
            message.append("' object is not callable");
            Err(PyError::TypeError(message))
        },
        Err(error) => Err(PyError::Raised(error)),
    }
}

/// What an external function `name` is answered without external functions.
pub open spec fn no_functions_error<H: Host>(name: Seq<char>) -> ErrorView<H> {
    ErrorView::RuntimeError(
        "External function '"@ + name + "' called but no external_functions provided"@,
    )
}

/// What is to be done where the interpreter stopped, with its message as text.
pub enum ActionView<H: Host, S> {
    Return(MontyObject<H>),
    CallMethod(HostCall<H, S>),
    CallFunction(HostCall<H, S>),
    CallOs(HostCall<H, S>),
    NotImplemented { message: Seq<char>, state: S },
}

impl<H: Host, S> View for Action<H, S> {
    type V = ActionView<H, S>;

    open spec fn view(&self) -> ActionView<H, S> {
        match *self {
            Action::Return(output) => ActionView::Return(output),
            Action::CallMethod(call) => ActionView::CallMethod(call),
            Action::CallFunction(call) => ActionView::CallFunction(call),
            Action::CallOs(call) => ActionView::CallOs(call),
            Action::NotImplemented { message, state } => ActionView::NotImplemented {
                message: message@,
                state,
            },
        }
    }
}

/// What is to be done after the interpreter has run.
pub open spec fn next_action<H: Host, T: Tracker>(
    ran: Result<RunProgress<H, T>, H::Exception>,
    answerers: Answerers,
) -> Result<ActionView<H, T::Snapshot>, ErrorView<H>> {
    match ran {
        Err(exception) => Err(ErrorView::Monty(exception)),
        Ok(RunProgress::Complete(output)) => Ok(ActionView::Return(output)),
        Ok(
            RunProgress::FunctionCall { function_name, args, kwargs, call_id, method_call, state },
        ) => {
            let call = HostCall { function_name, args, kwargs, state };
            if method_call {
                Ok(ActionView::CallMethod(call))
            } else if answerers.external_functions {
                Ok(ActionView::CallFunction(call))
            } else {
                Err(no_functions_error(function_name@))
            }
        },
        Ok(RunProgress::ResolveFutures(_)) => Err(
            ErrorView::RuntimeError("async futures not supported with `Monty.run`"@),
        ),
        Ok(RunProgress::OsCall { function, args, kwargs, call_id, state }) => if answerers.os {
            Ok(ActionView::CallOs(HostCall { function_name: function, args, kwargs, state }))
        } else {
            Ok(
                ActionView::NotImplemented {
                    message: "OS function '"@ + function@ + "' not implemented"@,
                    state,
                },
            )
        },
    }
}

impl Answerers {
    /// Decides what is to be done where the interpreter stopped.
    ///
    /// An exception of the interpreter is passed on. `RuntimeError` if the
    /// program calls an external function and there are none, and if it waits
    /// for futures.
    pub fn step<H: Host, T: Tracker>(&self, ran: Result<RunProgress<H, T>, H::Exception>) -> (
    result: Result<Action<H, T::Snapshot>, PyError<H>>)
        ensures
            match next_action(ran, *self) {
                Ok(expected) => result matches Ok(action) && action@ == expected,
                Err(error) => crate::host::fails(result, error),
            },
    {
        let progress = match ran {
            Ok(progress) => progress,
            Err(exception) => return Err(PyError::Monty(exception)),
        };
        match progress {
            RunProgress::Complete(output) => Ok(Action::Return(output)),
            RunProgress::FunctionCall {
                function_name,
                args,
                kwargs,
                call_id: _,
                method_call,
                state,
            } => {
                if method_call {
                    Ok(Action::CallMethod(HostCall { function_name, args, kwargs, state }))
                } else if self.external_functions {
                    Ok(Action::CallFunction(HostCall { function_name, args, kwargs, state }))
                } else {
                    let mut message: String = "External function '".to_owned();
                    message.append(function_name.as_str());
                    message.append("' called but no external_functions provided");
                    Err(PyError::RuntimeError(message))
                }
            },
            RunProgress::ResolveFutures(_) => Err(
                PyError::RuntimeError("async futures not supported with `Monty.run`".to_owned()),
            ),
            RunProgress::OsCall { function, args, kwargs, call_id: _, state } => {
                if self.os {
                    Ok(Action::CallOs(HostCall { function_name: function, args, kwargs, state }))
                } else {
                    let mut message: String = "OS function '".to_owned();
                    message.append(function.as_str());
                    message.append("' not implemented");
                    Ok(Action::NotImplemented { message, state })
                }
            },
        }
    }
}

/// The converted arguments of a call of the operating system, or the exception
/// that converting them raised.
pub open spec fn os_converted<H: Host>(
    args: Result<Vec<H::Value>, H::Error>,
    kwargs: Result<Vec<(H::Value, H::Value)>, H::Error>,
) -> Result<(Vec<H::Value>, Vec<(H::Value, H::Value)>), ErrorView<H>> {
    match (args, kwargs) {
        (Err(error), _) => Err(ErrorView::Raised(error)),
        (Ok(_), Err(error)) => Err(ErrorView::Raised(error)),
        (Ok(args), Ok(kwargs)) => Ok((args, kwargs)),
    }
}

/// The converted arguments of a call of the operating system.
///
/// An exception that converting an argument raised is passed on and ends the
/// run; one from a positional argument goes before one from a keyword argument.
pub fn os_arguments<H: Host>(
    args: Result<Vec<H::Value>, H::Error>,
    kwargs: Result<Vec<(H::Value, H::Value)>, H::Error>,
) -> (result: Result<(Vec<H::Value>, Vec<(H::Value, H::Value)>), PyError<H>>)
    ensures
        crate::host::outcome(result) == os_converted::<H>(args, kwargs),
{
    let args = raised::<_, H>(args)?;
    let kwargs = raised::<_, H>(kwargs)?;
    Ok((args, kwargs))
}

/// The answer to a call of the operating system.
pub open spec fn os_answered<H: Host>(call: OsCall<H>) -> Result<
    ExternalResult<H>,
    ErrorView<H>,
> {
    match call {
        OsCall::Returned(Ok(value)) => Ok(ExternalResult::Return(value)),
        OsCall::Returned(Err(error)) => Err(ErrorView::Raised(error)),
        OsCall::Raised(exception) => Ok(ExternalResult::Error(exception)),
    }
}

/// The answer to a call of the operating system: what the callback returned or
/// raised.
///
/// An exception that converting the returned value raised is passed on and
/// ends the run.
pub fn os_answer<H: Host>(call: OsCall<H>) -> (result: Result<ExternalResult<H>, PyError<H>>)
    ensures
        crate::host::outcome(result) == os_answered(call),
{
    match call {
        OsCall::Returned(Ok(value)) => Ok(ExternalResult::Return(value)),
        OsCall::Returned(Err(error)) => Err(PyError::Raised(error)),
        OsCall::Raised(exception) => Ok(ExternalResult::Error(exception)),
    }
}

impl<H: Host> PyMonty<H> {
    /// How the program is run on `input_values`: in one go unless something in
    /// it can call back. That is an external function, the callback for calls
    /// of the operating system, and a dataclass instance among the inputs.
    pub open spec fn spec_path(self, os: bool, input_values: Seq<MontyObject<H>>) -> Path {
        if self.external_function_names@.len() == 0 && !os
            && !crate::object::any_has_dataclass(input_values) {
            Path::Direct
        } else {
            Path::Iterative
        }
    }

    /// The program ready to be run.
    pub open spec fn readied_run(
        &self,
        input_values: Vec<MontyObject<H>>,
        limits: Option<Result<H::Limits, H::Error>>,
        external_functions: bool,
        print_callback: Option<Arc<H::Callback>>,
        os: Option<OsCandidate<H>>,
    ) -> Result<Run<'_, H>, ErrorView<H>> {
        match (os_error(os), crate::monty::tracked_by::<H>(limits)) {
            (Some(error), _) => Err(error),
            (None, Err(error)) => Err(error),
            (None, Ok(tracking)) => Ok(
                Run {
                    path: self.spec_path(os is Some, input_values@),
                    runner: &self.runner,
                    input_values,
                    tracking,
                    answerers: Answerers { external_functions, os: os is Some },
                    print_callback,
                },
            ),
        }
    }

    /// Chooses how the program is run.
    pub fn run_impl(&self, os: bool, input_values: &Vec<MontyObject<H>>) -> (path: Path)
        ensures
            path == self.spec_path(os, input_values@),
    {
        if self.external_function_names.len() == 0 && !os && !any_contains_dataclass(input_values) {
            Path::Direct
        } else {
            Path::Iterative
        }
    }

    /// Readies the program to be run on the values of its inputs, given whether
    /// there are external functions.
    ///
    /// `TypeError` if the callback for calls of the operating system cannot be
    /// called; an exception that reading the limits raised is passed on.
    pub fn run(
        &self,
        input_values: Vec<MontyObject<H>>,
        limits: Option<Result<H::Limits, H::Error>>,
        external_functions: bool,
        print_callback: Option<Arc<H::Callback>>,
        os: Option<OsCandidate<H>>,
    ) -> (result: Result<Run<'_, H>, PyError<H>>)
        ensures
            crate::host::outcome(result) == self.readied_run(
                input_values,
                limits,
                external_functions,
                print_callback,
                os,
            ),
    {
        let given: bool = os.is_some();
        check_os(os)?;
        let tracking = tracking::<H>(limits)?;
        let path = self.run_impl(given, &input_values);
        let answerers = Answerers { external_functions, os: given };
        Ok(
            Run {
                path,
                runner: &self.runner,
                input_values,
                tracking,
                answerers,
                print_callback,
            },
        )
    }
}

impl<H: Host, S> ActionView<H, S> {
    /// The state that waits for the action.
    pub open spec fn waiting(self) -> Option<S> {
        match self {
            ActionView::Return(_) => None,
            ActionView::CallMethod(call) => Some(call.state),
            ActionView::CallFunction(call) => Some(call.state),
            ActionView::CallOs(call) => Some(call.state),
            ActionView::NotImplemented { message, state } => Some(state),
        }
    }
}

/// A run ends where the interpreter does: with its output if the code ran to
/// its end, and with an exception if nothing can answer, that is for futures
/// and for an external function where there are none. At every other stop the
/// run goes on from the very state in which the interpreter stopped.
pub proof fn run_goes_on<H: Host, T: Tracker>(progress: RunProgress<H, T>, answerers: Answerers)
    ensures
        ({
            let action = next_action(Ok(progress), answerers);
            match progress {
                RunProgress::Complete(output) => action == Ok::<
                    ActionView<H, T::Snapshot>,
                    ErrorView<H>,
                >(ActionView::Return(output)),
                RunProgress::FunctionCall {
                    function_name,
                    args,
                    kwargs,
                    call_id,
                    method_call,
                    state,
                } => if method_call || answerers.external_functions {
                    action matches Ok(action) && action.waiting() == Some(state)
                } else {
                    action is Err
                },
                RunProgress::ResolveFutures(_) => action is Err,
                RunProgress::OsCall { function, args, kwargs, call_id, state } => {
                    action matches Ok(action) && action.waiting() == Some(state)
                },
            }
        }),
{
}

/// A program that declares an external function, or that is given a callback
/// for calls of the operating system, is never run in one go.
pub proof fn callbacks_are_answered<H: Host>(
    program: PyMonty<H>,
    os: bool,
    input_values: Seq<MontyObject<H>>,
)
    requires
        os || program.external_function_names@.len() > 0,
    ensures
        program.spec_path(os, input_values) == Path::Iterative,
{
}

/// A program whose input is, or holds at any depth, a dataclass instance is
/// never run in one go: its methods are called on the embedder's side.
pub proof fn dataclass_methods_are_dispatched<H: Host>(
    program: PyMonty<H>,
    os: bool,
    input_values: Seq<MontyObject<H>>,
    at: int,
)
    requires
        0 <= at < input_values.len(),
        crate::object::has_dataclass(input_values[at]),
    ensures
        program.spec_path(os, input_values) == Path::Iterative,
{
}

/// A call of the operating system is answered with what its callback did: the
/// value that it returned is returned, and the exception that it raised is
/// raised in the program. Only a value that cannot be converted ends the run.
pub proof fn os_calls_are_answered<H: Host>(
    value: MontyObject<H>,
    exception: H::Exception,
    error: H::Error,
)
    ensures
        os_answered(OsCall::<H>::Returned(Ok(value))) == Ok::<ExternalResult<H>, ErrorView<H>>(
            ExternalResult::Return(value),
        ),
        os_answered(OsCall::<H>::Raised(exception)) == Ok::<ExternalResult<H>, ErrorView<H>>(
            ExternalResult::Error(exception),
        ),
        os_answered(OsCall::<H>::Returned(Err(error))) == Err::<ExternalResult<H>, ErrorView<H>>(
            ErrorView::Raised(error),
        ),
{
}

/// The callback for calls of the operating system gets the very arguments that
/// were converted. One that cannot be converted ends the run, and a positional
/// one does so before a keyword one.
pub proof fn os_arguments_are_passed_on<H: Host>(
    args: Vec<H::Value>,
    kwargs: Vec<(H::Value, H::Value)>,
    converted_kwargs: Result<Vec<(H::Value, H::Value)>, H::Error>,
    error: H::Error,
)
    ensures
        os_converted::<H>(Ok(args), Ok(kwargs)) matches Ok(converted) && converted.0 == args
            && converted.1 == kwargs,
        os_converted::<H>(Err(error), converted_kwargs) matches Err(raised) && raised
            == ErrorView::<H>::Raised(error),
        os_converted::<H>(Ok(args), Err(error)) matches Err(raised) && raised == ErrorView::<
            H,
        >::Raised(error),
{
}

/// A callback is refused if and only if it cannot be called, with the name of
/// its class, or with what reading the name raised.
pub proof fn only_callables_answer<H: Host>(os: OsCandidate<H>)
    ensures
        os_error(None::<OsCandidate<H>>) is None,
        os.callable ==> os_error(Some(os)) is None,
        !os.callable ==> os_error(Some(os)) == Some(
            match os.class_name {
                Ok(name) => ErrorView::<H>::TypeError(
                    "TypeError: '"@ + name@ + "' object is not callable"@,
                ),
                Err(error) => ErrorView::Raised(error),
            },
        ),
{
}

/// A program is run in one go if and only if nothing in it can call back: it
/// declares no external function, there is no callback for calls of the
/// operating system, and no input is or holds a dataclass instance.
pub proof fn direct_unless_it_calls_back<H: Host>(
    program: PyMonty<H>,
    os: bool,
    input_values: Seq<MontyObject<H>>,
)
    ensures
        program.spec_path(os, input_values) == Path::Direct <==> {
            &&& program.external_function_names@.len() == 0
            &&& !os
            &&& forall|i: int|
                0 <= i < input_values.len() ==> !crate::object::has_dataclass(
                    #[trigger] input_values[i],
                )
        },
{
}

/// A run is given what it was asked for: the compiled code of the program, the
/// values of its inputs, limits if and only if limits were given, external
/// functions and a callback for calls of the operating system each if and only if
/// they were given, and the print callback.
pub proof fn run_is_given_what_was_given<H: Host>(
    program: PyMonty<H>,
    input_values: Vec<MontyObject<H>>,
    limits: Option<Result<H::Limits, H::Error>>,
    external_functions: bool,
    print_callback: Option<Arc<H::Callback>>,
    os: Option<OsCandidate<H>>,
)
    ensures
        ({
            let readied = program.readied_run(
                input_values,
                limits,
                external_functions,
                print_callback,
                os,
            );
            match (os, limits) {
                (Some(os), _) if !os.callable => readied is Err && os_error(Some(os)) == Some(
                    readied->Err_0,
                ),
                (_, Some(Err(error))) => readied is Err && readied->Err_0 == ErrorView::<H>::Raised(
                    error,
                ),
                _ => {
                    &&& readied matches Ok(run)
                    &&& *run.runner == program.runner
                    &&& run.input_values == input_values
                    &&& run.tracking == match limits {
                        Some(Ok(limits)) => Tracking::<H>::Limited(limits),
                        _ => Tracking::NoLimit,
                    }
                    &&& run.answerers.external_functions == external_functions
                    &&& run.answerers.os == (os is Some)
                    &&& run.print_callback == print_callback
                    &&& run.path == program.spec_path(os is Some, input_values@)
                },
            }
        }),
{
}

/// A call of an external function leads to the function where there are external
/// functions, and ends the run where there are none, whether there is a callback
/// for calls of the operating system or not. It is made under its own name, with
/// its own arguments, for the state that waits for it.
pub proof fn function_calls_lead_to_functions<H: Host, T: Tracker>(
    function_name: String,
    args: Vec<MontyObject<H>>,
    kwargs: Vec<(MontyObject<H>, MontyObject<H>)>,
    call_id: u32,
    state: T::Snapshot,
    answerers: Answerers,
)
    ensures
        ({
            let stop = RunProgress::<H, T>::FunctionCall {
                function_name,
                args,
                kwargs,
                call_id,
                method_call: false,
                state,
            };
            let action = next_action::<H, T>(Ok(stop), answerers);
            if answerers.external_functions {
                &&& action matches Ok(ActionView::CallFunction(call))
                &&& call.function_name == function_name
                &&& call.args == args
                &&& call.kwargs == kwargs
                &&& call.state == state
            } else {
                &&& action matches Err(error)
                &&& error == ErrorView::<H>::RuntimeError(
                    "External function '"@ + function_name@
                        + "' called but no external_functions provided"@,
                )
            }
        }),
{
}

/// A method call leads to the method of the instance, whatever else answers
/// calls, under its own name, with its own arguments, for the state that waits
/// for it.
pub proof fn method_calls_lead_to_methods<H: Host, T: Tracker>(
    function_name: String,
    args: Vec<MontyObject<H>>,
    kwargs: Vec<(MontyObject<H>, MontyObject<H>)>,
    call_id: u32,
    state: T::Snapshot,
    answerers: Answerers,
)
    ensures
        ({
            let stop = RunProgress::<H, T>::FunctionCall {
                function_name,
                args,
                kwargs,
                call_id,
                method_call: true,
                state,
            };
            &&& next_action::<H, T>(Ok(stop), answerers) matches Ok(ActionView::CallMethod(call))
            &&& call.function_name == function_name
            &&& call.args == args
            &&& call.kwargs == kwargs
            &&& call.state == state
        }),
{
}

/// A call of the operating system leads to the callback where there is one,
/// under its own name, with its own arguments, and is not implemented where
/// there is none, whether there are external functions or not. Either is for the
/// state that waits for it.
pub proof fn os_calls_lead_to_the_callback<H: Host, T: Tracker>(
    function: String,
    args: Vec<MontyObject<H>>,
    kwargs: Vec<(MontyObject<H>, MontyObject<H>)>,
    call_id: u32,
    state: T::Snapshot,
    answerers: Answerers,
)
    ensures
        ({
            let stop = RunProgress::<H, T>::OsCall { function, args, kwargs, call_id, state };
            let action = next_action::<H, T>(Ok(stop), answerers);
            if answerers.os {
                &&& action matches Ok(ActionView::CallOs(call))
                &&& call.function_name == function
                &&& call.args == args
                &&& call.kwargs == kwargs
                &&& call.state == state
            } else {
                &&& action matches Ok(ActionView::NotImplemented { message, state: waiting })
                &&& message == "OS function '"@ + function@ + "' not implemented"@
                &&& waiting == state
            }
        }),
{
}

/// A run ends with the output of the program, with its exception, or where it
/// waits for futures with an exception of its own, whatever answers calls.
pub proof fn runs_end<H: Host, T: Tracker>(
    value: MontyObject<H>,
    exception: H::Exception,
    pending: Pending<T::FutureSnapshot>,
    answerers: Answerers,
)
    ensures
        next_action::<H, T>(Ok(RunProgress::Complete(value)), answerers) == Ok::<
            ActionView<H, T::Snapshot>,
            ErrorView<H>,
        >(ActionView::Return(value)),
        next_action::<H, T>(Err(exception), answerers) == Err::<
            ActionView<H, T::Snapshot>,
            ErrorView<H>,
        >(ErrorView::Monty(exception)),
        next_action::<H, T>(Ok(RunProgress::ResolveFutures(pending)), answerers) == Err::<
            ActionView<H, T::Snapshot>,
            ErrorView<H>,
        >(ErrorView::RuntimeError("async futures not supported with `Monty.run`"@)),
{
}

/// What is to be done reads as what it is.
pub proof fn actions_read_as_they_are<H: Host, S>(
    value: MontyObject<H>,
    call: HostCall<H, S>,
    message: String,
    state: S,
)
    ensures
        Action::<H, S>::Return(value)@ == ActionView::<H, S>::Return(value),
        Action::<H, S>::CallMethod(call)@ == ActionView::<H, S>::CallMethod(call),
        Action::<H, S>::CallFunction(call)@ == ActionView::<H, S>::CallFunction(call),
        Action::<H, S>::CallOs(call)@ == ActionView::<H, S>::CallOs(call),
        (Action::<H, S>::NotImplemented { message, state })@ == (ActionView::<
            H,
            S,
        >::NotImplemented { message: message@, state }),
{
}

/// Functions that are given to a run are called: where a program is readied with
/// external functions, every call of one at which it stops leads to the function,
/// with or without a callback for calls of the operating system.
pub proof fn given_functions_are_called<H: Host, T: Tracker>(
    program: PyMonty<H>,
    input_values: Vec<MontyObject<H>>,
    limits: Option<Result<H::Limits, H::Error>>,
    print_callback: Option<Arc<H::Callback>>,
    os: Option<OsCandidate<H>>,
    function_name: String,
    args: Vec<MontyObject<H>>,
    kwargs: Vec<(MontyObject<H>, MontyObject<H>)>,
    call_id: u32,
    state: T::Snapshot,
)
    ensures
        ({
            let stop = RunProgress::<H, T>::FunctionCall {
                function_name,
                args,
                kwargs,
                call_id,
                method_call: false,
                state,
            };
            let call = HostCall { function_name, args, kwargs, state };
            let with = program.readied_run(input_values, limits, true, print_callback, os);
            let without = program.readied_run(input_values, limits, false, print_callback, os);
            &&& with is Ok ==> next_action::<H, T>(Ok(stop), with->Ok_0.answerers) == Ok::<
                ActionView<H, T::Snapshot>,
                ErrorView<H>,
            >(ActionView::CallFunction(call))
            &&& without is Ok ==> next_action::<H, T>(Ok(stop), without->Ok_0.answerers) is Err
            &&& with is Ok <==> without is Ok
        }),
{
}

} // verus!
