//! Opening a REPL session on its first code.
use std::sync::Arc;
use vstd::prelude::*;

use crate::host::{raised, ErrorView, Host, PyError, Tracker};
use crate::inputs::Extraction;
use crate::monty::{tracking, Declaration, Tracking};
use crate::object::MontyObject;
use crate::progress::Context;
use crate::repl::PyMontyRepl;
use crate::slot::{Either, EitherRepl};

verus! {

/// A session to be opened, before the values of its inputs are there.
pub struct ReplDraft<H: Host> {
    pub code: String,
    pub declaration: Declaration,
    /// What the session keeps.
    pub context: Context<H>,
}

/// What the interpreter opens a session with.
pub struct ReplArgs<H: Host> {
    pub code: String,
    pub script_name: String,
    pub declaration: Declaration,
    /// The values of the inputs, in the order of their declaration.
    pub input_values: Vec<MontyObject<H>>,
}

/// A session that is being opened without limits: what it keeps.
pub struct NoLimitOpening<H: Host> {
    pub context: Context<H>,
}

/// A session that is being opened under limits: what it keeps.
pub struct LimitedOpening<H: Host> {
    pub context: Context<H>,
}

/// A session ready to be opened, with limits if there are limits.
pub enum ReplRequest<H: Host> {
    NoLimit(ReplArgs<H>, NoLimitOpening<H>),
    Limited(ReplArgs<H>, H::Limits, LimitedOpening<H>),
}

/// A session that has been opened, and the output of its first code before it
/// is converted.
pub struct NewRepl<H: Host> {
    pub repl: PyMontyRepl<H>,
    pub output: MontyObject<H>,
}

/// The session that `draft` is opened as.
pub open spec fn requested<H: Host>(
    draft: ReplDraft<H>,
    input_values: Vec<MontyObject<H>>,
    limits: Option<Result<H::Limits, H::Error>>,
) -> Result<ReplRequest<H>, ErrorView<H>> {
    let args = ReplArgs {
        code: draft.code,
        script_name: draft.context.script_name,
        declaration: draft.declaration,
        input_values,
    };
    match crate::monty::tracked_by::<H>(limits) {
        Ok(Tracking::NoLimit) => Ok(
            ReplRequest::NoLimit(args, NoLimitOpening { context: draft.context }),
        ),
        Ok(Tracking::Limited(limits)) => Ok(
            ReplRequest::Limited(args, limits, LimitedOpening { context: draft.context }),
        ),
        Err(error) => Err(error),
    }
}

impl<H: Host> PyMontyRepl<H> {
    /// Whether `result` is the session to be opened.
    pub open spec fn is_drafted(
        code: String,
        script_name: Seq<char>,
        inputs: Option<&Vec<Result<String, String>>>,
        external_functions: Option<&Vec<Result<String, String>>>,
        print_callback: Option<Arc<H::Callback>>,
        dc_registry: Result<Arc<H::Registry>, H::Error>,
        result: Result<ReplDraft<H>, PyError<H>>,
    ) -> bool {
        match (
            crate::monty::declared::<H>(inputs, "inputs"@),
            crate::monty::declared::<H>(external_functions, "external_functions"@),
            dc_registry,
        ) {
            (Err(error), _, _) => crate::host::fails(result, error),
            (Ok(_), Err(error), _) => crate::host::fails(result, error),
            (Ok(_), Ok(_), Err(error)) => crate::host::fails(result, ErrorView::Raised(error)),
            (Ok(inputs), Ok(functions), Ok(dc_registry)) => {
                &&& result matches Ok(draft)
                &&& draft.code == code
                &&& draft.declaration.input_names@ == inputs
                &&& draft.declaration.external_function_names@ == functions
                &&& draft.context.script_name@ == script_name
                &&& draft.context.print_callback == print_callback
                &&& draft.context.dc_registry == dc_registry
            },
        }
    }

    /// Reads what a session is opened with: the names of its inputs, those of
    /// its external functions, and the registry.
    ///
    /// `TypeError` if a name is no string; an exception from the registry is
    /// passed on.
    pub fn create(
        code: String,
        script_name: &str,
        inputs: Option<&Vec<Result<String, String>>>,
        external_functions: Option<&Vec<Result<String, String>>>,
        print_callback: Option<Arc<H::Callback>>,
        dc_registry: Result<Arc<H::Registry>, H::Error>,
    ) -> (result: Result<ReplDraft<H>, PyError<H>>)
        ensures
            Self::is_drafted(
                code,
                script_name@,
                inputs,
                external_functions,
                print_callback,
                dc_registry,
                result,
            ),
    {
        let declaration = Declaration::read(inputs, external_functions)?;
        let dc_registry = raised::<_, H>(dc_registry)?;
        Ok(
            ReplDraft {
                code,
                declaration,
                context: Context {
                    script_name: script_name.to_owned(),
                    print_callback,
                    dc_registry,
                },
            },
        )
    }

    /// Starts the extraction of the values of the declared inputs, given
    /// whether there is a dictionary of inputs.
    ///
    /// `TypeError` if there is one and no input is declared, or if there is
    /// none and inputs are declared.
    pub fn extract_repl_input_values(input_names: &Vec<String>, given: bool) -> (result: Result<
        Extraction<'_, H>,
        PyError<H>,
    >)
        ensures
            match crate::inputs::inputs_error::<H>(input_names@, given) {
                Some(error) => crate::host::fails(result, error),
                None => result matches Ok(extraction) && extraction.stands(input_names@, seq![]),
            },
    {
        Extraction::begin(input_names, given)
    }

    /// Readies a session to be opened on the values of its inputs.
    ///
    /// An exception that reading the limits raised is passed on.
    pub fn create_repl(
        draft: ReplDraft<H>,
        input_values: Vec<MontyObject<H>>,
        limits: Option<Result<H::Limits, H::Error>>,
    ) -> (result: Result<ReplRequest<H>, PyError<H>>)
        ensures
            crate::host::outcome(result) == requested(draft, input_values, limits),
    {
        let tracking = tracking::<H>(limits)?;
        let args = ReplArgs {
            code: draft.code,
            script_name: draft.context.script_name.clone(),
            declaration: draft.declaration,
            input_values,
        };
        match tracking {
            Tracking::NoLimit => Ok(
                ReplRequest::NoLimit(args, NoLimitOpening { context: draft.context }),
            ),
            Tracking::Limited(limits) => Ok(
                ReplRequest::Limited(args, limits, LimitedOpening { context: draft.context }),
            ),
        }
    }
}

/// The session that the interpreter has opened, which keeps `context`.
pub open spec fn opened_as<H: Host>(
    context: Context<H>,
    repl: EitherRepl<H>,
    output: MontyObject<H>,
) -> NewRepl<H> {
    NewRepl {
        repl: PyMontyRepl {
            repl,
            print_callback: context.print_callback,
            dc_registry: context.dc_registry,
            script_name: context.script_name,
        },
        output,
    }
}

impl<H: Host> Context<H> {
    /// The session that the interpreter has opened.
    fn open(self, repl: EitherRepl<H>, output: MontyObject<H>) -> (opened: NewRepl<H>)
        ensures
            opened == opened_as(self, repl, output),
    {
        NewRepl {
            repl: PyMontyRepl {
                repl,
                print_callback: self.print_callback,
                dc_registry: self.dc_registry,
                script_name: self.script_name,
            },
            output,
        }
    }
}

impl<H: Host> NoLimitOpening<H> {
    /// The session that the interpreter has opened, without limits.
    ///
    /// An exception of the interpreter is passed on.
    pub fn open(
        self,
        opened: Result<(<H::NoLimit as Tracker>::Repl, MontyObject<H>), H::Exception>,
    ) -> (result: Result<NewRepl<H>, PyError<H>>)
        ensures
            crate::host::outcome(result) == match opened {
                Ok((repl, output)) => Ok::<NewRepl<H>, ErrorView<H>>(
                    opened_as(self.context, Either::NoLimit(repl), output),
                ),
                Err(exception) => Err(ErrorView::Monty(exception)),
            },
            result matches Ok(new) ==> new.repl.repl is NoLimit,
    {
        match opened {
            Ok((repl, output)) => Ok(self.context.open(Either::NoLimit(repl), output)),
            Err(exception) => Err(PyError::Monty(exception)),
        }
    }
}

impl<H: Host> LimitedOpening<H> {
    /// The session that the interpreter has opened, under limits.
    ///
    /// An exception of the interpreter is passed on.
    pub fn open(
        self,
        opened: Result<(<H::Limited as Tracker>::Repl, MontyObject<H>), H::Exception>,
    ) -> (result: Result<NewRepl<H>, PyError<H>>)
        ensures
            crate::host::outcome(result) == match opened {
                Ok((repl, output)) => Ok::<NewRepl<H>, ErrorView<H>>(
                    opened_as(self.context, Either::Limited(repl), output),
                ),
                Err(exception) => Err(ErrorView::Monty(exception)),
            },
            result matches Ok(new) ==> new.repl.repl is Limited,
    {
        match opened {
            Ok((repl, output)) => Ok(self.context.open(Either::Limited(repl), output)),
            Err(exception) => Err(PyError::Monty(exception)),
        }
    }
}

/// A session is opened under limits if and only if limits were given.
pub proof fn opened_under_given_limits<H: Host>(
    draft: ReplDraft<H>,
    input_values: Vec<MontyObject<H>>,
    limits: Option<Result<H::Limits, H::Error>>,
)
    ensures
        match requested(draft, input_values, limits) {
            Ok(ReplRequest::NoLimit(_, _)) => limits is None,
            Ok(ReplRequest::Limited(_, given, _)) => limits matches Some(Ok(limits)) && given
                == limits,
            Err(_) => limits matches Some(Err(_)),
        },
{
}

impl<H: Host> NewRepl<H> {
    /// The session and the converted output of its first code.
    ///
    /// An exception that converting the output raised is passed on; the
    /// session is lost with it.
    pub fn finish(self, output: Result<H::Value, H::Error>) -> (result: Result<
        (PyMontyRepl<H>, H::Value),
        PyError<H>,
    >)
        ensures
            crate::host::outcome(result) == match output {
                Ok(output) => Ok::<(PyMontyRepl<H>, H::Value), ErrorView<H>>((self.repl, output)),
                Err(error) => Err(ErrorView::Raised(error)),
            },
    {
        let output = raised::<_, H>(output)?;
        Ok((self.repl, output))
    }
}

/// The interpreter opens a session with what was drafted: its code, the name of
/// its script and its declaration, each as it stands in the draft, and the given
/// values of its inputs. What the draft keeps is kept. Limits change nothing of
/// that: with them and without them the session is opened with the same.
pub proof fn opened_with_what_was_drafted<H: Host>(
    draft: ReplDraft<H>,
    input_values: Vec<MontyObject<H>>,
    limits: H::Limits,
    error: H::Error,
)
    ensures
        ({
            let free = requested(draft, input_values, None);
            let limited = requested(draft, input_values, Some(Ok(limits)));
            &&& free matches Ok(ReplRequest::NoLimit(free_args, free_opening))
            &&& limited matches Ok(ReplRequest::Limited(args, given, opening))
            &&& free_args.code == draft.code
            &&& free_args.script_name == draft.context.script_name
            &&& free_args.declaration.input_names == draft.declaration.input_names
            &&& free_args.declaration.external_function_names
                == draft.declaration.external_function_names
            &&& free_args.input_values == input_values
            &&& free_opening.context.script_name == draft.context.script_name
            &&& free_opening.context.print_callback == draft.context.print_callback
            &&& free_opening.context.dc_registry == draft.context.dc_registry
            &&& args == free_args
            &&& given == limits
            &&& opening.context == free_opening.context
        }),
        requested(draft, input_values, Some(Err(error))) == Err::<ReplRequest<H>, ErrorView<H>>(
            ErrorView::Raised(error),
        ),
{
}

/// A session is drafted with what was given: the code and the name of its
/// script, the names that the first list holds as those of its inputs, the names
/// that the second list holds as those of its external functions, the print
/// callback and the registry. An exception from the registry is passed on.
pub proof fn drafted_as_declared<H: Host>(
    code: String,
    script_name: Seq<char>,
    inputs: Option<&Vec<Result<String, String>>>,
    external_functions: Option<&Vec<Result<String, String>>>,
    inputs_given: Seq<Result<String, String>>,
    functions_given: Seq<Result<String, String>>,
    print_callback: Option<Arc<H::Callback>>,
    dc_registry: Result<Arc<H::Registry>, H::Error>,
    result: Result<ReplDraft<H>, PyError<H>>,
)
    requires
        inputs_given == match inputs {
            Some(items) => items@,
            None => seq![],
        },
        functions_given == match external_functions {
            Some(items) => items@,
            None => seq![],
        },
        PyMontyRepl::is_drafted(
            code,
            script_name,
            inputs,
            external_functions,
            print_callback,
            dc_registry,
            result,
        ),
    ensures
        ({
            (forall|i: int| 0 <= i < inputs_given.len() ==> (#[trigger] inputs_given[i]) is Ok) && (
            forall|i: int|
                0 <= i < functions_given.len() ==> (#[trigger] functions_given[i]) is Ok)
                ==> if dc_registry is Err {
                result is Err && result->Err_0@ == ErrorView::<H>::Raised(dc_registry->Err_0)
            } else {
                &&& result matches Ok(draft)
                &&& draft.code == code
                &&& draft.context.script_name@ == script_name
                &&& draft.context.print_callback == print_callback
                &&& draft.context.dc_registry == dc_registry->Ok_0
                &&& draft.declaration.input_names@.len() == inputs_given.len()
                &&& forall|i: int|
                    0 <= i < inputs_given.len() ==> #[trigger] inputs_given[i] == Ok::<
                        String,
                        String,
                    >(draft.declaration.input_names@[i])
                &&& draft.declaration.external_function_names@.len() == functions_given.len()
                &&& forall|i: int|
                    0 <= i < functions_given.len() ==> #[trigger] functions_given[i] == Ok::<
                        String,
                        String,
                    >(draft.declaration.external_function_names@[i])
            }
        }),
{
    if inputs is Some {
        crate::monty::lists_declare_their_names::<H>(inputs->Some_0, 0, "inputs"@);
    }
    if external_functions is Some {
        crate::monty::lists_declare_their_names::<H>(
            external_functions->Some_0,
            0,
            "external_functions"@,
        );
    }
}

/// No session is drafted if a name is no string: the first such name among the
/// inputs is reported, or among the external functions if all inputs are right,
/// behind the argument that it stands in, and before the registry is looked at.
pub proof fn wrong_names_draft_nothing<H: Host>(
    code: String,
    script_name: Seq<char>,
    inputs: Option<&Vec<Result<String, String>>>,
    external_functions: Option<&Vec<Result<String, String>>>,
    print_callback: Option<Arc<H::Callback>>,
    dc_registry: Result<Arc<H::Registry>, H::Error>,
    at: int,
    result: Result<ReplDraft<H>, PyError<H>>,
)
    requires
        PyMontyRepl::is_drafted(
            code,
            script_name,
            inputs,
            external_functions,
            print_callback,
            dc_registry,
            result,
        ),
    ensures
        ({
            let wrong_input = match inputs {
                Some(items) => 0 <= at < items@.len() && items@[at] is Err && forall|i: int|
                    0 <= i < at ==> (#[trigger] items@[i]) is Ok,
                None => false,
            };
            wrong_input ==> result is Err && result->Err_0@ == ErrorView::<H>::TypeError(
                "inputs"@ + ": "@ + inputs->Some_0@[at]->Err_0@,
            )
        }),
        ({
            let inputs_are_right = match inputs {
                Some(items) => forall|i: int|
                    0 <= i < items@.len() ==> (#[trigger] items@[i]) is Ok,
                None => true,
            };
            let wrong_function = match external_functions {
                Some(items) => 0 <= at < items@.len() && items@[at] is Err && forall|i: int|
                    0 <= i < at ==> (#[trigger] items@[i]) is Ok,
                None => false,
            };
            inputs_are_right && wrong_function ==> result is Err && result->Err_0@ == ErrorView::<
                H,
            >::TypeError("external_functions"@ + ": "@ + external_functions->Some_0@[at]->Err_0@)
        }),
{
    if inputs is Some {
        crate::monty::lists_declare_their_names::<H>(inputs->Some_0, at, "inputs"@);
    }
    if external_functions is Some {
        crate::monty::lists_declare_their_names::<H>(
            external_functions->Some_0,
            at,
            "external_functions"@,
        );
    }
}

/// A session that has been opened keeps the state and the output that the
/// interpreter gave, and what it was to keep.
pub proof fn opened_session_keeps_its_context<H: Host>(
    context: Context<H>,
    repl: EitherRepl<H>,
    output: MontyObject<H>,
)
    ensures
        ({
            let new = opened_as(context, repl, output);
            &&& new.output == output
            &&& new.repl.repl == repl
            &&& new.repl.print_callback == context.print_callback
            &&& new.repl.dc_registry == context.dc_registry
            &&& new.repl.script_name == context.script_name
        }),
{
}

} // verus!
