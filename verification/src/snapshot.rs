//! A run suspended at a call.
use std::sync::Arc;
use vstd::prelude::*;
use vstd::string::*;

use crate::codec::{
    decode_bool, decode_string, decode_u32, encode_bool, encode_string, encode_u32, Fault, Taken,
};
use crate::external::{extract_external_result, ExternalResult, ResultDict};
use crate::host::{raised, ErrorView, Host, PyError, Tracker};
use crate::object::MontyObject;
use crate::progress::Context;
use crate::save::{append_field, encode_variant, Encoded};
use crate::slot::{Either, EitherSnapshot, Launch, Variant};

verus! {

/// A call that waits for its answer.
pub struct PyMontySnapshot<H: Host> {
    pub snapshot: EitherSnapshot<H>,
    pub print_callback: Option<Arc<H::Callback>>,
    pub dc_registry: Arc<H::Registry>,
    /// Name of the script being executed.
    pub script_name: String,
    /// Whether this call refers to an OS function.
    pub is_os_function: bool,
    /// Whether this call is a dataclass method call, whose first argument is
    /// the instance.
    pub is_method_call: bool,
    /// The name of the function being called.
    pub function_name: String,
    /// The positional arguments passed to the function.
    pub args: Vec<H::Value>,
    /// The keyword arguments passed to the function, as pairs of key and value.
    pub kwargs: Vec<(H::Value, H::Value)>,
    /// The unique identifier for this call.
    pub call_id: u32,
}

/// A call ready to be resumed.
pub type SnapshotLaunch<H> = Launch<
    <<H as Host>::NoLimit as Tracker>::Snapshot,
    <<H as Host>::Limited as Tracker>::Snapshot,
    ExternalResult<H>,
    Context<H>,
>;

/// What is wrong with the arguments of `resume`.
pub open spec fn resume_args_error() -> Seq<char> {
    "resume() accepts either return_value or exception, not both"@
}

/// The answer that the arguments of `resume` give.
pub open spec fn resume_answer<H: Host>(kwargs: Option<ResultDict<H>>) -> Result<
    ExternalResult<H>,
    ErrorView<H>,
> {
    match kwargs {
        Some(kwargs) => crate::external::extracted(kwargs, resume_args_error()),
        None => Err(ErrorView::TypeError(resume_args_error())),
    }
}

/// Reads the answer out of the arguments of `resume`.
///
/// `TypeError` unless exactly one of `return_value`, `exception` and `future`
/// is given.
pub fn read_answer<H: Host>(kwargs: Option<ResultDict<H>>) -> (result: Result<
    ExternalResult<H>,
    PyError<H>,
>)
    ensures
        crate::host::outcome(result) == resume_answer(kwargs),
{
    match kwargs {
        Some(kwargs) => extract_external_result(
            kwargs,
            "resume() accepts either return_value or exception, not both",
        ),
        None => Err(
            PyError::TypeError(
                "resume() accepts either return_value or exception, not both".to_owned(),
            ),
        ),
    }
}

/// The error of a snapshot whose lock an earlier panic has poisoned.
pub fn snapshot_locked<H: Host>() -> (error: PyError<H>)
    ensures
        error@ == ErrorView::<H>::RuntimeError(
            "Snapshot is currently being resumed by another thread"@,
        ),
{
    PyError::RuntimeError("Snapshot is currently being resumed by another thread".to_owned())
}

impl<H: Host> PyMontySnapshot<H> {
    /// What the next stage of the execution inherits.
    pub open spec fn spec_context(self) -> Context<H> {
        Context {
            script_name: self.script_name,
            print_callback: self.print_callback,
            dc_registry: self.dc_registry,
        }
    }

    /// What the next stage of the execution inherits.
    pub fn context(&self) -> (context: Context<H>)
        ensures
            context == self.spec_context(),
    {
        Context {
            script_name: self.script_name.clone(),
            print_callback: match &self.print_callback {
                Some(callback) => Some(Arc::clone(callback)),
                None => None,
            },
            dc_registry: Arc::clone(&self.dc_registry),
        }
    }

    /// What resuming with `kwargs` gives, and the snapshot after it. Wrong
    /// arguments are refused first; the state is taken out only if it continues.
    pub open spec fn resumed(self, kwargs: Option<ResultDict<H>>) -> (
        Result<SnapshotLaunch<H>, ErrorView<H>>,
        Self,
    ) {
        match resume_answer(kwargs) {
            Err(error) => (Err(error), self),
            Ok(answer) => match self.snapshot.launched(answer, self.spec_context()) {
                Some(launch) => (Ok(launch), PyMontySnapshot { snapshot: Either::Done, ..self }),
                None => (Err(crate::slot::resumed_error()), self),
            },
        }
    }

    /// Takes the state out to resume it with either a return value, an
    /// exception or a future.
    ///
    /// `TypeError` unless exactly one of `return_value`, `exception` and
    /// `future` is given; an exception that reading the answer raised is passed
    /// on; `RuntimeError` if the snapshot has already been resumed. On every
    /// failure the snapshot stays as it was.
    pub fn resume(&mut self, kwargs: Option<ResultDict<H>>) -> (result: Result<
        SnapshotLaunch<H>,
        PyError<H>,
    >)
        ensures
            crate::host::outcome(result) == old(self).resumed(kwargs).0,
            *final(self) == old(self).resumed(kwargs).1,
            result is Err ==> *final(self) == *old(self),
    {
        let answer = read_answer(kwargs)?;
        let context = self.context();
        self.snapshot.launch(answer, context)
    }

    /// The printed form, given those of the arguments.
    pub fn repr(&self, args: Result<String, H::Error>, kwargs: Result<String, H::Error>) -> (result:
        Result<String, PyError<H>>)
        ensures
            match (args, kwargs) {
                (Err(error), _) => crate::host::fails(result, ErrorView::Raised(error)),
                (Ok(_), Err(error)) => crate::host::fails(result, ErrorView::Raised(error)),
                (Ok(args), Ok(kwargs)) => result matches Ok(text) && text@
                    == "MontySnapshot(script_name='"@ + self.script_name@ + "', function_name='"@
                    + self.function_name@ + "', args="@ + args@ + ", kwargs="@ + kwargs@ + ")"@,
            },
    {
        let args = raised::<_, H>(args)?;
        let kwargs = raised::<_, H>(kwargs)?;
        let mut text: String = "MontySnapshot(script_name='".to_owned();
        text.append(self.script_name.as_str());
        text.append("', function_name='");
        text.append(self.function_name.as_str());
        text.append("', args=");
        text.append(args.as_str());
        text.append(", kwargs=");
        text.append(kwargs.as_str());
        text.append(")");
        Ok(text)
    }

    /// Refuses a snapshot that has been resumed.
    ///
    /// `RuntimeError` if the state has been taken out.
    pub fn check_dump(&self) -> (result: Result<(), PyError<H>>)
        ensures
            crate::host::outcome(result) == if self.snapshot is Done {
                Err::<(), ErrorView<H>>(resumed_dump_error())
            } else {
                Ok(())
            },
    {
        match self.snapshot {
            Either::Done => Err(
                PyError::RuntimeError(
                    "Cannot dump progress that has already been resumed".to_owned(),
                ),
            ),
            _ => Ok(()),
        }
    }

    /// The bytes of the snapshot, given those of its state and of its
    /// arguments.
    pub open spec fn spec_bytes(self, state: Seq<u8>, args: Seq<u8>, kwargs: Seq<u8>) -> Seq<u8> {
        call_bytes(
            self.snapshot.spec_variant(),
            state,
            saved_call_bytes(
                self.script_name@,
                self.is_os_function,
                self.is_method_call,
                self.function_name@,
            ),
            args,
            kwargs,
            self.call_id,
        )
    }

    /// What saving the snapshot gives.
    pub open spec fn dumped(
        self,
        args: Result<Encoded, H::Error>,
        kwargs: Result<Encoded, H::Error>,
        state: Encoded,
    ) -> Result<Seq<u8>, ErrorView<H>> {
        if self.snapshot is Done {
            Err(resumed_dump_error())
        } else {
            match (args, kwargs, state) {
                (Err(error), _, _) => Err(ErrorView::Raised(error)),
                (Ok(_), Err(error), _) => Err(ErrorView::Raised(error)),
                (Ok(_), Ok(_), Err(message)) => Err(ErrorView::ValueError(message@)),
                (Ok(Err(message)), Ok(_), Ok(_)) => Err(ErrorView::ValueError(message@)),
                (Ok(Ok(_)), Ok(Err(message)), Ok(_)) => Err(ErrorView::ValueError(message@)),
                (Ok(Ok(args)), Ok(Ok(kwargs)), Ok(state)) => Ok(
                    self.spec_bytes(state@, args@, kwargs@),
                ),
            }
        }
    }

    /// Saves the snapshot, given its encoded state and its converted and
    /// encoded arguments. The callback and the registry are not saved.
    ///
    /// `RuntimeError` if the snapshot has been resumed; an exception that
    /// converting an argument raised is passed on; `ValueError` if a field
    /// could not be encoded.
    pub fn dump(
        &self,
        args: Result<Encoded, H::Error>,
        kwargs: Result<Encoded, H::Error>,
        state: Encoded,
    ) -> (result: Result<Vec<u8>, PyError<H>>)
        ensures
            match self.dumped(args, kwargs, state) {
                Ok(expected) => result matches Ok(bytes) && bytes@ == expected,
                Err(error) => crate::host::fails(result, error),
            },
    {
        self.check_dump()?;
        let args = raised::<_, H>(args)?;
        let kwargs = raised::<_, H>(kwargs)?;
        let mut bytes: Vec<u8> = Vec::new();
        append_field(&mut bytes, encode_variant(self.snapshot.variant()))?;
        assert(bytes@ =~= crate::save::variant_bytes(self.snapshot.spec_variant()));
        append_field(&mut bytes, state)?;
        append_field(
            &mut bytes,
            encode_call_fields(
                self.script_name.as_str(),
                self.is_os_function,
                self.is_method_call,
                self.function_name.as_str(),
            ),
        )?;
        append_field(&mut bytes, args)?;
        append_field(&mut bytes, kwargs)?;
        append_field(&mut bytes, encode_u32(self.call_id))?;
        Ok(bytes)
    }

    /// The snapshot with what was decoded of its bytes.
    pub open spec fn restored(
        snapshot: EitherSnapshot<H>,
        call: SavedCall,
        call_id: u32,
        dc_registry: Result<Arc<H::Registry>, H::Error>,
        args: Result<Vec<H::Value>, H::Error>,
        kwargs: Result<Vec<(H::Value, H::Value)>, H::Error>,
        print_callback: Option<Arc<H::Callback>>,
    ) -> Result<Self, ErrorView<H>> {
        match (dc_registry, args, kwargs) {
            (Err(error), _, _) => Err(ErrorView::Raised(error)),
            (Ok(_), Err(error), _) => Err(ErrorView::Raised(error)),
            (Ok(_), Ok(_), Err(error)) => Err(ErrorView::Raised(error)),
            (Ok(dc_registry), Ok(args), Ok(kwargs)) => Ok(
                PyMontySnapshot {
                    snapshot,
                    print_callback,
                    dc_registry,
                    script_name: call.script_name,
                    is_os_function: call.is_os_function,
                    is_method_call: call.is_method_call,
                    function_name: call.function_name,
                    args,
                    kwargs,
                    call_id,
                },
            ),
        }
    }

    /// Restores a snapshot from what was decoded of its bytes.
    ///
    /// An exception from the registry or from converting an argument is passed
    /// on, in that order.
    pub fn load(
        snapshot: EitherSnapshot<H>,
        call: SavedCall,
        call_id: u32,
        dc_registry: Result<Arc<H::Registry>, H::Error>,
        args: Result<Vec<H::Value>, H::Error>,
        kwargs: Result<Vec<(H::Value, H::Value)>, H::Error>,
        print_callback: Option<Arc<H::Callback>>,
    ) -> (result: Result<Self, PyError<H>>)
        ensures
            crate::host::outcome(result) == Self::restored(
                snapshot,
                call,
                call_id,
                dc_registry,
                args,
                kwargs,
                print_callback,
            ),
    {
        let dc_registry = raised::<_, H>(dc_registry)?;
        let args = raised::<_, H>(args)?;
        let kwargs = raised::<_, H>(kwargs)?;
        Ok(
            PyMontySnapshot {
                snapshot,
                print_callback,
                dc_registry,
                script_name: call.script_name,
                is_os_function: call.is_os_function,
                is_method_call: call.is_method_call,
                function_name: call.function_name,
                args,
                kwargs,
                call_id,
            },
        )
    }
}

/// A resume that is refused is no resume: the snapshot is as it was, so that
/// every later resume gives what it would have given without the refused one.
pub proof fn refused_resume_is_no_resume<H: Host>(
    snapshot: PyMontySnapshot<H>,
    refused: Option<ResultDict<H>>,
    kwargs: Option<ResultDict<H>>,
)
    requires
        snapshot.resumed(refused).0 is Err,
    ensures
        snapshot.resumed(refused).1 == snapshot,
        snapshot.resumed(refused).1.resumed(kwargs) == snapshot.resumed(kwargs),
{
}

/// A snapshot is resumed once: after a resume that was accepted, every right
/// answer is refused, because the snapshot has already been resumed. A snapshot
/// that was not resumed takes every right answer.
pub proof fn resumed_once<H: Host>(
    snapshot: PyMontySnapshot<H>,
    first: Option<ResultDict<H>>,
    second: Option<ResultDict<H>>,
)
    requires
        resume_answer(second) is Ok,
    ensures
        snapshot.resumed(first).0 is Ok ==> snapshot.resumed(first).1.resumed(second).0 == Err::<
            SnapshotLaunch<H>,
            ErrorView<H>,
        >(crate::slot::resumed_error()),
        snapshot.resumed(second).0 is Ok <==> !(snapshot.snapshot is Done),
{
}

/// The exception for saving a state that has been taken out.
pub open spec fn resumed_dump_error<H: Host>() -> ErrorView<H> {
    ErrorView::RuntimeError("Cannot dump progress that has already been resumed"@)
}

/// The plain fields of a saved call that stand between its state and its
/// arguments.
pub struct SavedCall {
    pub script_name: String,
    pub is_os_function: bool,
    pub is_method_call: bool,
    pub function_name: String,
}

/// The plain fields of a saved call, as they are read.
pub struct SavedCallView {
    pub script_name: Seq<char>,
    pub is_os_function: bool,
    pub is_method_call: bool,
    pub function_name: Seq<char>,
}

impl View for SavedCall {
    type V = SavedCallView;

    open spec fn view(&self) -> SavedCallView {
        SavedCallView {
            script_name: self.script_name@,
            is_os_function: self.is_os_function,
            is_method_call: self.is_method_call,
            function_name: self.function_name@,
        }
    }
}

/// The bytes of the plain fields of a call.
pub open spec fn saved_call_bytes(
    script_name: Seq<char>,
    is_os_function: bool,
    is_method_call: bool,
    function_name: Seq<char>,
) -> Seq<u8> {
    crate::codec::string_bytes(script_name) + crate::codec::bool_bytes(is_os_function)
        + crate::codec::bool_bytes(is_method_call) + crate::codec::string_bytes(function_name)
}

/// Encodes the plain fields of a call.
pub fn encode_call_fields(
    script_name: &str,
    is_os_function: bool,
    is_method_call: bool,
    function_name: &str,
) -> (encoded: Encoded)
    ensures
        encoded is Ok,
        encoded->Ok_0@ == saved_call_bytes(
            script_name@,
            is_os_function,
            is_method_call,
            function_name@,
        ),
{
    let mut bytes = encode_string(script_name)?;
    bytes.append(&mut encode_bool(is_os_function)?);
    bytes.append(&mut encode_bool(is_method_call)?);
    bytes.append(&mut encode_string(function_name)?);
    Ok(bytes)
}

/// The bytes of a call: its state behind the variant, its plain fields, its
/// arguments and its identifier.
pub open spec fn call_bytes(
    variant: Variant,
    state: Seq<u8>,
    fields: Seq<u8>,
    args: Seq<u8>,
    kwargs: Seq<u8>,
    call_id: u32,
) -> Seq<u8> {
    crate::save::variant_bytes(variant) + state + fields + args + kwargs + crate::codec::varint(
        call_id as nat,
    )
}

/// Decodes the plain fields of a call.
pub open spec fn saved_call_taken(bytes: Seq<u8>) -> Taken<SavedCallView> {
    match crate::codec::string_taken(bytes) {
        Err(fault) => Err(fault),
        Ok((script_name, rest)) => match crate::codec::bool_taken(rest) {
            Err(fault) => Err(fault),
            Ok((is_os_function, rest)) => match crate::codec::bool_taken(rest) {
                Err(fault) => Err(fault),
                Ok((is_method_call, rest)) => match crate::codec::string_taken(rest) {
                    Err(fault) => Err(fault),
                    Ok((function_name, rest)) => Ok(
                        (
                            SavedCallView {
                                script_name,
                                is_os_function,
                                is_method_call,
                                function_name,
                            },
                            rest,
                        ),
                    ),
                },
            },
        },
    }
}

impl SavedCall {
    /// Reads the plain fields of a saved call out of the bytes behind its
    /// decoded state, and returns the bytes that start with its arguments.
    ///
    /// `ValueError` if the state could not be decoded or if the bytes do not
    /// start with such fields.
    pub fn load<'a, H: Host>(behind_state: Result<&'a [u8], String>) -> (result: Result<
        (SavedCall, &'a [u8]),
        PyError<H>,
    >)
        ensures
            match behind_state {
                Ok(data) => match saved_call_taken(data@) {
                    Ok((call, rest)) => result matches Ok(loaded) && loaded.0@ == call
                        && loaded.1@ == rest,
                    Err(fault) => crate::host::fails(result, crate::save::fault_error(fault)),
                },
                Err(message) => crate::host::fails(result, ErrorView::ValueError(message@)),
            },
    {
        let data = match behind_state {
            Ok(data) => data,
            Err(message) => return Err(PyError::ValueError(message)),
        };
        let (script_name, rest) = match decode_string(data) {
            Ok(decoded) => decoded,
            Err(message) => return Err(PyError::ValueError(message)),
        };
        let (is_os_function, rest) = match decode_bool(rest) {
            Ok(decoded) => decoded,
            Err(message) => return Err(PyError::ValueError(message)),
        };
        let (is_method_call, rest) = match decode_bool(rest) {
            Ok(decoded) => decoded,
            Err(message) => return Err(PyError::ValueError(message)),
        };
        let (function_name, rest) = match decode_string(rest) {
            Ok(decoded) => decoded,
            Err(message) => return Err(PyError::ValueError(message)),
        };
        Ok((SavedCall { script_name, is_os_function, is_method_call, function_name }, rest))
    }
}

/// Reads the identifier of a saved call out of the bytes behind its decoded
/// arguments. Bytes behind it are ignored.
///
/// `ValueError` if the arguments could not be decoded or if the bytes do not
/// start with an identifier.
pub fn load_call_id<H: Host>(behind_arguments: Result<&[u8], String>) -> (result: Result<
    u32,
    PyError<H>,
>)
    ensures
        match behind_arguments {
            Ok(data) => match crate::codec::take_varint32(data@) {
                Ok((call_id, _)) => result matches Ok(loaded) && loaded == call_id,
                Err(fault) => crate::host::fails(result, crate::save::fault_error(fault)),
            },
            Err(message) => crate::host::fails(result, ErrorView::ValueError(message@)),
        },
{
    let data = match behind_arguments {
        Ok(data) => data,
        Err(message) => return Err(PyError::ValueError(message)),
    };
    match decode_u32(data) {
        Ok((call_id, _)) => Ok(call_id),
        Err(message) => Err(PyError::ValueError(message)),
    }
}

/// Loading what was saved gives back the call: reading the variant leaves the
/// bytes that start with the state, reading the plain fields behind the state
/// leaves those that start with the arguments, and behind the arguments stands
/// the identifier.
pub proof fn saved_call_back(
    variant: Variant,
    state: Seq<u8>,
    call: SavedCallView,
    args: Seq<u8>,
    kwargs: Seq<u8>,
    call_id: u32,
)
    requires
        crate::codec::fits(call.script_name),
        crate::codec::fits(call.function_name),
    ensures
        ({
            let fields = saved_call_bytes(
                call.script_name,
                call.is_os_function,
                call.is_method_call,
                call.function_name,
            );
            let id = crate::codec::varint(call_id as nat);
            let arguments = args + (kwargs + id);
            &&& crate::save::variant_taken(
                call_bytes(variant, state, fields, args, kwargs, call_id),
            ) == Ok::<(Variant, Seq<u8>), Fault>((variant, state + (fields + arguments)))
            &&& saved_call_taken(fields + arguments) == Ok::<(SavedCallView, Seq<u8>), Fault>(
                (call, arguments),
            )
            &&& crate::codec::take_varint32(id) == Ok::<(nat, Seq<u8>), Fault>(
                (call_id as nat, seq![]),
            )
        }),
{
    let fields = saved_call_bytes(
        call.script_name,
        call.is_os_function,
        call.is_method_call,
        call.function_name,
    );
    let id = crate::codec::varint(call_id as nat);
    let arguments = args + (kwargs + id);
    let head = crate::save::variant_bytes(variant);
    crate::codec::lemma_append_assoc(head + state + fields + args, kwargs, id);
    crate::codec::lemma_append_assoc(head + state + fields, args, kwargs + id);
    crate::codec::lemma_append_assoc(head + state, fields, arguments);
    crate::codec::lemma_append_assoc(head, state, fields + arguments);
    crate::save::variant_back(variant, state + (fields + arguments));
    let from_function = crate::codec::string_bytes(call.function_name) + arguments;
    let from_method = crate::codec::bool_bytes(call.is_method_call) + from_function;
    let from_os = crate::codec::bool_bytes(call.is_os_function) + from_method;
    let script = crate::codec::string_bytes(call.script_name);
    let os = crate::codec::bool_bytes(call.is_os_function);
    let method = crate::codec::bool_bytes(call.is_method_call);
    let function = crate::codec::string_bytes(call.function_name);
    crate::codec::lemma_append_assoc(script + os + method, function, arguments);
    crate::codec::lemma_append_assoc(script + os, method, from_function);
    crate::codec::lemma_append_assoc(script, os, from_method);
    crate::codec::string_back(call.script_name, from_os);
    crate::codec::bool_back(call.is_os_function, from_method);
    crate::codec::bool_back(call.is_method_call, from_function);
    crate::codec::string_back(call.function_name, arguments);
    assert(id + seq![] =~= id);
    crate::codec::varint32_back(call_id, seq![]);
}

/// An answer reaches the call that waits for it. A snapshot that has not been
/// resumed continues, when it is resumed with a return value, an exception or a
/// future, from its own state, under its own tracker, with that very answer: the
/// value is returned from the call, the exception is raised at the call, or the
/// answer is put off. It keeps the name of the script, the print callback and
/// the registry. The snapshot is used up by it, and nothing else of it changes.
pub proof fn answer_reaches_the_call<H: Host>(
    snapshot: PyMontySnapshot<H>,
    dict: ResultDict<H>,
    value: MontyObject<H>,
    raised: H::Exception,
    answer: ExternalResult<H>,
)
    requires
        ({
            ||| dict == (ResultDict::<H> {
                len: 1,
                return_value: Ok(Some(Ok(value))),
                exception: Ok(None),
                future: Ok(None),
            }) && answer == ExternalResult::<H>::Return(value)
            ||| dict == (ResultDict::<H> {
                len: 1,
                return_value: Ok(None),
                exception: Ok(Some(raised)),
                future: Ok(None),
            }) && answer == ExternalResult::<H>::Error(raised)
            ||| dict == (ResultDict::<H> {
                len: 1,
                return_value: Ok(None),
                exception: Ok(None),
                future: Ok(Some(true)),
            }) && answer == ExternalResult::<H>::Future
        }),
    ensures
        ({
            let (result, after) = snapshot.resumed(Some(dict));
            match snapshot.snapshot {
                Either::NoLimit(state) => {
                    &&& result matches Ok(Launch::NoLimit(ready))
                    &&& ready.state == state
                    &&& ready.input == answer
                    &&& ready.context.script_name == snapshot.script_name
                    &&& ready.context.print_callback == snapshot.print_callback
                    &&& ready.context.dc_registry == snapshot.dc_registry
                    &&& after == PyMontySnapshot { snapshot: Either::Done, ..snapshot }
                },
                Either::Limited(state) => {
                    &&& result matches Ok(Launch::Limited(ready))
                    &&& ready.state == state
                    &&& ready.input == answer
                    &&& ready.context.script_name == snapshot.script_name
                    &&& ready.context.print_callback == snapshot.print_callback
                    &&& ready.context.dc_registry == snapshot.dc_registry
                    &&& after == PyMontySnapshot { snapshot: Either::Done, ..snapshot }
                },
                Either::Done => {
                    &&& result == Err::<SnapshotLaunch<H>, ErrorView<H>>(
                        ErrorView::RuntimeError("Progress already resumed"@),
                    )
                    &&& after == snapshot
                },
            }
        }),
{
}

/// A `resume` without arguments, or with more or fewer than one, is refused
/// with a `TypeError`, whatever the snapshot, and the snapshot stays as it was.
pub proof fn resume_takes_one_argument<H: Host>(
    snapshot: PyMontySnapshot<H>,
    kwargs: Option<ResultDict<H>>,
)
    requires
        kwargs matches Some(dict) ==> dict.len != 1,
    ensures
        snapshot.resumed(kwargs) == (
            Err::<SnapshotLaunch<H>, ErrorView<H>>(
                ErrorView::TypeError(
                    "resume() accepts either return_value or exception, not both"@,
                ),
            ),
            snapshot,
        ),
{
}

/// The plain fields of a call are read and saved each as what it is.
pub proof fn saved_call_reads_as_it_is(call: SavedCall)
    ensures
        call@.script_name == call.script_name@,
        call@.is_os_function == call.is_os_function,
        call@.is_method_call == call.is_method_call,
        call@.function_name == call.function_name@,
{
}

/// A snapshot is restored out of exactly what it is given, each part in its
/// place. An exception from the registry goes before one from a positional
/// argument, and that before one from a keyword argument.
pub proof fn restored_from_its_parts<H: Host>(
    snapshot: EitherSnapshot<H>,
    call: SavedCall,
    call_id: u32,
    dc_registry: Result<Arc<H::Registry>, H::Error>,
    args: Result<Vec<H::Value>, H::Error>,
    kwargs: Result<Vec<(H::Value, H::Value)>, H::Error>,
    print_callback: Option<Arc<H::Callback>>,
)
    ensures
        ({
            let result = PyMontySnapshot::<H>::restored(
                snapshot,
                call,
                call_id,
                dc_registry,
                args,
                kwargs,
                print_callback,
            );
            if dc_registry is Err {
                result == Err::<PyMontySnapshot<H>, ErrorView<H>>(
                    ErrorView::Raised(dc_registry->Err_0),
                )
            } else if args is Err {
                result == Err::<PyMontySnapshot<H>, ErrorView<H>>(ErrorView::Raised(args->Err_0))
            } else if kwargs is Err {
                result == Err::<PyMontySnapshot<H>, ErrorView<H>>(ErrorView::Raised(kwargs->Err_0))
            } else {
                &&& result matches Ok(restored)
                &&& restored.snapshot == snapshot
                &&& restored.print_callback == print_callback
                &&& restored.dc_registry == dc_registry->Ok_0
                &&& restored.script_name == call.script_name
                &&& restored.is_os_function == call.is_os_function
                &&& restored.is_method_call == call.is_method_call
                &&& restored.function_name == call.function_name
                &&& restored.args == args->Ok_0
                &&& restored.kwargs == kwargs->Ok_0
                &&& restored.call_id == call_id
            }
        }),
{
}

/// A snapshot that has been resumed cannot be saved, and one that has not can be
/// saved if and only if its arguments can be converted and all of its parts can
/// be encoded. An argument that cannot be converted is reported before a part
/// that cannot be encoded, and of the parts the state before the positional
/// arguments and those before the keyword arguments.
pub proof fn saved_unless_resumed<H: Host>(
    snapshot: PyMontySnapshot<H>,
    args: Result<Encoded, H::Error>,
    kwargs: Result<Encoded, H::Error>,
    state: Encoded,
)
    ensures
        ({
            let dumped = snapshot.dumped(args, kwargs, state);
            if snapshot.snapshot is Done {
                dumped == Err::<Seq<u8>, ErrorView<H>>(
                    ErrorView::RuntimeError("Cannot dump progress that has already been resumed"@),
                )
            } else if args is Err {
                dumped == Err::<Seq<u8>, ErrorView<H>>(ErrorView::Raised(args->Err_0))
            } else if kwargs is Err {
                dumped == Err::<Seq<u8>, ErrorView<H>>(ErrorView::Raised(kwargs->Err_0))
            } else if state is Err {
                dumped == Err::<Seq<u8>, ErrorView<H>>(ErrorView::ValueError(state->Err_0@))
            } else if args->Ok_0 is Err {
                dumped == Err::<Seq<u8>, ErrorView<H>>(ErrorView::ValueError(args->Ok_0->Err_0@))
            } else if kwargs->Ok_0 is Err {
                dumped == Err::<Seq<u8>, ErrorView<H>>(ErrorView::ValueError(kwargs->Ok_0->Err_0@))
            } else {
                dumped is Ok
            }
        }),
{
}

/// Bytes that do not hold the plain fields of a call are refused for the first
/// field that cannot be read.
pub proof fn first_unreadable_field_decides(bytes: Seq<u8>)
    ensures
        ({
            let script = crate::codec::string_taken(bytes);
            let os = crate::codec::bool_taken(script->Ok_0.1);
            let method = crate::codec::bool_taken(os->Ok_0.1);
            let function = crate::codec::string_taken(method->Ok_0.1);
            let fields = saved_call_taken(bytes);
            if script is Err {
                fields is Err && fields->Err_0 == script->Err_0
            } else if os is Err {
                fields is Err && fields->Err_0 == os->Err_0
            } else if method is Err {
                fields is Err && fields->Err_0 == method->Err_0
            } else if function is Err {
                fields is Err && fields->Err_0 == function->Err_0
            } else {
                &&& fields is Ok
                &&& fields->Ok_0.0.script_name == script->Ok_0.0
                &&& fields->Ok_0.0.is_os_function == os->Ok_0.0
                &&& fields->Ok_0.0.is_method_call == method->Ok_0.0
                &&& fields->Ok_0.0.function_name == function->Ok_0.0
                &&& fields->Ok_0.1 == function->Ok_0.1
            }
        }),
{
}

} // verus!
