//! What is saved comes back.
//!
//! Each law goes from the bytes that `dump` gives to what `load` gives, where
//! the interpreter decodes its own parts as it encoded them: it reads as many
//! bytes as it wrote and finds the same value in them.
use std::sync::Arc;
use vstd::prelude::*;

use crate::external::ResultDict;
use crate::future::{PyMontyFutureSnapshot, Results};
use crate::host::{ErrorView, Host, PyError};
use crate::monty::{ProgramFields, PyMonty};
use crate::object::MontyObject;
use crate::repl::PyMontyRepl;
use crate::run::OsCandidate;
use crate::snapshot::{PyMontySnapshot, SavedCall, SavedCallView};

verus! {

/// A program that is saved and loaded has the same code, the same name and the
/// same names of inputs and external functions, so that it is printed alike,
/// refuses inputs alike and is run alike. Its registry is the one it is loaded
/// with.
pub proof fn program_comes_back<H: Host>(
    saved: PyMonty<H>,
    runner: Vec<u8>,
    bytes: Seq<u8>,
    dc_registry: Arc<H::Registry>,
    result: Result<PyMonty<H>, PyError<H>>,
    given: bool,
    input_values: Vec<MontyObject<H>>,
    limits: Option<Result<H::Limits, H::Error>>,
    external_functions: bool,
    print_callback: Option<Arc<H::Callback>>,
    os: Option<OsCandidate<H>>,
)
    requires
        crate::codec::fits(saved.script_name@),
        crate::codec::all_fit(crate::text::texts(saved.input_names@)),
        crate::codec::all_fit(crate::text::texts(saved.external_function_names@)),
        saved.dumped(Ok(runner)) == Ok::<Seq<u8>, ErrorView<H>>(bytes),
        PyMonty::is_loaded(
            Ok((saved.runner, bytes.skip(runner@.len() as int))),
            Ok(dc_registry),
            result,
        ),
    ensures
        bytes.take(runner@.len() as int) == runner@,
        result matches Ok(loaded) && {
            &&& loaded.runner == saved.runner
            &&& loaded.script_name@ == saved.script_name@
            &&& crate::text::texts(loaded.input_names@) == crate::text::texts(saved.input_names@)
            &&& crate::text::texts(loaded.external_function_names@) == crate::text::texts(
                saved.external_function_names@,
            )
            &&& loaded.dc_registry == dc_registry
            &&& loaded.spec_repr() == saved.spec_repr()
            &&& crate::inputs::inputs_error::<H>(loaded.input_names@, given)
                == crate::inputs::inputs_error::<H>(saved.input_names@, given)
            &&& loaded.readied_run(input_values, limits, external_functions, print_callback, os)
                == saved.readied_run(
                input_values,
                limits,
                external_functions,
                print_callback,
                os,
            )
        },
{
    let fields = ProgramFields {
        script_name: saved.script_name@,
        input_names: crate::text::texts(saved.input_names@),
        external_function_names: crate::text::texts(saved.external_function_names@),
    };
    crate::monty::saved_program_back(runner@, fields);
    let loaded = result->Ok_0;
    assert(crate::text::texts(loaded.input_names@).len() == loaded.input_names@.len());
    assert(crate::text::texts(saved.input_names@).len() == saved.input_names@.len());
    assert(crate::text::texts(loaded.external_function_names@).len()
        == loaded.external_function_names@.len());
    assert(crate::text::texts(saved.external_function_names@).len()
        == saved.external_function_names@.len());
}

/// The plain fields of a call as they are saved.
pub open spec fn saved_fields<H: Host>(saved: PyMontySnapshot<H>) -> SavedCallView {
    SavedCallView {
        script_name: saved.script_name@,
        is_os_function: saved.is_os_function,
        is_method_call: saved.is_method_call,
        function_name: saved.function_name@,
    }
}

/// The bytes of a call hold its parts in turn.
proof fn call_parts_come_back<H: Host>(
    saved: PyMontySnapshot<H>,
    state: Seq<u8>,
    args: Seq<u8>,
    kwargs: Seq<u8>,
    call: SavedCall,
)
    requires
        crate::codec::fits(saved.script_name@),
        crate::codec::fits(saved.function_name@),
        call@ == saved_fields(saved),
    ensures
        ({
            let bytes = saved.spec_bytes(state, args, kwargs);
            let variant = crate::save::variant_taken(bytes);
            let fields = crate::snapshot::saved_call_taken(
                variant->Ok_0.1.skip(state.len() as int),
            );
            let id = crate::codec::take_varint32(
                fields->Ok_0.1.skip(args.len() as int).skip(kwargs.len() as int),
            );
            &&& variant is Ok && variant->Ok_0.0 == saved.snapshot.spec_variant()
            &&& variant->Ok_0.1.take(state.len() as int) == state
            &&& fields is Ok && fields->Ok_0.0 == call@
            &&& fields->Ok_0.1.take(args.len() as int) == args
            &&& fields->Ok_0.1.skip(args.len() as int).take(kwargs.len() as int) == kwargs
            &&& id is Ok && id->Ok_0.0 == saved.call_id
        }),
{
    crate::snapshot::saved_call_back(
        saved.snapshot.spec_variant(),
        state,
        call@,
        args,
        kwargs,
        saved.call_id,
    );
    let fields = crate::snapshot::saved_call_bytes(
        saved.script_name@,
        saved.is_os_function,
        saved.is_method_call,
        saved.function_name@,
    );
    let id = crate::codec::varint(saved.call_id as nat);
    let arguments = args + (kwargs + id);
    crate::codec::lemma_split(state, fields + arguments);
    crate::codec::lemma_split(args, kwargs + id);
    crate::codec::lemma_split(kwargs, id);
}

/// A call that is saved and loaded is the same call: the stages of loading read
/// the same variant, plain fields and identifier, and the snapshot that they
/// are put together to equals the saved one in its state and in all of its
/// fields. It takes every answer alike. It prints to the callback it is loaded
/// with, and has the registry it is loaded with.
pub proof fn call_comes_back<H: Host>(
    saved: PyMontySnapshot<H>,
    state: Seq<u8>,
    args: Seq<u8>,
    kwargs: Seq<u8>,
    call: SavedCall,
    dc_registry: Arc<H::Registry>,
    print_callback: Option<Arc<H::Callback>>,
    answer: Option<ResultDict<H>>,
)
    requires
        crate::codec::fits(saved.script_name@),
        crate::codec::fits(saved.function_name@),
        call@ == saved_fields(saved),
    ensures
        ({
            let bytes = saved.spec_bytes(state, args, kwargs);
            let variant = crate::save::variant_taken(bytes);
            let fields = crate::snapshot::saved_call_taken(
                variant->Ok_0.1.skip(state.len() as int),
            );
            let id = crate::codec::take_varint32(
                fields->Ok_0.1.skip(args.len() as int).skip(kwargs.len() as int),
            );
            &&& variant is Ok && variant->Ok_0.0 == saved.snapshot.spec_variant()
            &&& variant->Ok_0.1.take(state.len() as int) == state
            &&& fields is Ok && fields->Ok_0.0 == call@
            &&& fields->Ok_0.1.take(args.len() as int) == args
            &&& fields->Ok_0.1.skip(args.len() as int).take(kwargs.len() as int) == kwargs
            &&& id is Ok && id->Ok_0.0 == saved.call_id
        }),
        PyMontySnapshot::restored(
            saved.snapshot,
            call,
            saved.call_id,
            Ok(dc_registry),
            Ok(saved.args),
            Ok(saved.kwargs),
            print_callback,
        ) matches Ok(loaded) && {
            &&& loaded.snapshot == saved.snapshot
            &&& loaded.script_name@ == saved.script_name@
            &&& loaded.is_os_function == saved.is_os_function
            &&& loaded.is_method_call == saved.is_method_call
            &&& loaded.function_name@ == saved.function_name@
            &&& loaded.args == saved.args
            &&& loaded.kwargs == saved.kwargs
            &&& loaded.call_id == saved.call_id
            &&& loaded.print_callback == print_callback
            &&& loaded.dc_registry == dc_registry
            &&& crate::slot::runs_alike(loaded.resumed(answer).0, saved.resumed(answer).0)
        },
{
    call_parts_come_back(saved, state, args, kwargs, call);
}

/// The bytes that saving a call gives hold its parts in turn: the stages of
/// loading find in them the variant, the state, the plain fields, the positional
/// arguments, the keyword arguments and the identifier that were saved.
pub proof fn saved_call_holds_its_parts<H: Host>(
    saved: PyMontySnapshot<H>,
    state: Vec<u8>,
    args: Vec<u8>,
    kwargs: Vec<u8>,
    bytes: Seq<u8>,
    call: SavedCall,
)
    requires
        crate::codec::fits(saved.script_name@),
        crate::codec::fits(saved.function_name@),
        call@ == saved_fields(saved),
        saved.dumped(Ok(Ok(args)), Ok(Ok(kwargs)), Ok(state)) == Ok::<Seq<u8>, ErrorView<H>>(bytes),
    ensures
        ({
            let variant = crate::save::variant_taken(bytes);
            let fields = crate::snapshot::saved_call_taken(
                variant->Ok_0.1.skip(state@.len() as int),
            );
            let id = crate::codec::take_varint32(
                fields->Ok_0.1.skip(args@.len() as int).skip(kwargs@.len() as int),
            );
            &&& variant is Ok && variant->Ok_0.0 == saved.snapshot.spec_variant()
            &&& variant->Ok_0.1.take(state@.len() as int) == state@
            &&& fields is Ok && fields->Ok_0.0.script_name == saved.script_name@
            &&& fields->Ok_0.0.is_os_function == saved.is_os_function
            &&& fields->Ok_0.0.is_method_call == saved.is_method_call
            &&& fields->Ok_0.0.function_name == saved.function_name@
            &&& fields->Ok_0.1.take(args@.len() as int) == args@
            &&& fields->Ok_0.1.skip(args@.len() as int).take(kwargs@.len() as int) == kwargs@
            &&& id is Ok && id->Ok_0.0 == saved.call_id
        }),
{
    call_parts_come_back(saved, state@, args@, kwargs@, call);
}

/// Code on futures that is saved and loaded waits in the same state for the
/// same calls, under the same name, and takes all results alike. It prints to
/// the callback it is loaded with, and has the registry it is loaded with.
pub proof fn futures_come_back<H: Host>(
    saved: PyMontyFutureSnapshot<H>,
    state: Vec<u8>,
    bytes: Seq<u8>,
    print_callback: Option<Arc<H::Callback>>,
    dc_registry: Arc<H::Registry>,
    result: Result<PyMontyFutureSnapshot<H>, PyError<H>>,
    results: Results<H>,
)
    requires
        crate::codec::fits(saved.script_name@),
        saved.dumped(Ok(state)) == Ok::<Seq<u8>, ErrorView<H>>(bytes),
        PyMontyFutureSnapshot::is_loaded(
            Ok(
                (
                    saved.snapshot,
                    crate::save::variant_taken(bytes)->Ok_0.1.skip(state@.len() as int),
                ),
            ),
            print_callback,
            Ok(dc_registry),
            result,
        ),
    ensures
        crate::save::variant_taken(bytes) matches Ok((variant, behind)) && variant
            == saved.snapshot.spec_variant() && behind.take(state@.len() as int) == state@,
        result matches Ok(loaded) && {
            &&& loaded.snapshot == saved.snapshot
            &&& crate::future::pending_ids(loaded.snapshot) == crate::future::pending_ids(
                saved.snapshot,
            )
            &&& loaded.script_name@ == saved.script_name@
            &&& loaded.print_callback == print_callback
            &&& loaded.dc_registry == dc_registry
            &&& crate::slot::runs_alike(loaded.resumed(results).0, saved.resumed(results).0)
        },
{
    crate::save::saved_session_back(saved.snapshot.spec_variant(), state@, saved.script_name@);
    let name = crate::codec::string_bytes(saved.script_name@);
    assert((state@ + name).take(state@.len() as int) =~= state@);
    assert((state@ + name).skip(state@.len() as int) =~= name);
}

/// A session that is saved and loaded is in the same state under the same
/// tracker, or away if it was away, and has the same name. It prints to the
/// callback it is loaded with, and has the registry it is loaded with.
pub proof fn session_comes_back<H: Host>(
    saved: PyMontyRepl<H>,
    state: Vec<u8>,
    bytes: Seq<u8>,
    print_callback: Option<Arc<H::Callback>>,
    dc_registry: Arc<H::Registry>,
    result: Result<PyMontyRepl<H>, PyError<H>>,
    snippet_callback: Option<Arc<H::Callback>>,
)
    requires
        crate::codec::fits(saved.script_name@),
        saved.repl is Done ==> state@.len() == 0,
        saved.dumped(Ok(state)) == Ok::<Seq<u8>, ErrorView<H>>(bytes),
        PyMontyRepl::is_loaded(
            Ok(
                (
                    saved.repl,
                    crate::save::variant_taken(bytes)->Ok_0.1.skip(state@.len() as int),
                ),
            ),
            print_callback,
            Ok(dc_registry),
            result,
        ),
    ensures
        crate::save::variant_taken(bytes) matches Ok((variant, behind)) && variant
            == saved.repl.spec_variant() && behind.take(state@.len() as int) == state@,
        result matches Ok(loaded) && {
            &&& loaded.repl == saved.repl
            &&& loaded.script_name@ == saved.script_name@
            &&& loaded.print_callback == print_callback
            &&& loaded.dc_registry == dc_registry
            &&& loaded.spec_callback(snippet_callback) == match snippet_callback {
                Some(callback) => Some(callback),
                None => print_callback,
            }
        },
{
    assert(saved.repl is Done ==> state@ =~= seq![]);
    crate::save::saved_session_back(saved.repl.spec_variant(), state@, saved.script_name@);
    let name = crate::codec::string_bytes(saved.script_name@);
    assert((state@ + name).take(state@.len() as int) =~= state@);
    assert((state@ + name).skip(state@.len() as int) =~= name);
}

} // verus!
