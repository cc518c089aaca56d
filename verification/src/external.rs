//! What the embedder answers to a call of the interpreter.
use vstd::prelude::*;

use crate::host::{ErrorView, Host, PyError};
use crate::object::MontyObject;

verus! {

/// The answer to a call.
pub enum ExternalResult<H: Host> {
    /// The call returned a value.
    Return(MontyObject<H>),
    /// The call raised.
    Error(H::Exception),
    /// The call will be answered later.
    Future,
}

/// What is read of the dictionary that holds an answer: how many entries it
/// has, and what stands under each of the three keys, as it is for the
/// interpreter. Looking a key up can itself raise.
pub struct ResultDict<H: Host> {
    pub len: usize,
    /// The returned value as an object, unless converting it raised.
    pub return_value: Result<Option<Result<MontyObject<H>, H::Error>>, H::Error>,
    /// The exception.
    pub exception: Result<Option<H::Exception>, H::Error>,
    /// Whether the value under `future` is the ellipsis.
    pub future: Result<Option<bool>, H::Error>,
}

/// The answer that a dictionary holds: its one entry, which stands under one
/// of the three keys. Any other dictionary is refused with `error_msg`. The
/// keys are looked up in order, and the first look-up that raises decides.
pub open spec fn extracted<H: Host>(dict: ResultDict<H>, error_msg: Seq<char>) -> Result<
    ExternalResult<H>,
    ErrorView<H>,
> {
    if dict.len != 1 {
        Err(ErrorView::TypeError(error_msg))
    } else {
        match (dict.return_value, dict.exception, dict.future) {
            (Err(error), _, _) => Err(ErrorView::Raised(error)),
            (Ok(Some(Ok(object))), _, _) => Ok(ExternalResult::Return(object)),
            (Ok(Some(Err(error))), _, _) => Err(ErrorView::Raised(error)),
            (Ok(None), Err(error), _) => Err(ErrorView::Raised(error)),
            (Ok(None), Ok(Some(exception)), _) => Ok(ExternalResult::Error(exception)),
            (Ok(None), Ok(None), Err(error)) => Err(ErrorView::Raised(error)),
            (Ok(None), Ok(None), Ok(Some(true))) => Ok(ExternalResult::Future),
            (Ok(None), Ok(None), Ok(Some(false))) => Err(
                ErrorView::TypeError("Value for the 'future' key must be Ellipsis (...)"@),
            ),
            (Ok(None), Ok(None), Ok(None)) => Err(ErrorView::TypeError(error_msg)),
        }
    }
}

/// Extracts the answer to a call.
///
/// `TypeError` with `error_msg` unless `dict` holds exactly one of the three
/// keys and nothing else, and `TypeError` if the value under `future` is not
/// the ellipsis; an exception that looking a key up or converting the returned
/// value raised is passed on.
pub fn extract_external_result<H: Host>(dict: ResultDict<H>, error_msg: &str) -> (result: Result<
    ExternalResult<H>,
    PyError<H>,
>)
    ensures
        crate::host::outcome(result) == extracted(dict, error_msg@),
{
    if dict.len != 1 {
        return Err(PyError::TypeError(error_msg.to_owned()));
    }
    match dict.return_value {
        Err(error) => return Err(PyError::Raised(error)),
        Ok(Some(Ok(object))) => return Ok(ExternalResult::Return(object)),
        Ok(Some(Err(error))) => return Err(PyError::Raised(error)),
        Ok(None) => {},
    }
    match dict.exception {
        Err(error) => return Err(PyError::Raised(error)),
        Ok(Some(exception)) => return Ok(ExternalResult::Error(exception)),
        Ok(None) => {},
    }
    match dict.future {
        Err(error) => Err(PyError::Raised(error)),
        Ok(Some(is_ellipsis)) => if is_ellipsis {
            Ok(ExternalResult::Future)
        } else {
            Err(PyError::TypeError("Value for the 'future' key must be Ellipsis (...)".to_owned()))
        },
        Ok(None) => Err(PyError::TypeError(error_msg.to_owned())),
    }
}

/// An answer is exactly one entry under one of the three keys: a dictionary
/// whose keys can be looked up and whose values are right is accepted if and
/// only if it is that, and is refused with `error_msg` otherwise.
pub proof fn exactly_one_answer<H: Host>(dict: ResultDict<H>, error_msg: Seq<char>)
    requires
        dict.return_value matches Ok(value) && (value matches Some(object) ==> object is Ok),
        dict.exception is Ok,
        dict.future matches Ok(value) && (value matches Some(is_ellipsis) ==> is_ellipsis),
    ensures
        extracted(dict, error_msg) is Ok <==> dict.len == 1 && (dict.return_value->Ok_0 is Some
            || dict.exception->Ok_0 is Some || dict.future->Ok_0 is Some),
        extracted(dict, error_msg) is Err ==> extracted(dict, error_msg) == Err::<
            ExternalResult<H>,
            ErrorView<H>,
        >(ErrorView::TypeError(error_msg)),
{
}

/// The one entry is the answer, as it stands there: a return value is returned,
/// an exception is raised, and the ellipsis under `future` puts the answer off.
/// What the other keys hold does not matter where an earlier key is there.
pub proof fn the_entry_is_the_answer<H: Host>(
    value: MontyObject<H>,
    raised: H::Exception,
    exception: Result<Option<H::Exception>, H::Error>,
    future: Result<Option<bool>, H::Error>,
    error_msg: Seq<char>,
)
    ensures
        extracted::<H>(
            ResultDict::<H> { len: 1, return_value: Ok(Some(Ok(value))), exception, future },
            error_msg,
        ) == Ok::<ExternalResult<H>, ErrorView<H>>(ExternalResult::Return(value)),
        extracted::<H>(
            ResultDict::<H> { len: 1, return_value: Ok(None), exception: Ok(Some(raised)), future },
            error_msg,
        ) == Ok::<ExternalResult<H>, ErrorView<H>>(ExternalResult::Error(raised)),
        extracted::<H>(
            ResultDict::<H> {
                len: 1,
                return_value: Ok(None),
                exception: Ok(None),
                future: Ok(Some(true)),
            },
            error_msg,
        ) == Ok::<ExternalResult<H>, ErrorView<H>>(ExternalResult::Future),
{
}

/// What is wrong with an answer is reported as what it is: with `error_msg` if
/// there is not exactly one entry or none of the three keys, with a message of
/// its own if the value under `future` is not the ellipsis, and with what Python
/// raised if a look-up or the conversion of the return value raised.
pub proof fn wrong_answers_are_refused<H: Host>(
    dict: ResultDict<H>,
    error: H::Error,
    exception: Result<Option<H::Exception>, H::Error>,
    future: Result<Option<bool>, H::Error>,
    error_msg: Seq<char>,
)
    ensures
        dict.len != 1 ==> extracted(dict, error_msg) == Err::<ExternalResult<H>, ErrorView<H>>(
            ErrorView::TypeError(error_msg),
        ),
        extracted::<H>(
            ResultDict::<H> {
                len: 1,
                return_value: Ok(None),
                exception: Ok(None),
                future: Ok(None),
            },
            error_msg,
        ) == Err::<ExternalResult<H>, ErrorView<H>>(ErrorView::TypeError(error_msg)),
        extracted::<H>(
            ResultDict::<H> {
                len: 1,
                return_value: Ok(None),
                exception: Ok(None),
                future: Ok(Some(false)),
            },
            error_msg,
        ) == Err::<ExternalResult<H>, ErrorView<H>>(
            ErrorView::TypeError("Value for the 'future' key must be Ellipsis (...)"@),
        ),
        extracted::<H>(
            ResultDict::<H> { len: 1, return_value: Err(error), exception, future },
            error_msg,
        ) == Err::<ExternalResult<H>, ErrorView<H>>(ErrorView::Raised(error)),
        extracted::<H>(
            ResultDict::<H> { len: 1, return_value: Ok(Some(Err(error))), exception, future },
            error_msg,
        ) == Err::<ExternalResult<H>, ErrorView<H>>(ErrorView::Raised(error)),
        extracted::<H>(
            ResultDict::<H> { len: 1, return_value: Ok(None), exception: Err(error), future },
            error_msg,
        ) == Err::<ExternalResult<H>, ErrorView<H>>(ErrorView::Raised(error)),
        extracted::<H>(
            ResultDict::<H> {
                len: 1,
                return_value: Ok(None),
                exception: Ok(None),
                future: Err(error),
            },
            error_msg,
        ) == Err::<ExternalResult<H>, ErrorView<H>>(ErrorView::Raised(error)),
{
}

} // verus!
