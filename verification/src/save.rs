//! Saving: records that hold states of the interpreter among plain fields.
//!
//! The interpreter encodes its own states; their bytes go into the record as
//! they are, at the place of the field.
use vstd::prelude::*;

use crate::codec::{
    decode_string, decode_u32, encode_string, encode_u32, unknown_variant_message, Fault, Taken,
};
use crate::host::{ErrorView, Host, PyError};
use crate::slot::Variant;

verus! {

/// The bytes of a field, or the message of the error that encoding it raised.
pub type Encoded = Result<Vec<u8>, String>;

/// What was decoded at the start of bytes and the bytes behind it, or the
/// message of the error that decoding raised.
pub type Decoded<'a, T> = Result<(T, &'a [u8]), String>;

/// What was decoded, with the bytes behind it and the message as text.
pub open spec fn decoded_view<'a, T>(decoded: Decoded<'a, T>) -> Result<(T, Seq<u8>), Seq<char>> {
    match decoded {
        Ok((value, rest)) => Ok((value, rest@)),
        Err(message) => Err(message@),
    }
}

/// The encoding of a variant.
pub open spec fn variant_bytes(variant: Variant) -> Seq<u8> {
    crate::codec::varint(crate::slot::variant_index(variant))
}

/// Decodes a variant.
pub open spec fn variant_taken(bytes: Seq<u8>) -> Taken<Variant> {
    match crate::codec::take_varint32(bytes) {
        Ok((index, rest)) => if index == 0 {
            Ok((Variant::NoLimit, rest))
        } else if index == 1 {
            Ok((Variant::Limited, rest))
        } else if index == 2 {
            Ok((Variant::Done, rest))
        } else {
            Err(Fault::UnknownVariant)
        },
        Err(fault) => Err(fault),
    }
}

/// Decoding a variant gives back what was encoded and what follows it.
pub proof fn variant_back(variant: Variant, rest: Seq<u8>)
    ensures
        variant_taken(variant_bytes(variant) + rest) == Ok::<(Variant, Seq<u8>), Fault>(
            (variant, rest),
        ),
{
    crate::codec::varint32_back(crate::slot::variant_index(variant) as u32, rest);
}

/// The exception for bytes that cannot be decoded.
pub open spec fn fault_error<H: Host>(fault: Fault) -> ErrorView<H> {
    ErrorView::ValueError(crate::codec::fault_text(fault))
}

/// Encodes a variant.
pub fn encode_variant(variant: Variant) -> (encoded: Encoded)
    ensures
        encoded is Ok,
        encoded->Ok_0@ == variant_bytes(variant),
{
    encode_u32(
        match variant {
            Variant::NoLimit => 0,
            Variant::Limited => 1,
            Variant::Done => 2,
        },
    )
}

/// Reads which tracker a saved state ran under, and returns the bytes that
/// start with the state.
///
/// `ValueError` if the bytes do not start with a variant.
pub fn load_variant<H: Host>(data: &[u8]) -> (result: Result<(Variant, &[u8]), PyError<H>>)
    ensures
        match variant_taken(data@) {
            Ok((variant, rest)) => result matches Ok(loaded) && loaded.0 == variant && loaded.1@
                == rest,
            Err(fault) => crate::host::fails(result, fault_error(fault)),
        },
{
    match decode_u32(data) {
        Ok((index, rest)) => if index == 0 {
            Ok((Variant::NoLimit, rest))
        } else if index == 1 {
            Ok((Variant::Limited, rest))
        } else if index == 2 {
            Ok((Variant::Done, rest))
        } else {
            Err(PyError::ValueError(unknown_variant_message()))
        },
        Err(message) => Err(PyError::ValueError(message)),
    }
}

/// Appends a field to a record.
///
/// `ValueError` if the field could not be encoded; the record is then as before.
pub fn append_field<H: Host>(record: &mut Vec<u8>, field: Encoded) -> (result: Result<
    (),
    PyError<H>,
>)
    ensures
        match field {
            Ok(bytes) => result is Ok && final(record)@ == old(record)@ + bytes@,
            Err(message) => crate::host::fails(result, ErrorView::ValueError(message@))
                && final(record)@ == old(record)@,
        },
{
    match field {
        Ok(mut bytes) => {
            record.append(&mut bytes);
            Ok(())
        },
        Err(message) => Err(PyError::ValueError(message)),
    }
}

/// The bytes of a record of a state and the name of its script.
pub open spec fn session_bytes(
    variant: Variant,
    state: Seq<u8>,
    script_name: Seq<char>,
) -> Seq<u8> {
    variant_bytes(variant) + state + crate::codec::string_bytes(script_name)
}

/// Saves a state, given its encoding, with the name of its script.
///
/// `ValueError` if the state could not be encoded.
pub fn dump_session<H: Host>(variant: Variant, state: Encoded, script_name: &str) -> (result: Result<
    Vec<u8>,
    PyError<H>,
>)
    ensures
        match state {
            Ok(state) => result matches Ok(bytes) && bytes@ == session_bytes(
                variant,
                state@,
                script_name@,
            ),
            Err(message) => crate::host::fails(result, ErrorView::ValueError(message@)),
        },
{
    let mut bytes: Vec<u8> = Vec::new();
    append_field(&mut bytes, encode_variant(variant))?;
    assert(bytes@ =~= variant_bytes(variant));
    append_field(&mut bytes, state)?;
    append_field(&mut bytes, encode_string(script_name))?;
    Ok(bytes)
}

/// Reads the name of a script, which follows a saved state. Bytes behind it
/// are ignored.
///
/// `ValueError` if the bytes do not start with a string.
pub fn load_script_name<H: Host>(data: &[u8]) -> (result: Result<String, PyError<H>>)
    ensures
        match crate::codec::string_taken(data@) {
            Ok((script_name, _)) => result matches Ok(loaded) && loaded@ == script_name,
            Err(fault) => crate::host::fails(result, fault_error(fault)),
        },
{
    match decode_string(data) {
        Ok((script_name, _)) => Ok(script_name),
        Err(message) => Err(PyError::ValueError(message)),
    }
}

/// Loading what was saved gives back the session: reading the variant leaves
/// the bytes that start with the state, and behind the state stands the name
/// of the script.
pub proof fn saved_session_back(variant: Variant, state: Seq<u8>, script_name: Seq<char>)
    requires
        crate::codec::fits(script_name),
    ensures
        ({
            let name = crate::codec::string_bytes(script_name);
            &&& variant_taken(session_bytes(variant, state, script_name)) == Ok::<
                (Variant, Seq<u8>),
                Fault,
            >((variant, state + name))
            &&& crate::codec::string_taken(name) == Ok::<(Seq<char>, Seq<u8>), Fault>(
                (script_name, seq![]),
            )
        }),
{
    let name = crate::codec::string_bytes(script_name);
    crate::codec::lemma_append_assoc(variant_bytes(variant), state, name);
    variant_back(variant, state + name);
    assert(name + seq![] =~= name);
    crate::codec::string_back(script_name, seq![]);
}

/// What the interpreter decoded is read as it is, with the bytes behind it.
pub proof fn decoded_reads_as_it_is<'a, T>(value: T, rest: &'a [u8], message: String)
    ensures
        decoded_view(Ok((value, rest))) == Ok::<(T, Seq<u8>), Seq<char>>((value, rest@)),
        decoded_view::<T>(Err(message)) == Err::<(T, Seq<u8>), Seq<char>>(message@),
{
}

/// The variants are saved as one byte each, in their order. Any other number,
/// and bytes that start with no number, are refused.
pub proof fn variants_are_numbered(bytes: Seq<u8>, rest: Seq<u8>)
    ensures
        variant_bytes(Variant::NoLimit) == seq![0u8],
        variant_bytes(Variant::Limited) == seq![1u8],
        variant_bytes(Variant::Done) == seq![2u8],
        variant_taken(seq![0u8] + rest) == Ok::<(Variant, Seq<u8>), Fault>(
            (Variant::NoLimit, rest),
        ),
        variant_taken(seq![1u8] + rest) == Ok::<(Variant, Seq<u8>), Fault>(
            (Variant::Limited, rest),
        ),
        variant_taken(seq![2u8] + rest) == Ok::<(Variant, Seq<u8>), Fault>(
            (Variant::Done, rest),
        ),
        match crate::codec::take_varint32(bytes) {
            Ok((index, behind)) => if index > 2 {
                variant_taken(bytes) == Err::<(Variant, Seq<u8>), Fault>(Fault::UnknownVariant)
            } else {
                variant_taken(bytes) is Ok && variant_taken(bytes)->Ok_0.1 == behind
            },
            Err(fault) => variant_taken(bytes) == Err::<(Variant, Seq<u8>), Fault>(fault),
        },
{
    variant_back(Variant::NoLimit, rest);
    variant_back(Variant::Limited, rest);
    variant_back(Variant::Done, rest);
}

/// Bytes that cannot be decoded raise a `ValueError` that says why.
pub proof fn faults_are_value_errors<H: Host>(fault: Fault)
    ensures
        fault_error::<H>(fault) == ErrorView::<H>::ValueError(
            match fault {
                Fault::UnexpectedEnd => "Hit the end of buffer, expected more data"@,
                Fault::BadVarint =>
                    "Found a varint that didn't terminate. Is the usize too big for this platform?"@,
                Fault::BadBool => "Found a bool that wasn't 0 or 1"@,
                Fault::BadUtf8 => "Tried to parse invalid utf-8"@,
                Fault::UnknownVariant => "Serde Deserialization Error"@,
            },
        ),
{
}

} // verus!
