//! The binary form of saved sessions.
//!
//! Sessions are saved with the `postcard` crate, whose wire format is stated
//! here: integers as little-endian base-128 varints, booleans as one byte,
//! strings as the varint of their length in bytes followed by their UTF-8
//! bytes, sequences as the varint of their length followed by their elements.
//! Records are the concatenation of their fields.
use vstd::prelude::*;
use vstd::utf8::*;

verus! {

/// Why bytes cannot be decoded.
pub enum Fault {
    UnexpectedEnd,
    BadVarint,
    BadBool,
    BadUtf8,
    UnknownVariant,
}

/// The message that reports a fault.
pub open spec fn fault_text(fault: Fault) -> Seq<char> {
    match fault {
        Fault::UnexpectedEnd => "Hit the end of buffer, expected more data"@,
        Fault::BadVarint =>
            "Found a varint that didn't terminate. Is the usize too big for this platform?"@,
        Fault::BadBool => "Found a bool that wasn't 0 or 1"@,
        Fault::BadUtf8 => "Tried to parse invalid utf-8"@,
        Fault::UnknownVariant => "Serde Deserialization Error"@,
    }
}

/// What decoding bytes gives: a value and the bytes behind it, or a fault.
pub type Taken<T> = Result<(T, Seq<u8>), Fault>;

/// The varint of `n`: seven bits to a byte, lowest first, the high bit set on
/// every byte but the last.
pub open spec fn varint(n: nat) -> Seq<u8>
    decreases n,
{
    if n < 128 {
        seq![n as u8]
    } else {
        seq![(128 + n % 128) as u8] + varint(n / 128)
    }
}

/// Decodes a varint of at most `left` bytes whose last possible byte is at most `top`.
pub open spec fn take_varint(bytes: Seq<u8>, left: nat, top: nat) -> Taken<nat>
    decreases left,
{
    if left == 0 {
        Err(Fault::BadVarint)
    } else if bytes.len() == 0 {
        Err(Fault::UnexpectedEnd)
    } else if bytes[0] < 128 {
        if left == 1 && bytes[0] > top {
            Err(Fault::BadVarint)
        } else {
            Ok((bytes[0] as nat, bytes.skip(1)))
        }
    } else {
        match take_varint(bytes.skip(1), (left - 1) as nat, top) {
            Ok((high, rest)) => Ok(((bytes[0] - 128 + 128 * high) as nat, rest)),
            Err(fault) => Err(fault),
        }
    }
}

/// Decodes a varint of 32 bits.
pub open spec fn take_varint32(bytes: Seq<u8>) -> Taken<nat> {
    take_varint(bytes, 5, 15)
}

/// Decodes a length, a varint of the machine's word size.
pub open spec fn take_length(bytes: Seq<u8>) -> Taken<nat> {
    if usize::BITS == 64 {
        take_varint(bytes, 10, 1)
    } else {
        take_varint(bytes, 5, 15)
    }
}

/// The encoding of a boolean.
pub open spec fn bool_bytes(b: bool) -> Seq<u8> {
    if b {
        seq![1u8]
    } else {
        seq![0u8]
    }
}

/// Decodes a boolean.
pub open spec fn bool_taken(bytes: Seq<u8>) -> Taken<bool> {
    if bytes.len() == 0 {
        Err(Fault::UnexpectedEnd)
    } else if bytes[0] > 1 {
        Err(Fault::BadBool)
    } else {
        Ok((bytes[0] == 1, bytes.skip(1)))
    }
}

/// The encoding of a string.
pub open spec fn string_bytes(s: Seq<char>) -> Seq<u8> {
    varint(encode_utf8(s).len()) + encode_utf8(s)
}

/// Decodes a string.
pub open spec fn string_taken(bytes: Seq<u8>) -> Taken<Seq<char>> {
    match take_length(bytes) {
        Ok((n, rest)) => if rest.len() < n {
            Err(Fault::UnexpectedEnd)
        } else if !valid_utf8(rest.take(n as int)) {
            Err(Fault::BadUtf8)
        } else {
            Ok((decode_utf8(rest.take(n as int)), rest.skip(n as int)))
        },
        Err(fault) => Err(fault),
    }
}

/// The encodings of `strings`, one after the other.
pub open spec fn each_string_bytes(strings: Seq<Seq<char>>) -> Seq<u8>
    decreases strings.len(),
{
    if strings.len() == 0 {
        seq![]
    } else {
        string_bytes(strings[0]) + each_string_bytes(strings.skip(1))
    }
}

/// Decodes `n` strings, one after the other.
pub open spec fn each_string_taken(bytes: Seq<u8>, n: nat) -> Taken<Seq<Seq<char>>>
    decreases n,
{
    if n == 0 {
        Ok((seq![], bytes))
    } else {
        match string_taken(bytes) {
            Ok((first, rest)) => match each_string_taken(rest, (n - 1) as nat) {
                Ok((others, rest)) => Ok((seq![first] + others, rest)),
                Err(fault) => Err(fault),
            },
            Err(fault) => Err(fault),
        }
    }
}

/// The encoding of a list of strings.
pub open spec fn strings_bytes(strings: Seq<Seq<char>>) -> Seq<u8> {
    varint(strings.len()) + each_string_bytes(strings)
}

/// Decodes a list of strings.
pub open spec fn strings_taken(bytes: Seq<u8>) -> Taken<Seq<Seq<char>>> {
    match take_length(bytes) {
        Ok((n, rest)) => each_string_taken(rest, n),
        Err(fault) => Err(fault),
    }
}

/// Whether a string is short enough for this machine's lengths.
pub open spec fn fits(s: Seq<char>) -> bool {
    encode_utf8(s).len() <= usize::MAX
}

/// Whether a list of strings is short enough for this machine's lengths.
pub open spec fn all_fit(strings: Seq<Seq<char>>) -> bool {
    &&& strings.len() <= usize::MAX
    &&& forall|i: int| 0 <= i < strings.len() ==> fits(#[trigger] strings[i])
}

/// Appending bytes is associative.
pub(crate) proof fn lemma_append_assoc(a: Seq<u8>, b: Seq<u8>, c: Seq<u8>)
    ensures
        a + b + c == a + (b + c),
{
    assert(a + b + c =~= a + (b + c));
}

/// What is appended can be told from what it is appended to.
pub(crate) proof fn lemma_split(a: Seq<u8>, b: Seq<u8>)
    ensures
        (a + b).take(a.len() as int) == a,
        (a + b).skip(a.len() as int) == b,
{
    assert((a + b).take(a.len() as int) =~= a);
    assert((a + b).skip(a.len() as int) =~= b);
}

/// The number of values that varints of at most `left` bytes reach.
spec fn capacity(left: nat, top: nat) -> nat
    decreases left,
{
    if left <= 1 {
        top + 1
    } else {
        128 * capacity((left - 1) as nat, top)
    }
}

/// Decoding a varint gives back the number that was encoded and what follows it.
proof fn lemma_varint_back(n: nat, rest: Seq<u8>, left: nat, top: nat)
    requires
        left > 0,
        top < 128,
        n < capacity(left, top),
    ensures
        take_varint(varint(n) + rest, left, top) == Ok::<(nat, Seq<u8>), Fault>((n, rest)),
    decreases left,
{
    let bytes = varint(n) + rest;
    if n < 128 {
        assert(bytes.skip(1) =~= rest);
        assert(bytes[0] == n);
    } else {
        assert(left > 1);
        lemma_varint_back(n / 128, rest, (left - 1) as nat, top);
        assert(bytes[0] == 128 + n % 128);
        assert(bytes.skip(1) =~= varint(n / 128) + rest);
    }
}

proof fn lemma_capacities()
    ensures
        capacity(5, 15) == 0x1_0000_0000,
        capacity(10, 1) == 0x1_0000_0000_0000_0000,
{
    reveal_with_fuel(capacity, 11);
}

/// Decoding a 32-bit number gives back what was encoded and what follows it.
pub proof fn varint32_back(n: u32, rest: Seq<u8>)
    ensures
        take_varint32(varint(n as nat) + rest) == Ok::<(nat, Seq<u8>), Fault>((n as nat, rest)),
{
    lemma_capacities();
    lemma_varint_back(n as nat, rest, 5, 15);
}

/// Decoding a length gives back what was encoded and what follows it.
pub proof fn length_back(n: nat, rest: Seq<u8>)
    requires
        n <= usize::MAX,
    ensures
        take_length(varint(n) + rest) == Ok::<(nat, Seq<u8>), Fault>((n, rest)),
{
    lemma_capacities();
    if usize::BITS == 64 {
        lemma_varint_back(n, rest, 10, 1);
    } else {
        lemma_varint_back(n, rest, 5, 15);
    }
}

/// Decoding a boolean gives back what was encoded and what follows it.
pub proof fn bool_back(b: bool, rest: Seq<u8>)
    ensures
        bool_taken(bool_bytes(b) + rest) == Ok::<(bool, Seq<u8>), Fault>((b, rest)),
{
    assert((bool_bytes(b) + rest).skip(1) =~= rest);
}

/// Decoding a string gives back what was encoded and what follows it.
pub proof fn string_back(s: Seq<char>, rest: Seq<u8>)
    requires
        fits(s),
    ensures
        string_taken(string_bytes(s) + rest) == Ok::<(Seq<char>, Seq<u8>), Fault>((s, rest)),
{
    let body = encode_utf8(s);
    assert(string_bytes(s) + rest =~= varint(body.len()) + (body + rest));
    length_back(body.len(), body + rest);
    assert((body + rest).take(body.len() as int) =~= body);
    assert((body + rest).skip(body.len() as int) =~= rest);
    encode_utf8_valid_utf8(s);
    encode_utf8_decode_utf8(s);
}

proof fn lemma_each_string_back(strings: Seq<Seq<char>>, rest: Seq<u8>)
    requires
        forall|i: int| 0 <= i < strings.len() ==> fits(#[trigger] strings[i]),
    ensures
        each_string_taken(each_string_bytes(strings) + rest, strings.len()) == Ok::<
            (Seq<Seq<char>>, Seq<u8>),
            Fault,
        >((strings, rest)),
    decreases strings.len(),
{
    if strings.len() == 0 {
        assert(each_string_bytes(strings) + rest =~= rest);
        assert(strings =~= seq![]);
    } else {
        let others = strings.skip(1);
        assert(each_string_bytes(strings) + rest =~= string_bytes(strings[0]) + (each_string_bytes(
            others,
        ) + rest));
        assert(fits(strings[0]));
        string_back(strings[0], each_string_bytes(others) + rest);
        assert forall|i: int| 0 <= i < others.len() implies fits(#[trigger] others[i]) by {
            assert(fits(strings[i + 1]));
        }
        lemma_each_string_back(others, rest);
        assert(seq![strings[0]] + others =~= strings);
    }
}

/// Decoding a list of strings gives back what was encoded and what follows it.
pub proof fn strings_back(strings: Seq<Seq<char>>, rest: Seq<u8>)
    requires
        all_fit(strings),
    ensures
        strings_taken(strings_bytes(strings) + rest) == Ok::<
            (Seq<Seq<char>>, Seq<u8>),
            Fault,
        >((strings, rest)),
{
    let body = each_string_bytes(strings);
    assert(strings_bytes(strings) + rest =~= varint(strings.len()) + (body + rest));
    length_back(strings.len(), body + rest);
    lemma_each_string_back(strings, rest);
}

/// `postcard::to_allocvec` of a `u32`: writes its varint. Writing to a growing
/// vector does not fail.
#[verifier::external_body]
pub(crate) fn encode_u32(n: u32) -> (encoded: Result<Vec<u8>, String>)
    ensures
        encoded is Ok,
        encoded->Ok_0@ == varint(n as nat),
{
    postcard::to_allocvec(&n).map_err(|e| e.to_string())
}

/// `postcard::to_allocvec` of a `bool`: writes one byte. Writing to a growing
/// vector does not fail.
#[verifier::external_body]
pub(crate) fn encode_bool(b: bool) -> (encoded: Result<Vec<u8>, String>)
    ensures
        encoded is Ok,
        encoded->Ok_0@ == bool_bytes(b),
{
    postcard::to_allocvec(&b).map_err(|e| e.to_string())
}

/// `postcard::to_allocvec` of a string: writes the varint of its length in bytes
/// and its UTF-8 bytes. Writing to a growing vector does not fail.
#[verifier::external_body]
pub(crate) fn encode_string(s: &str) -> (encoded: Result<Vec<u8>, String>)
    ensures
        encoded is Ok,
        encoded->Ok_0@ == string_bytes(s@),
{
    postcard::to_allocvec(s).map_err(|e| e.to_string())
}

/// `postcard::to_allocvec` of a vector of strings: writes the varint of its
/// length and each string in turn. Writing to a growing vector does not fail.
#[verifier::external_body]
pub(crate) fn encode_strings(strings: &Vec<String>) -> (encoded: Result<Vec<u8>, String>)
    ensures
        encoded is Ok,
        encoded->Ok_0@ == strings_bytes(crate::text::texts(strings@)),
{
    postcard::to_allocvec(strings).map_err(|e| e.to_string())
}

/// `postcard::take_from_bytes` of a `u32`: reads a varint of at most five bytes
/// and returns the bytes behind it, or the message of postcard's error.
#[verifier::external_body]
pub(crate) fn decode_u32(data: &[u8]) -> (decoded: Result<(u32, &[u8]), String>)
    ensures
        match decoded {
            Ok((n, rest)) => take_varint32(data@) == Ok::<(nat, Seq<u8>), Fault>((n as nat, rest@)),
            Err(message) => take_varint32(data@) matches Err(fault) && message@ == fault_text(fault),
        },
{
    postcard::take_from_bytes::<u32>(data).map_err(|e| e.to_string())
}

/// `postcard::take_from_bytes` of a `bool`: reads one byte, which is 0 or 1, and
/// returns the bytes behind it, or the message of postcard's error.
#[verifier::external_body]
pub(crate) fn decode_bool(data: &[u8]) -> (decoded: Result<(bool, &[u8]), String>)
    ensures
        match decoded {
            Ok((b, rest)) => bool_taken(data@) == Ok::<(bool, Seq<u8>), Fault>((b, rest@)),
            Err(message) => bool_taken(data@) matches Err(fault) && message@ == fault_text(fault),
        },
{
    postcard::take_from_bytes::<bool>(data).map_err(|e| e.to_string())
}

/// `postcard::take_from_bytes` of a `String`: reads a length and as many bytes,
/// which must be UTF-8, and returns the bytes behind them, or the message of
/// postcard's error.
#[verifier::external_body]
pub(crate) fn decode_string(data: &[u8]) -> (decoded: Result<(String, &[u8]), String>)
    ensures
        match decoded {
            Ok((s, rest)) => string_taken(data@) == Ok::<(Seq<char>, Seq<u8>), Fault>((s@, rest@)),
            Err(message) => string_taken(data@) matches Err(fault) && message@ == fault_text(fault),
        },
{
    postcard::take_from_bytes::<String>(data).map_err(|e| e.to_string())
}

/// `postcard::take_from_bytes` of a `Vec<String>`: reads a length and as many
/// strings, and returns the bytes behind them, or the message of postcard's
/// error.
#[verifier::external_body]
pub(crate) fn decode_strings(data: &[u8]) -> (decoded: Result<(Vec<String>, &[u8]), String>)
    ensures
        match decoded {
            Ok((strings, rest)) => strings_taken(data@) == Ok::<
                (Seq<Seq<char>>, Seq<u8>),
                Fault,
            >((crate::text::texts(strings@), rest@)),
            Err(message) => strings_taken(data@) matches Err(fault) && message@ == fault_text(
                fault,
            ),
        },
{
    postcard::take_from_bytes::<Vec<String>>(data).map_err(|e| e.to_string())
}

/// The display form of `postcard::Error::SerdeDeCustom`, the error with which
/// postcard reports an enum variant that does not exist.
#[verifier::external_body]
pub(crate) fn unknown_variant_message() -> (message: String)
    ensures
        message@ == fault_text(Fault::UnknownVariant),
{
    postcard::Error::SerdeDeCustom.to_string()
}

} // verus!
