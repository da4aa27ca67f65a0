//! The operations that every type of object shares: registering an object
//! from its text encoding, reading the text encoding back, and releasing a
//! handle.

use crate::error::{result_failure, ErrorCode, ErrorKind, Failure, FailureView, LastError};
use crate::identifier::{required_text, required_text_spec, text_view};
use crate::object::{handle_not_found, handles_exhausted, AnyIndyObject};
use crate::registry::{resolve_spec, ObjectHandle, Registry, RegistryView};
use vstd::prelude::*;

verus! {

/// What reading the text encoding of an object of type `O` gives.
pub open spec fn object_text_spec<O: AnyIndyObject>(
    registry: RegistryView,
    handle: ObjectHandle,
) -> Result<Seq<char>, FailureView> {
    match resolve_spec::<O>(registry, handle) {
        Ok(object) => Ok(object.encoding_spec()),
        Err(failure) => Err(failure),
    }
}

/// How the outcome of decoding a text is taken into the registry. A text
/// that the decoder refuses gives an input failure with the decoder's
/// message, and nothing is registered. A decoded value is registered under a
/// fresh handle, unless the registry can issue none.
pub open spec fn decoded_registered<O: AnyIndyObject>(
    before: RegistryView,
    outcome: Result<O, String>,
    result: Result<ObjectHandle, Failure>,
    after: RegistryView,
) -> bool {
    match outcome {
        Err(message) => result == Err::<ObjectHandle, Failure>(
            Failure { kind: ErrorKind::Input, message },
        ) && after == before,
        Ok(value) => if before.exhausted() {
            result matches Err(failure) && failure@ == handles_exhausted() && after == before
        } else {
            result == Ok::<ObjectHandle, Failure>(before.next_handle()) && after == before.create(
                value.wrap_spec(),
            )
        },
    }
}

/// What registering an object from its text encoding does, whatever the
/// decoder returns: an absent text gives an input failure and the decoder is
/// not asked; a text is handed to the decoder as it stands, and the
/// decoder's outcome is taken into the registry.
pub open spec fn object_from_text_ensures<O: AnyIndyObject, D: FnOnce(&str) -> Result<O, String>>(
    decode: D,
    before: RegistryView,
    text: Option<Seq<char>>,
    result: Result<ObjectHandle, Failure>,
    after: RegistryView,
) -> bool {
    match required_text_spec(text) {
        Err(failure) => result_failure(result) == Some(failure) && after == before,
        Ok(given) => exists|source: &str, outcome: Result<O, String>|
            {
                &&& source@ == given
                &&& #[trigger] decode.ensures((source,), outcome)
                &&& decoded_registered(before, outcome, result, after)
            },
    }
}

/// Takes the outcome of decoding a text into the registry.
pub fn register_decoded<O: AnyIndyObject>(registry: &mut Registry, outcome: Result<O, String>) -> (result:
    Result<ObjectHandle, Failure>)
    requires
        old(registry).wf(),
    ensures
        final(registry).wf(),
        decoded_registered(old(registry)@, outcome, result, final(registry)@),
{
    match outcome {
        Err(message) => Err(Failure { kind: ErrorKind::Input, message }),
        Ok(value) => registry.create(value),
    }
}

/// Registers the object of type `O` that `text` encodes, as `decode` reads
/// it, and returns its handle.
pub fn object_from_text<O: AnyIndyObject, D: FnOnce(&str) -> Result<O, String>>(
    registry: &mut Registry,
    text: Option<&str>,
    decode: D,
) -> (result: Result<ObjectHandle, Failure>)
    requires
        old(registry).wf(),
        forall|source: &str| #[trigger] decode.requires((source,)),
    ensures
        final(registry).wf(),
        object_from_text_ensures(decode, old(registry)@, text_view(text), result, final(registry)@),
{
    let source = match required_text(text) {
        Ok(source) => source,
        Err(failure) => return Err(failure),
    };
    let outcome = decode(source);
    register_decoded(registry, outcome)
}

/// The text encoding of the object of type `O` that `handle` names.
pub fn object_to_text<O: AnyIndyObject>(registry: &Registry, handle: ObjectHandle) -> (result: Result<
    String,
    Failure,
>)
    ensures
        match result {
            Ok(text) => object_text_spec::<O>(registry@, handle) == Ok::<Seq<char>, FailureView>(
                text@,
            ),
            Err(failure) => object_text_spec::<O>(registry@, handle) == Err::<
                Seq<char>,
                FailureView,
            >(failure@),
        },
{
    let object = match registry.load(handle) {
        Ok(object) => object,
        Err(failure) => return Err(failure),
    };
    match object.cast_ref::<O>() {
        Ok(_) => Ok(object.encoding().to_owned()),
        Err(failure) => Err(failure),
    }
}

/// Reading back the text of an object that was just registered gives the
/// encoding that the registered value holds: what goes in comes out.
pub proof fn lemma_text_round_trip<O: AnyIndyObject>(before: RegistryView, value: O)
    requires
        before.wf(),
        !before.exhausted(),
    ensures
        object_text_spec::<O>(before.create(value.wrap_spec()), before.next_handle()) == Ok::<
            Seq<char>,
            FailureView,
        >(value.wrap_spec().encoding_spec()),
{
    value.lemma_wrap_tag();
}

/// After an object was registered from a text, reading the text of the
/// handle that was returned gives the encoding of the value that the decoder
/// made of that text.
pub proof fn lemma_from_text_then_to_text<O: AnyIndyObject, D: FnOnce(&str) -> Result<O, String>>(
    decode: D,
    before: RegistryView,
    text: Option<Seq<char>>,
    result: Result<ObjectHandle, Failure>,
    after: RegistryView,
)
    requires
        before.wf(),
        object_from_text_ensures(decode, before, text, result, after),
        result is Ok,
    ensures
        text is Some,
        exists|source: &str, value: O|
            {
                &&& source@ == text->Some_0
                &&& #[trigger] decode.ensures((source,), Ok::<O, String>(value))
                &&& object_text_spec::<O>(after, result->Ok_0) == Ok::<Seq<char>, FailureView>(
                    value.wrap_spec().encoding_spec(),
                )
            },
{
    let (source, outcome) = choose|source: &str, outcome: Result<O, String>|
        {
            &&& source@ == text->Some_0
            &&& #[trigger] decode.ensures((source,), outcome)
            &&& decoded_registered(before, outcome, result, after)
        };
    let value = outcome->Ok_0;
    lemma_text_round_trip::<O>(before, value);
    assert(decode.ensures((source,), Ok::<O, String>(value)));
}

/// The entry point for registering an object from its text encoding. On
/// success the output slot holds the handle of the object; on failure it is
/// not written and the registry stays as it was.
pub fn credx_object_from_json<O: AnyIndyObject, D: FnOnce(&str) -> Result<O, String>>(
    registry: &mut Registry,
    last_error: &mut LastError,
    decode: D,
    json: Option<&str>,
    result_p: &mut ObjectHandle,
) -> (code: ErrorCode)
    requires
        old(registry).wf(),
        forall|source: &str| #[trigger] decode.requires((source,)),
    ensures
        final(registry).wf(),
        exists|result: Result<ObjectHandle, Failure>|
            {
                &&& #[trigger] object_from_text_ensures(
                    decode,
                    old(registry)@,
                    text_view(json),
                    result,
                    final(registry)@,
                )
                &&& match result {
                    Ok(handle) => {
                        &&& code == ErrorCode::Success
                        &&& final(last_error)@ is None
                        &&& *final(result_p) == handle
                    },
                    Err(failure) => {
                        &&& code == failure.kind.code_spec()
                        &&& final(last_error)@ == Some(failure@)
                        &&& *final(result_p) == *old(result_p)
                        &&& final(registry)@ == old(registry)@
                    },
                }
            },
        code == ErrorCode::Success <==> final(last_error)@ is None,
{
    let result = object_from_text(registry, json, decode);
    match result {
        Ok(handle) => {
            *result_p = handle;
            last_error.set(None)
        },
        Err(failure) => last_error.set(Some(failure)),
    }
}

/// The entry point for reading the text encoding of an object of type `O`.
/// On success the output slot holds the text; on failure it is not written.
pub fn credx_object_get_json<O: AnyIndyObject>(
    registry: &Registry,
    last_error: &mut LastError,
    handle: ObjectHandle,
    result_p: &mut String,
) -> (code: ErrorCode)
    ensures
        match object_text_spec::<O>(registry@, handle) {
            Ok(text) => {
                &&& code == ErrorCode::Success
                &&& final(last_error)@ is None
                &&& final(result_p)@ == text
            },
            Err(failure) => {
                &&& code == failure.kind.code_spec()
                &&& final(last_error)@ == Some(failure)
                &&& *final(result_p) == *old(result_p)
            },
        },
{
    match object_to_text::<O>(registry, handle) {
        Ok(text) => {
            *result_p = text;
            last_error.set(None)
        },
        Err(failure) => last_error.set(Some(failure)),
    }
}

/// The entry point for releasing a handle. The object that the handle names
/// is dropped and the handle names nothing from then on. A handle that is
/// not live, one that was released before among them, gives
/// `HandleNotFound` and changes nothing.
pub fn credx_object_free(registry: &mut Registry, last_error: &mut LastError, handle: ObjectHandle) -> (code:
    ErrorCode)
    requires
        old(registry).wf(),
    ensures
        final(registry).wf(),
        if old(registry)@.objects.contains_key(handle) {
            &&& code == ErrorCode::Success
            &&& final(last_error)@ is None
            &&& final(registry)@ == old(registry)@.release(handle)
        } else {
            &&& code == ErrorCode::HandleNotFound
            &&& final(last_error)@ == Some(handle_not_found())
            &&& final(registry)@ == old(registry)@
        },
{
    match registry.release(handle) {
        Ok(_) => last_error.set(None),
        Err(failure) => last_error.set(Some(failure)),
    }
}

} // verus!
