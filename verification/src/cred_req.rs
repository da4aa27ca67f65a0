//! Credential requests: deriving one, with its metadata, from a credential
//! definition, the holder's master secret and the issuer's offer.

use crate::error::{result_code, result_failure, ErrorCode, ErrorKind, Failure, FailureView, LastError};
use crate::identifier::{did_spec, missing_text, parse_did, required_text, required_text_spec, text_view, DidValue};
use crate::object::{
    handles_exhausted, CredentialDefinition, CredentialOffer, CredentialRequest,
    CredentialRequestMetadata, IndyObject, MasterSecret,
};
use crate::registry::{resolve_spec, ObjectHandle, Registry, RegistryView};
use vstd::prelude::*;

verus! {

/// The validated inputs of the derivation of a credential request.
pub struct CredentialRequestInputs {
    pub prover_did: Seq<char>,
    pub credential_definition: CredentialDefinition,
    pub master_secret: MasterSecret,
    pub master_secret_id: Seq<char>,
    pub credential_offer: CredentialOffer,
}

/// Validates the arguments of the derivation of a credential request, in
/// the order of the arguments: the first one that is refused gives the
/// failure. The label of the master secret must be there; what it says is
/// not looked at.
pub open spec fn credential_request_inputs(
    registry: RegistryView,
    prover_did: Option<Seq<char>>,
    cred_def: ObjectHandle,
    master_secret: ObjectHandle,
    master_secret_id: Option<Seq<char>>,
    cred_offer: ObjectHandle,
) -> Result<CredentialRequestInputs, FailureView> {
    match did_spec(prover_did) {
        Err(failure) => Err(failure),
        Ok(did) => match resolve_spec::<CredentialDefinition>(registry, cred_def) {
            Err(failure) => Err(failure),
            Ok(definition) => match resolve_spec::<MasterSecret>(registry, master_secret) {
                Err(failure) => Err(failure),
                Ok(secret) => match required_text_spec(master_secret_id) {
                    Err(failure) => Err(failure),
                    Ok(label) => match resolve_spec::<CredentialOffer>(registry, cred_offer) {
                        Err(failure) => Err(failure),
                        Ok(offer) => Ok(
                            CredentialRequestInputs {
                                prover_did: did,
                                credential_definition: definition->CredentialDefinition_0,
                                master_secret: secret->MasterSecret_0,
                                master_secret_id: label,
                                credential_offer: offer->CredentialOffer_0,
                            },
                        ),
                    },
                },
            },
        },
    }
}

/// How the outcome of the derivation is taken into the registry. A failure
/// of the derivation is handed on and nothing is registered. The request and
/// its metadata are registered together, each under a handle of its own, in
/// that order; where the registry cannot issue two handles, neither is
/// registered.
pub open spec fn credential_request_registered(
    before: RegistryView,
    outcome: Result<(CredentialRequest, CredentialRequestMetadata), Failure>,
    result: Result<(ObjectHandle, ObjectHandle), Failure>,
    after: RegistryView,
) -> bool {
    match outcome {
        Err(failure) => result == Err::<(ObjectHandle, ObjectHandle), Failure>(failure) && after
            == before,
        Ok(artifacts) => if before.issued + 2 > usize::MAX {
            result matches Err(failure) && failure@ == handles_exhausted() && after == before
        } else {
            let first = before.create(IndyObject::CredentialRequest(artifacts.0));
            let second = first.create(IndyObject::CredentialRequestMetadata(artifacts.1));
            result == Ok::<(ObjectHandle, ObjectHandle), Failure>(
                (before.next_handle(), first.next_handle()),
            ) && after == second
        },
    }
}

/// What creating a credential request does, whatever the derivation
/// returns: a refused argument gives its failure, the derivation is not
/// asked and the registry stays as it was; accepted arguments are handed to
/// the derivation as validated, and its outcome is taken into the registry.
pub open spec fn create_credential_request_ensures<G>(
    generate: G,
    before: RegistryView,
    prover_did: Option<Seq<char>>,
    cred_def: ObjectHandle,
    master_secret: ObjectHandle,
    master_secret_id: Option<Seq<char>>,
    cred_offer: ObjectHandle,
    result: Result<(ObjectHandle, ObjectHandle), Failure>,
    after: RegistryView,
) -> bool where
    G: FnOnce(&DidValue, &CredentialDefinition, &MasterSecret, &str, &CredentialOffer) -> Result<
        (CredentialRequest, CredentialRequestMetadata),
        Failure,
    >,
 {
    match credential_request_inputs(
        before,
        prover_did,
        cred_def,
        master_secret,
        master_secret_id,
        cred_offer,
    ) {
        Err(failure) => result_failure(result) == Some(failure) && after == before,
        Ok(inputs) => exists|
            did: DidValue,
            label: &str,
            outcome: Result<(CredentialRequest, CredentialRequestMetadata), Failure>,
        |
            {
                &&& did@ == inputs.prover_did
                &&& label@ == inputs.master_secret_id
                &&& #[trigger] generate.ensures(
                    (
                        &did,
                        &inputs.credential_definition,
                        &inputs.master_secret,
                        label,
                        &inputs.credential_offer,
                    ),
                    outcome,
                )
                &&& credential_request_registered(before, outcome, result, after)
            },
    }
}

/// Takes the outcome of the derivation of a credential request into the
/// registry: the request and its metadata, or neither.
pub fn register_credential_request(
    registry: &mut Registry,
    outcome: Result<(CredentialRequest, CredentialRequestMetadata), Failure>,
) -> (result: Result<(ObjectHandle, ObjectHandle), Failure>)
    requires
        old(registry).wf(),
    ensures
        final(registry).wf(),
        credential_request_registered(old(registry)@, outcome, result, final(registry)@),
{
    match outcome {
        Err(failure) => Err(failure),
        Ok((cred_req, cred_req_metadata)) => {
            if registry.remaining() < 2 {
                return Err(Failure::new(ErrorKind::Resource, "Object handles are exhausted"));
            }
            let cred_req = match registry.create(cred_req) {
                Ok(handle) => handle,
                Err(failure) => return Err(failure),
            };
            let cred_req_metadata = match registry.create(cred_req_metadata) {
                Ok(handle) => handle,
                Err(failure) => return Err(failure),
            };
            Ok((cred_req, cred_req_metadata))
        },
    }
}

/// Creates a credential request: validates the arguments, has `generate`
/// blind the master secret against the definition and the offer, and
/// registers the request and its metadata as two objects of their own.
pub fn create_credential_request<G>(
    registry: &mut Registry,
    prover_did: Option<&str>,
    cred_def: ObjectHandle,
    master_secret: ObjectHandle,
    master_secret_id: Option<&str>,
    cred_offer: ObjectHandle,
    generate: G,
) -> (result: Result<(ObjectHandle, ObjectHandle), Failure>) where
    G: FnOnce(&DidValue, &CredentialDefinition, &MasterSecret, &str, &CredentialOffer) -> Result<
        (CredentialRequest, CredentialRequestMetadata),
        Failure,
    >,

    requires
        old(registry).wf(),
        forall|
            did: &DidValue,
            definition: &CredentialDefinition,
            secret: &MasterSecret,
            label: &str,
            offer: &CredentialOffer,
        | #[trigger] generate.requires((did, definition, secret, label, offer)),
    ensures
        final(registry).wf(),
        create_credential_request_ensures(
            generate,
            old(registry)@,
            text_view(prover_did),
            cred_def,
            master_secret,
            text_view(master_secret_id),
            cred_offer,
            result,
            final(registry)@,
        ),
{
    let did = match parse_did(prover_did) {
        Ok(did) => did,
        Err(failure) => return Err(failure),
    };
    let definition = match registry.resolve::<CredentialDefinition>(cred_def) {
        Ok(value) => value,
        Err(failure) => return Err(failure),
    };
    let secret = match registry.resolve::<MasterSecret>(master_secret) {
        Ok(value) => value,
        Err(failure) => return Err(failure),
    };
    let label = match required_text(master_secret_id) {
        Ok(text) => text,
        Err(failure) => return Err(failure),
    };
    let offer = match registry.resolve::<CredentialOffer>(cred_offer) {
        Ok(value) => value,
        Err(failure) => return Err(failure),
    };
    let ghost inputs = credential_request_inputs(
        registry@,
        text_view(prover_did),
        cred_def,
        master_secret,
        text_view(master_secret_id),
        cred_offer,
    )->Ok_0;
    assert(inputs.credential_definition == *definition);
    assert(inputs.master_secret == *secret);
    assert(inputs.credential_offer == *offer);
    let outcome = generate(&did, definition, secret, label, offer);
    register_credential_request(registry, outcome)
}

/// The entry point for creating a credential request. It returns the status
/// of the call and keeps the failure, if there is one, in `last_error`. On
/// success the two output slots hold the handles of the request and of its
/// metadata; on any failure no slot is written and the registry stays as it
/// was.
pub fn credx_create_credential_request<G>(
    registry: &mut Registry,
    last_error: &mut LastError,
    generate: G,
    prover_did: Option<&str>,
    cred_def: ObjectHandle,
    master_secret: ObjectHandle,
    master_secret_id: Option<&str>,
    cred_offer: ObjectHandle,
    cred_req_p: &mut ObjectHandle,
    cred_req_meta_p: &mut ObjectHandle,
) -> (code: ErrorCode) where
    G: FnOnce(&DidValue, &CredentialDefinition, &MasterSecret, &str, &CredentialOffer) -> Result<
        (CredentialRequest, CredentialRequestMetadata),
        Failure,
    >,

    requires
        old(registry).wf(),
        forall|
            did: &DidValue,
            definition: &CredentialDefinition,
            secret: &MasterSecret,
            label: &str,
            offer: &CredentialOffer,
        | #[trigger] generate.requires((did, definition, secret, label, offer)),
    ensures
        final(registry).wf(),
        exists|result: Result<(ObjectHandle, ObjectHandle), Failure>|
            {
                &&& #[trigger] create_credential_request_ensures(
                    generate,
                    old(registry)@,
                    text_view(prover_did),
                    cred_def,
                    master_secret,
                    text_view(master_secret_id),
                    cred_offer,
                    result,
                    final(registry)@,
                )
                &&& code == result_code(result)
                &&& final(last_error)@ == result_failure(result)
                &&& (*final(cred_req_p), *final(cred_req_meta_p)) == match result {
                    Ok(handles) => handles,
                    Err(_) => (*old(cred_req_p), *old(cred_req_meta_p)),
                }
            },
        code == ErrorCode::Success <==> final(last_error)@ is None,
        final(last_error)@ matches Some(failure) ==> code == failure.kind.code_spec(),
        code != ErrorCode::Success ==> {
            &&& final(registry)@ == old(registry)@
            &&& *final(cred_req_p) == *old(cred_req_p)
            &&& *final(cred_req_meta_p) == *old(cred_req_meta_p)
        },
        code == ErrorCode::Success ==> {
            &&& *final(cred_req_p) != *final(cred_req_meta_p)
            &&& !old(registry)@.was_issued(*final(cred_req_p))
            &&& !old(registry)@.was_issued(*final(cred_req_meta_p))
            &&& final(registry)@.objects.contains_key(*final(cred_req_p))
            &&& final(registry)@.objects.contains_key(*final(cred_req_meta_p))
            &&& final(registry)@.objects[*final(cred_req_p)] is CredentialRequest
            &&& final(registry)@.objects[*final(cred_req_meta_p)] is CredentialRequestMetadata
        },
{
    let result = create_credential_request(
        registry,
        prover_did,
        cred_def,
        master_secret,
        master_secret_id,
        cred_offer,
        generate,
    );
    proof {
        lemma_created_request(
            generate,
            old(registry)@,
            text_view(prover_did),
            cred_def,
            master_secret,
            text_view(master_secret_id),
            cred_offer,
            result,
            registry@,
        );
    }
    match result {
        Ok((cred_req, cred_req_metadata)) => {
            *cred_req_p = cred_req;
            *cred_req_meta_p = cred_req_metadata;
            last_error.set(None)
        },
        Err(failure) => last_error.set(Some(failure)),
    }
}

/// What the two handles of a registered outcome are: two different handles
/// that were never issued before, each of them live afterwards and naming
/// the artifact it was issued for, while every object that was live before
/// is still there, unchanged.
pub proof fn lemma_registered_request(
    before: RegistryView,
    outcome: Result<(CredentialRequest, CredentialRequestMetadata), Failure>,
    result: Result<(ObjectHandle, ObjectHandle), Failure>,
    after: RegistryView,
)
    requires
        before.wf(),
        credential_request_registered(before, outcome, result, after),
    ensures
        after.wf(),
        result is Err ==> after == before,
        result is Ok ==> outcome is Ok,
        result matches Ok(handles) ==> {
            &&& handles.0 != handles.1
            &&& !before.was_issued(handles.0) && !before.was_issued(handles.1)
            &&& after.objects.contains_key(handles.0) && after.objects[handles.0]
                == IndyObject::CredentialRequest(outcome->Ok_0.0)
            &&& after.objects.contains_key(handles.1) && after.objects[handles.1]
                == IndyObject::CredentialRequestMetadata(outcome->Ok_0.1)
            &&& forall|h: ObjectHandle| #[trigger]
                before.objects.contains_key(h) ==> after.objects.contains_key(h)
                    && after.objects[h] == before.objects[h]
        },
{
}

/// A call that creates a credential request either fails and leaves the
/// registry as it was, or returns two different handles that were never
/// issued before and that name, afterwards, a request and its metadata.
pub proof fn lemma_created_request<G>(
    generate: G,
    before: RegistryView,
    prover_did: Option<Seq<char>>,
    cred_def: ObjectHandle,
    master_secret: ObjectHandle,
    master_secret_id: Option<Seq<char>>,
    cred_offer: ObjectHandle,
    result: Result<(ObjectHandle, ObjectHandle), Failure>,
    after: RegistryView,
) where
    G: FnOnce(&DidValue, &CredentialDefinition, &MasterSecret, &str, &CredentialOffer) -> Result<
        (CredentialRequest, CredentialRequestMetadata),
        Failure,
    >,

    requires
        before.wf(),
        create_credential_request_ensures(
            generate,
            before,
            prover_did,
            cred_def,
            master_secret,
            master_secret_id,
            cred_offer,
            result,
            after,
        ),
    ensures
        after.wf(),
        result is Err ==> after == before,
        result is Ok ==> credential_request_inputs(
            before,
            prover_did,
            cred_def,
            master_secret,
            master_secret_id,
            cred_offer,
        ) is Ok,
        result matches Ok(handles) ==> {
            &&& handles.0 != handles.1
            &&& !before.was_issued(handles.0) && !before.was_issued(handles.1)
            &&& after.objects.contains_key(handles.0) && after.objects[handles.0] is CredentialRequest
            &&& after.objects.contains_key(handles.1) && after.objects[handles.1] is CredentialRequestMetadata
            &&& forall|h: ObjectHandle| #[trigger]
                before.objects.contains_key(h) ==> after.objects.contains_key(h)
                    && after.objects[h] == before.objects[h]
        },
{
    let inputs = credential_request_inputs(
        before,
        prover_did,
        cred_def,
        master_secret,
        master_secret_id,
        cred_offer,
    );
    if inputs is Ok {
        let (did, label, outcome) = choose|
            did: DidValue,
            label: &str,
            outcome: Result<(CredentialRequest, CredentialRequestMetadata), Failure>,
        |
            {
                &&& did@ == inputs->Ok_0.prover_did
                &&& label@ == inputs->Ok_0.master_secret_id
                &&& #[trigger] generate.ensures(
                    (
                        &did,
                        &inputs->Ok_0.credential_definition,
                        &inputs->Ok_0.master_secret,
                        label,
                        &inputs->Ok_0.credential_offer,
                    ),
                    outcome,
                )
                &&& credential_request_registered(before, outcome, result, after)
            };
        lemma_registered_request(before, outcome, result, after);
    }
}

/// A call without the label of the master secret fails with an input
/// failure, which is no failure to resolve a handle, whenever the identifier
/// is accepted and the handles of the definition and of the master secret
/// resolve. The registry stays as it was.
pub proof fn lemma_missing_master_secret_id<G>(
    generate: G,
    before: RegistryView,
    prover_did: Option<Seq<char>>,
    cred_def: ObjectHandle,
    master_secret: ObjectHandle,
    cred_offer: ObjectHandle,
    result: Result<(ObjectHandle, ObjectHandle), Failure>,
    after: RegistryView,
) where
    G: FnOnce(&DidValue, &CredentialDefinition, &MasterSecret, &str, &CredentialOffer) -> Result<
        (CredentialRequest, CredentialRequestMetadata),
        Failure,
    >,

    requires
        did_spec(prover_did) is Ok,
        resolve_spec::<CredentialDefinition>(before, cred_def) is Ok,
        resolve_spec::<MasterSecret>(before, master_secret) is Ok,
        create_credential_request_ensures(
            generate,
            before,
            prover_did,
            cred_def,
            master_secret,
            None,
            cred_offer,
            result,
            after,
        ),
    ensures
        result_failure(result) == Some(missing_text()),
        result_code(result) == ErrorCode::Input,
        result_code(result) != ErrorCode::HandleNotFound,
        result_code(result) != ErrorCode::TypeMismatch,
        after == before,
{
}

} // verus!
