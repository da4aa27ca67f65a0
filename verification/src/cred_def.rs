//! Credential definitions: generating one from a schema, and reading the
//! identifier of one.

use crate::error::{result_code, result_failure, ErrorCode, ErrorKind, Failure, FailureView, LastError};
use crate::identifier::{did_spec, parse_did, required_text, required_text_spec, text_view, DidValue};
use crate::object::{
    handle_not_found, handles_exhausted, CredentialDefinition, CredentialDefinitionPrivate, IndyObject,
    KeyCorrectnessProof, Schema,
};
use crate::registry::{resolve_spec, ObjectHandle, Registry, RegistryView};
use vstd::prelude::*;

verus! {

/// The signature schemes that a credential definition can be generated for.
#[derive(Clone, Copy, Debug, PartialEq, Eq, Hash, Structural)]
pub enum SignatureType {
    CL,
}

/// What the generation of a credential definition is configured with.
#[derive(Clone, Copy, Debug, PartialEq, Eq, Hash, Structural)]
pub struct CredentialDefinitionConfig {
    /// Whether the generated keys also support proofs of non-revocation.
    pub support_revocation: bool,
}

/// The failure for a text that names no signature scheme.
pub open spec fn invalid_signature_type() -> FailureView {
    FailureView { kind: ErrorKind::Input, message: "Invalid signature type"@ }
}

/// The tag of a credential definition whose caller gave none.
pub open spec fn default_tag() -> Seq<char> {
    "default"@
}

impl SignatureType {
    /// The signature scheme that a text names.
    pub open spec fn from_str_spec(text: Seq<char>) -> Result<SignatureType, FailureView> {
        if text == "CL"@ {
            Ok(SignatureType::CL)
        } else {
            Err(invalid_signature_type())
        }
    }

    /// The text that names the scheme.
    pub open spec fn to_str_spec(self) -> Seq<char> {
        "CL"@
    }

    pub fn from_str(text: &str) -> (result: Result<SignatureType, Failure>)
        ensures
            match result {
                Ok(scheme) => SignatureType::from_str_spec(text@) == Ok::<
                    SignatureType,
                    FailureView,
                >(scheme),
                Err(failure) => SignatureType::from_str_spec(text@) == Err::<
                    SignatureType,
                    FailureView,
                >(failure@),
            },
    {
        proof {
            reveal_strlit("CL");
        }
        if text.unicode_len() == 2 && text.get_char(0) == 'C' && text.get_char(1) == 'L' {
            assert(text@ =~= "CL"@);
            Ok(SignatureType::CL)
        } else {
            Err(Failure::new(ErrorKind::Input, "Invalid signature type"))
        }
    }

    pub fn to_str(self) -> (text: &'static str)
        ensures
            text@ == self.to_str_spec(),
    {
        "CL"
    }
}

/// The text that names a signature scheme names that scheme.
pub proof fn lemma_signature_type_round_trip(scheme: SignatureType)
    ensures
        SignatureType::from_str_spec(scheme.to_str_spec()) == Ok::<SignatureType, FailureView>(
            scheme,
        ),
{
}

/// The validated inputs of the generation of a credential definition.
pub struct CredentialDefinitionRequest {
    pub origin_did: Seq<char>,
    pub schema: Schema,
    pub tag: Seq<char>,
    pub signature_type: SignatureType,
    pub config: CredentialDefinitionConfig,
}

/// Validates the arguments of the generation of a credential definition, in
/// the order of the arguments: the first one that is refused gives the
/// failure. An absent tag stands for the default tag.
pub open spec fn credential_definition_request(
    registry: RegistryView,
    origin_did: Option<Seq<char>>,
    schema: ObjectHandle,
    tag: Option<Seq<char>>,
    signature_type: Option<Seq<char>>,
    support_revocation: i8,
) -> Result<CredentialDefinitionRequest, FailureView> {
    match did_spec(origin_did) {
        Err(failure) => Err(failure),
        Ok(did) => match resolve_spec::<Schema>(registry, schema) {
            Err(failure) => Err(failure),
            Ok(object) => match required_text_spec(signature_type) {
                Err(failure) => Err(failure),
                Ok(scheme_text) => match SignatureType::from_str_spec(scheme_text) {
                    Err(failure) => Err(failure),
                    Ok(scheme) => Ok(
                        CredentialDefinitionRequest {
                            origin_did: did,
                            schema: object->Schema_0,
                            tag: match tag {
                                Some(t) => t,
                                None => default_tag(),
                            },
                            signature_type: scheme,
                            config: CredentialDefinitionConfig {
                                support_revocation: support_revocation != 0,
                            },
                        },
                    ),
                },
            },
        },
    }
}

/// How the outcome of the generation is taken into the registry. A failure
/// of the generation is handed on and nothing is registered. The three
/// artifacts are registered together, each under a handle of its own, in the
/// order definition, private key, correctness proof; where the registry
/// cannot issue three handles, none is registered.
pub open spec fn credential_definition_registered(
    before: RegistryView,
    outcome: Result<
        (CredentialDefinition, CredentialDefinitionPrivate, KeyCorrectnessProof),
        Failure,
    >,
    result: Result<(ObjectHandle, ObjectHandle, ObjectHandle), Failure>,
    after: RegistryView,
) -> bool {
    match outcome {
        Err(failure) => result == Err::<(ObjectHandle, ObjectHandle, ObjectHandle), Failure>(
            failure,
        ) && after == before,
        Ok(artifacts) => if before.issued + 3 > usize::MAX {
            result matches Err(failure) && failure@ == handles_exhausted() && after == before
        } else {
            let first = before.create(IndyObject::CredentialDefinition(artifacts.0));
            let second = first.create(IndyObject::CredentialDefinitionPrivate(artifacts.1));
            let third = second.create(IndyObject::KeyCorrectnessProof(artifacts.2));
            result == Ok::<(ObjectHandle, ObjectHandle, ObjectHandle), Failure>(
                (before.next_handle(), first.next_handle(), second.next_handle()),
            ) && after == third
        },
    }
}

/// What creating a credential definition does, whatever the generation
/// returns: a refused argument gives its failure, the generation is not
/// asked and the registry stays as it was; accepted arguments are handed to
/// the generation as validated, and its outcome is taken into the registry.
pub open spec fn create_credential_definition_ensures<G>(
    generate: G,
    before: RegistryView,
    origin_did: Option<Seq<char>>,
    schema: ObjectHandle,
    tag: Option<Seq<char>>,
    signature_type: Option<Seq<char>>,
    support_revocation: i8,
    result: Result<(ObjectHandle, ObjectHandle, ObjectHandle), Failure>,
    after: RegistryView,
) -> bool where
    G: FnOnce(&DidValue, &Schema, &str, SignatureType, CredentialDefinitionConfig) -> Result<
        (CredentialDefinition, CredentialDefinitionPrivate, KeyCorrectnessProof),
        Failure,
    >,
 {
    match credential_definition_request(
        before,
        origin_did,
        schema,
        tag,
        signature_type,
        support_revocation,
    ) {
        Err(failure) => result_failure(result) == Some(failure) && after == before,
        Ok(request) => exists|
            did: DidValue,
            tag_text: &str,
            outcome: Result<
                (CredentialDefinition, CredentialDefinitionPrivate, KeyCorrectnessProof),
                Failure,
            >,
        |
            {
                &&& did@ == request.origin_did
                &&& tag_text@ == request.tag
                &&& #[trigger] generate.ensures(
                    (&did, &request.schema, tag_text, request.signature_type, request.config),
                    outcome,
                )
                &&& credential_definition_registered(before, outcome, result, after)
            },
    }
}

/// Takes the outcome of the generation of a credential definition into the
/// registry: all three artifacts, or none.
pub fn register_credential_definition(
    registry: &mut Registry,
    outcome: Result<
        (CredentialDefinition, CredentialDefinitionPrivate, KeyCorrectnessProof),
        Failure,
    >,
) -> (result: Result<(ObjectHandle, ObjectHandle, ObjectHandle), Failure>)
    requires
        old(registry).wf(),
    ensures
        final(registry).wf(),
        credential_definition_registered(old(registry)@, outcome, result, final(registry)@),
{
    match outcome {
        Err(failure) => Err(failure),
        Ok((cred_def, cred_def_pvt, key_proof)) => {
            if registry.remaining() < 3 {
                return Err(Failure::new(ErrorKind::Resource, "Object handles are exhausted"));
            }
            let cred_def = match registry.create(cred_def) {
                Ok(handle) => handle,
                Err(failure) => return Err(failure),
            };
            let cred_def_pvt = match registry.create(cred_def_pvt) {
                Ok(handle) => handle,
                Err(failure) => return Err(failure),
            };
            let key_proof = match registry.create(key_proof) {
                Ok(handle) => handle,
                Err(failure) => return Err(failure),
            };
            Ok((cred_def, cred_def_pvt, key_proof))
        },
    }
}

/// Creates a credential definition for a schema: validates the arguments,
/// has `generate` make the keys, and registers the definition, its private
/// key and its correctness proof as three objects of their own.
pub fn create_credential_definition<G>(
    registry: &mut Registry,
    origin_did: Option<&str>,
    schema: ObjectHandle,
    tag: Option<&str>,
    signature_type: Option<&str>,
    support_revocation: i8,
    generate: G,
) -> (result: Result<(ObjectHandle, ObjectHandle, ObjectHandle), Failure>) where
    G: FnOnce(&DidValue, &Schema, &str, SignatureType, CredentialDefinitionConfig) -> Result<
        (CredentialDefinition, CredentialDefinitionPrivate, KeyCorrectnessProof),
        Failure,
    >,

    requires
        old(registry).wf(),
        forall|
            did: &DidValue,
            schema: &Schema,
            tag: &str,
            scheme: SignatureType,
            config: CredentialDefinitionConfig,
        | #[trigger] generate.requires((did, schema, tag, scheme, config)),
    ensures
        final(registry).wf(),
        create_credential_definition_ensures(
            generate,
            old(registry)@,
            text_view(origin_did),
            schema,
            text_view(tag),
            text_view(signature_type),
            support_revocation,
            result,
            final(registry)@,
        ),
{
    let did = match parse_did(origin_did) {
        Ok(did) => did,
        Err(failure) => return Err(failure),
    };
    let schema_ref = match registry.resolve::<Schema>(schema) {
        Ok(value) => value,
        Err(failure) => return Err(failure),
    };
    let tag_text = match tag {
        Some(text) => text,
        None => "default",
    };
    let scheme_text = match required_text(signature_type) {
        Ok(text) => text,
        Err(failure) => return Err(failure),
    };
    let scheme = match SignatureType::from_str(scheme_text) {
        Ok(scheme) => scheme,
        Err(failure) => return Err(failure),
    };
    let config = CredentialDefinitionConfig { support_revocation: support_revocation != 0 };
    let ghost request = credential_definition_request(
        registry@,
        text_view(origin_did),
        schema,
        text_view(tag),
        text_view(signature_type),
        support_revocation,
    )->Ok_0;
    assert(request.schema == *schema_ref);
    let outcome = generate(&did, schema_ref, tag_text, scheme, config);
    register_credential_definition(registry, outcome)
}

/// The entry point for creating a credential definition. It returns the
/// status of the call and keeps the failure, if there is one, in
/// `last_error`. On success the three output slots hold the handles of the
/// definition, of its private key and of its correctness proof; on any
/// failure no slot is written and the registry stays as it was.
pub fn credx_create_credential_definition<G>(
    registry: &mut Registry,
    last_error: &mut LastError,
    generate: G,
    origin_did: Option<&str>,
    schema: ObjectHandle,
    tag: Option<&str>,
    signature_type: Option<&str>,
    support_revocation: i8,
    cred_def_p: &mut ObjectHandle,
    cred_def_pvt_p: &mut ObjectHandle,
    key_proof_p: &mut ObjectHandle,
) -> (code: ErrorCode) where
    G: FnOnce(&DidValue, &Schema, &str, SignatureType, CredentialDefinitionConfig) -> Result<
        (CredentialDefinition, CredentialDefinitionPrivate, KeyCorrectnessProof),
        Failure,
    >,

    requires
        old(registry).wf(),
        forall|
            did: &DidValue,
            schema: &Schema,
            tag: &str,
            scheme: SignatureType,
            config: CredentialDefinitionConfig,
        | #[trigger] generate.requires((did, schema, tag, scheme, config)),
    ensures
        final(registry).wf(),
        exists|result: Result<(ObjectHandle, ObjectHandle, ObjectHandle), Failure>|
            {
                &&& #[trigger] create_credential_definition_ensures(
                    generate,
                    old(registry)@,
                    text_view(origin_did),
                    schema,
                    text_view(tag),
                    text_view(signature_type),
                    support_revocation,
                    result,
                    final(registry)@,
                )
                &&& code == result_code(result)
                &&& final(last_error)@ == result_failure(result)
                &&& (*final(cred_def_p), *final(cred_def_pvt_p), *final(key_proof_p)) == match result {
                    Ok(handles) => handles,
                    Err(_) => (*old(cred_def_p), *old(cred_def_pvt_p), *old(key_proof_p)),
                }
            },
        code == ErrorCode::Success <==> final(last_error)@ is None,
        final(last_error)@ matches Some(failure) ==> code == failure.kind.code_spec(),
        code != ErrorCode::Success ==> {
            &&& final(registry)@ == old(registry)@
            &&& *final(cred_def_p) == *old(cred_def_p)
            &&& *final(cred_def_pvt_p) == *old(cred_def_pvt_p)
            &&& *final(key_proof_p) == *old(key_proof_p)
        },
        code == ErrorCode::Success ==> {
            &&& *final(cred_def_p) != *final(cred_def_pvt_p)
            &&& *final(cred_def_p) != *final(key_proof_p)
            &&& *final(cred_def_pvt_p) != *final(key_proof_p)
            &&& !old(registry)@.was_issued(*final(cred_def_p))
            &&& !old(registry)@.was_issued(*final(cred_def_pvt_p))
            &&& !old(registry)@.was_issued(*final(key_proof_p))
            &&& final(registry)@.objects.contains_key(*final(cred_def_p))
            &&& final(registry)@.objects.contains_key(*final(cred_def_pvt_p))
            &&& final(registry)@.objects.contains_key(*final(key_proof_p))
            &&& final(registry)@.objects[*final(cred_def_p)] is CredentialDefinition
            &&& final(registry)@.objects[*final(cred_def_pvt_p)] is CredentialDefinitionPrivate
            &&& final(registry)@.objects[*final(key_proof_p)] is KeyCorrectnessProof
        },
{
    let result = create_credential_definition(
        registry,
        origin_did,
        schema,
        tag,
        signature_type,
        support_revocation,
        generate,
    );
    proof {
        lemma_created_definition(
            generate,
            old(registry)@,
            text_view(origin_did),
            schema,
            text_view(tag),
            text_view(signature_type),
            support_revocation,
            result,
            registry@,
        );
    }
    match result {
        Ok((cred_def, cred_def_pvt, key_proof)) => {
            *cred_def_p = cred_def;
            *cred_def_pvt_p = cred_def_pvt;
            *key_proof_p = key_proof;
            last_error.set(None)
        },
        Err(failure) => last_error.set(Some(failure)),
    }
}

/// What the three handles of a registered outcome are: three different
/// handles that were never issued before, each of them live afterwards and
/// naming the artifact it was issued for, while every object that was live
/// before is still there, unchanged.
pub proof fn lemma_registered_definition(
    before: RegistryView,
    outcome: Result<
        (CredentialDefinition, CredentialDefinitionPrivate, KeyCorrectnessProof),
        Failure,
    >,
    result: Result<(ObjectHandle, ObjectHandle, ObjectHandle), Failure>,
    after: RegistryView,
)
    requires
        before.wf(),
        credential_definition_registered(before, outcome, result, after),
    ensures
        after.wf(),
        result is Err ==> after == before,
        result is Ok ==> outcome is Ok,
        result matches Ok(handles) ==> {
            &&& handles.0 != handles.1 && handles.0 != handles.2 && handles.1 != handles.2
            &&& !before.was_issued(handles.0) && !before.was_issued(handles.1)
                && !before.was_issued(handles.2)
            &&& after.objects.contains_key(handles.0) && after.objects[handles.0]
                == IndyObject::CredentialDefinition(outcome->Ok_0.0)
            &&& after.objects.contains_key(handles.1) && after.objects[handles.1]
                == IndyObject::CredentialDefinitionPrivate(outcome->Ok_0.1)
            &&& after.objects.contains_key(handles.2) && after.objects[handles.2]
                == IndyObject::KeyCorrectnessProof(outcome->Ok_0.2)
            &&& forall|h: ObjectHandle| #[trigger]
                before.objects.contains_key(h) ==> after.objects.contains_key(h)
                    && after.objects[h] == before.objects[h]
        },
{
}

/// A call that creates a credential definition either fails and leaves the
/// registry as it was, or returns three different handles that were never
/// issued before and that name, afterwards, a definition, a private key and
/// a correctness proof.
pub proof fn lemma_created_definition<G>(
    generate: G,
    before: RegistryView,
    origin_did: Option<Seq<char>>,
    schema: ObjectHandle,
    tag: Option<Seq<char>>,
    signature_type: Option<Seq<char>>,
    support_revocation: i8,
    result: Result<(ObjectHandle, ObjectHandle, ObjectHandle), Failure>,
    after: RegistryView,
) where
    G: FnOnce(&DidValue, &Schema, &str, SignatureType, CredentialDefinitionConfig) -> Result<
        (CredentialDefinition, CredentialDefinitionPrivate, KeyCorrectnessProof),
        Failure,
    >,

    requires
        before.wf(),
        create_credential_definition_ensures(
            generate,
            before,
            origin_did,
            schema,
            tag,
            signature_type,
            support_revocation,
            result,
            after,
        ),
    ensures
        after.wf(),
        result is Err ==> after == before,
        result is Ok ==> credential_definition_request(
            before,
            origin_did,
            schema,
            tag,
            signature_type,
            support_revocation,
        ) is Ok,
        result matches Ok(handles) ==> {
            &&& handles.0 != handles.1 && handles.0 != handles.2 && handles.1 != handles.2
            &&& !before.was_issued(handles.0) && !before.was_issued(handles.1)
                && !before.was_issued(handles.2)
            &&& after.objects.contains_key(handles.0) && after.objects[handles.0] is CredentialDefinition
            &&& after.objects.contains_key(handles.1) && after.objects[handles.1] is CredentialDefinitionPrivate
            &&& after.objects.contains_key(handles.2) && after.objects[handles.2] is KeyCorrectnessProof
            &&& forall|h: ObjectHandle| #[trigger]
                before.objects.contains_key(h) ==> after.objects.contains_key(h)
                    && after.objects[h] == before.objects[h]
        },
{
    let request = credential_definition_request(
        before,
        origin_did,
        schema,
        tag,
        signature_type,
        support_revocation,
    );
    if request is Ok {
        let (did, tag_text, outcome) = choose|
            did: DidValue,
            tag_text: &str,
            outcome: Result<
                (CredentialDefinition, CredentialDefinitionPrivate, KeyCorrectnessProof),
                Failure,
            >,
        |
            {
                &&& did@ == request->Ok_0.origin_did
                &&& tag_text@ == request->Ok_0.tag
                &&& #[trigger] generate.ensures(
                    (
                        &did,
                        &request->Ok_0.schema,
                        tag_text,
                        request->Ok_0.signature_type,
                        request->Ok_0.config,
                    ),
                    outcome,
                )
                &&& credential_definition_registered(before, outcome, result, after)
            };
        lemma_registered_definition(before, outcome, result, after);
    }
}

/// With an identifier that validation accepts and a schema handle that is
/// not live, creating a credential definition fails with `HandleNotFound`,
/// whatever the other arguments are, and the registry stays as it was.
pub proof fn lemma_unresolved_schema<G>(
    generate: G,
    before: RegistryView,
    origin_did: Option<Seq<char>>,
    schema: ObjectHandle,
    tag: Option<Seq<char>>,
    signature_type: Option<Seq<char>>,
    support_revocation: i8,
    result: Result<(ObjectHandle, ObjectHandle, ObjectHandle), Failure>,
    after: RegistryView,
) where
    G: FnOnce(&DidValue, &Schema, &str, SignatureType, CredentialDefinitionConfig) -> Result<
        (CredentialDefinition, CredentialDefinitionPrivate, KeyCorrectnessProof),
        Failure,
    >,

    requires
        did_spec(origin_did) is Ok,
        !before.objects.contains_key(schema),
        create_credential_definition_ensures(
            generate,
            before,
            origin_did,
            schema,
            tag,
            signature_type,
            support_revocation,
            result,
            after,
        ),
    ensures
        result_failure(result) == Some(handle_not_found()),
        result_code(result) == ErrorCode::HandleNotFound,
        after == before,
{
}

/// What reading the identifier of a credential definition gives.
pub open spec fn credential_definition_id_spec(
    registry: RegistryView,
    handle: ObjectHandle,
) -> Result<Seq<char>, FailureView> {
    match resolve_spec::<CredentialDefinition>(registry, handle) {
        Ok(object) => Ok(object->CredentialDefinition_0.id@),
        Err(failure) => Err(failure),
    }
}

/// The identifier of the credential definition that `handle` names.
pub fn credential_definition_get_id(registry: &Registry, handle: ObjectHandle) -> (result: Result<
    String,
    Failure,
>)
    ensures
        match result {
            Ok(id) => credential_definition_id_spec(registry@, handle) == Ok::<
                Seq<char>,
                FailureView,
            >(id@),
            Err(failure) => credential_definition_id_spec(registry@, handle) == Err::<
                Seq<char>,
                FailureView,
            >(failure@),
        },
{
    match registry.resolve::<CredentialDefinition>(handle) {
        Ok(cred_def) => Ok(cred_def.id.clone()),
        Err(failure) => Err(failure),
    }
}

/// The entry point for reading the identifier of a credential definition.
/// On success the output slot holds the identifier; on failure it is not
/// written.
pub fn credx_credential_definition_get_id(
    registry: &Registry,
    last_error: &mut LastError,
    handle: ObjectHandle,
    result_p: &mut String,
) -> (code: ErrorCode)
    ensures
        match credential_definition_id_spec(registry@, handle) {
            Ok(id) => {
                &&& code == ErrorCode::Success
                &&& final(last_error)@ is None
                &&& final(result_p)@ == id
            },
            Err(failure) => {
                &&& code == failure.kind.code_spec()
                &&& final(last_error)@ == Some(failure)
                &&& *final(result_p) == *old(result_p)
            },
        },
{
    match credential_definition_get_id(registry, handle) {
        Ok(id) => {
            *result_p = id;
            last_error.set(None)
        },
        Err(failure) => last_error.set(Some(failure)),
    }
}

} // verus!
