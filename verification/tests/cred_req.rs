use indy_credx::cred_def::{create_credential_definition, CredentialDefinitionConfig, SignatureType};
use indy_credx::cred_req::{
    create_credential_request, credx_create_credential_request, register_credential_request,
};
use indy_credx::error::{ErrorCode, ErrorKind, Failure, LastError};
use indy_credx::identifier::DidValue;
use indy_credx::object::{
    CredentialDefinition, CredentialDefinitionPrivate, CredentialOffer, CredentialRequest,
    CredentialRequestMetadata, KeyCorrectnessProof, MasterSecret, Schema, TypeTag,
};
use indy_credx::registry::{ObjectHandle, Registry};
use std::cell::Cell;

const ISSUER: &str = "V4SGRU86Z58d6TV7PBUe6f";
const PROVER: &str = "VsKV7grR1BUE29mG2Fm2kX";

fn generate_definition(
    did: &DidValue,
    schema: &Schema,
    tag: &str,
    scheme: SignatureType,
    _config: CredentialDefinitionConfig,
) -> Result<(CredentialDefinition, CredentialDefinitionPrivate, KeyCorrectnessProof), Failure> {
    let id = format!("{}:3:{}:{}:{}", did.0, scheme.to_str(), schema.encoding, tag);
    Ok((
        CredentialDefinition { id: id.clone(), encoding: format!("def({})", id) },
        CredentialDefinitionPrivate { encoding: format!("pvt({})", id) },
        KeyCorrectnessProof { encoding: format!("kcp({})", id) },
    ))
}

fn generate_request(
    did: &DidValue,
    definition: &CredentialDefinition,
    secret: &MasterSecret,
    label: &str,
    offer: &CredentialOffer,
) -> Result<(CredentialRequest, CredentialRequestMetadata), Failure> {
    Ok((
        CredentialRequest {
            encoding: format!("req({},{},{})", did.0, definition.id, offer.encoding),
        },
        CredentialRequestMetadata { encoding: format!("meta({},{})", secret.encoding, label) },
    ))
}

struct World {
    registry: Registry,
    definition: ObjectHandle,
    secret: ObjectHandle,
    offer: ObjectHandle,
}

fn world() -> World {
    let mut registry = Registry::new();
    let schema = registry.create(Schema { encoding: "schema-7".to_string() }).unwrap();
    let (definition, _, _) = create_credential_definition(
        &mut registry,
        Some(ISSUER),
        schema,
        Some("tag1"),
        Some("CL"),
        0,
        generate_definition,
    )
    .unwrap();
    let secret = registry.create(MasterSecret { encoding: "secret".to_string() }).unwrap();
    let offer = registry.create(CredentialOffer { encoding: "offer".to_string() }).unwrap();
    World { registry, definition, secret, offer }
}

#[test]
fn a_request_and_its_metadata_are_two_handles() {
    let mut w = world();
    let mut last_error = LastError::new();
    let (mut req, mut meta) = (ObjectHandle(0), ObjectHandle(0));
    let code = credx_create_credential_request(
        &mut w.registry,
        &mut last_error,
        generate_request,
        Some(PROVER),
        w.definition,
        w.secret,
        Some("default"),
        w.offer,
        &mut req,
        &mut meta,
    );
    assert_eq!(code, ErrorCode::Success);
    assert_eq!(last_error.kind(), None);
    assert_eq!((req, meta), (ObjectHandle(7), ObjectHandle(8)));
    assert_ne!(req, meta);
    let request = w.registry.load(req).unwrap();
    assert_eq!(request.type_tag(), TypeTag::CredentialRequest);
    assert_eq!(
        request.encoding(),
        "req(VsKV7grR1BUE29mG2Fm2kX,V4SGRU86Z58d6TV7PBUe6f:3:CL:schema-7:tag1,offer)"
    );
    let metadata = w.registry.load(meta).unwrap();
    assert_eq!(metadata.type_tag(), TypeTag::CredentialRequestMetadata);
    assert_eq!(metadata.encoding(), "meta(secret,default)");
    assert!(w.registry.load(w.definition).is_ok());
    assert!(w.registry.load(w.secret).is_ok());
    assert!(w.registry.load(w.offer).is_ok());
}

#[test]
fn an_omitted_master_secret_label_is_an_input_failure() {
    let mut w = world();
    let mut last_error = LastError::new();
    let (mut req, mut meta) = (ObjectHandle(0), ObjectHandle(0));
    let code = credx_create_credential_request(
        &mut w.registry,
        &mut last_error,
        generate_request,
        Some(PROVER),
        w.definition,
        w.secret,
        None,
        w.offer,
        &mut req,
        &mut meta,
    );
    assert_eq!(code, ErrorCode::Input);
    assert_ne!(code, ErrorCode::HandleNotFound);
    assert_ne!(code, ErrorCode::TypeMismatch);
    assert_eq!(last_error.kind(), Some(ErrorKind::Input));
    assert_eq!(last_error.message(), Some("Missing required text argument".to_string()));
    assert_eq!((req, meta), (ObjectHandle(0), ObjectHandle(0)));
    assert!(!w.registry.contains(ObjectHandle(7)));

    let code = credx_create_credential_request(
        &mut w.registry,
        &mut last_error,
        generate_request,
        Some(PROVER),
        ObjectHandle(99),
        w.secret,
        Some("default"),
        w.offer,
        &mut req,
        &mut meta,
    );
    assert_eq!(code, ErrorCode::HandleNotFound);
    assert_eq!(last_error.kind(), Some(ErrorKind::HandleNotFound));
}

#[test]
fn the_label_is_passed_on_unchecked() {
    let mut w = world();
    let seen = Cell::new(None);
    create_credential_request(
        &mut w.registry,
        Some(PROVER),
        w.definition,
        w.secret,
        Some(""),
        w.offer,
        |did: &DidValue,
         definition: &CredentialDefinition,
         secret: &MasterSecret,
         label: &str,
         offer: &CredentialOffer| {
            seen.set(Some((
                did.0.clone(),
                definition.id.clone(),
                secret.encoding.clone(),
                label.to_string(),
                offer.encoding.clone(),
            )));
            generate_request(did, definition, secret, label, offer)
        },
    )
    .unwrap();
    assert_eq!(
        seen.take(),
        Some((
            PROVER.to_string(),
            "V4SGRU86Z58d6TV7PBUe6f:3:CL:schema-7:tag1".to_string(),
            "secret".to_string(),
            "".to_string(),
            "offer".to_string(),
        ))
    );
}

#[test]
fn each_handle_is_resolved_and_type_checked() {
    let mut w = world();
    let (definition, secret, offer) = (w.definition, w.secret, w.offer);
    let mut attempt = |cred_def: ObjectHandle, master_secret: ObjectHandle, cred_offer: ObjectHandle| {
        create_credential_request(
            &mut w.registry,
            Some(PROVER),
            cred_def,
            master_secret,
            Some("default"),
            cred_offer,
            generate_request,
        )
        .unwrap_err()
    };
    let missing = ObjectHandle(500);
    assert_eq!(attempt(missing, secret, offer).kind, ErrorKind::HandleNotFound);
    assert_eq!(attempt(definition, missing, offer).kind, ErrorKind::HandleNotFound);
    assert_eq!(attempt(definition, secret, missing).kind, ErrorKind::HandleNotFound);
    assert_eq!(
        attempt(secret, secret, offer),
        Failure::new(
            ErrorKind::TypeMismatch,
            "Expected CredentialDefinition instance, received MasterSecret"
        )
    );
    assert_eq!(
        attempt(definition, offer, offer),
        Failure::new(
            ErrorKind::TypeMismatch,
            "Expected MasterSecret instance, received CredentialOffer"
        )
    );
    assert_eq!(
        attempt(definition, secret, definition),
        Failure::new(
            ErrorKind::TypeMismatch,
            "Expected CredentialOffer instance, received CredentialDefinition"
        )
    );
    assert_eq!(attempt(missing, missing, missing).kind, ErrorKind::HandleNotFound);
}

#[test]
fn a_private_key_is_no_credential_definition() {
    let mut registry = Registry::new();
    let schema = registry.create(Schema { encoding: "schema-7".to_string() }).unwrap();
    let (_, private_key, _) = create_credential_definition(
        &mut registry,
        Some(ISSUER),
        schema,
        None,
        Some("CL"),
        0,
        generate_definition,
    )
    .unwrap();
    let secret = registry.create(MasterSecret { encoding: "secret".to_string() }).unwrap();
    let offer = registry.create(CredentialOffer { encoding: "offer".to_string() }).unwrap();
    let failure = create_credential_request(
        &mut registry,
        Some(PROVER),
        private_key,
        secret,
        Some("default"),
        offer,
        generate_request,
    )
    .unwrap_err();
    assert_eq!(failure.kind, ErrorKind::TypeMismatch);
}

#[test]
fn a_malformed_prover_identifier_comes_first() {
    let mut w = world();
    let failure = create_credential_request(
        &mut w.registry,
        Some("not a did!"),
        ObjectHandle(500),
        w.secret,
        None,
        w.offer,
        generate_request,
    )
    .unwrap_err();
    assert_eq!(failure.kind, ErrorKind::Input);
    assert_eq!(
        failure.message,
        "Validation error: Conversion error: Error decoding base58 data"
    );
    let failure = create_credential_request(
        &mut w.registry,
        None,
        w.definition,
        w.secret,
        Some("default"),
        w.offer,
        generate_request,
    )
    .unwrap_err();
    assert_eq!(failure, Failure::new(ErrorKind::Input, "Missing required text argument"));
}

#[test]
fn a_failed_derivation_registers_nothing() {
    let mut w = world();
    let mut last_error = LastError::new();
    let (mut req, mut meta) = (ObjectHandle(41), ObjectHandle(42));
    let code = credx_create_credential_request(
        &mut w.registry,
        &mut last_error,
        |_: &DidValue, _: &CredentialDefinition, _: &MasterSecret, _: &str, _: &CredentialOffer| {
            Err(Failure::new(ErrorKind::Crypto, "offer does not match the definition"))
        },
        Some(PROVER),
        w.definition,
        w.secret,
        Some("default"),
        w.offer,
        &mut req,
        &mut meta,
    );
    assert_eq!(code, ErrorCode::Crypto);
    assert_eq!(code.number(), 4);
    assert_eq!(last_error.kind(), Some(ErrorKind::Crypto));
    assert_eq!(last_error.message(), Some("offer does not match the definition".to_string()));
    assert_eq!((req, meta), (ObjectHandle(41), ObjectHandle(42)));
    assert!(!w.registry.contains(ObjectHandle(7)));
}

#[test]
fn two_handles_or_none() {
    let artifacts = || {
        Ok((
            CredentialRequest { encoding: "req".to_string() },
            CredentialRequestMetadata { encoding: "meta".to_string() },
        ))
    };
    for issued in [usize::MAX, usize::MAX - 1] {
        let mut registry = Registry::starting_after(issued);
        let failure = register_credential_request(&mut registry, artifacts()).unwrap_err();
        assert_eq!(failure, Failure::new(ErrorKind::Resource, "Object handles are exhausted"));
        assert_eq!(registry.remaining(), usize::MAX - issued);
        assert!(!registry.contains(ObjectHandle(usize::MAX)));
    }
    let mut registry = Registry::starting_after(usize::MAX - 2);
    let handles = register_credential_request(&mut registry, artifacts()).unwrap();
    assert_eq!(handles, (ObjectHandle(usize::MAX - 1), ObjectHandle(usize::MAX)));
    let failure = Failure::new(ErrorKind::Crypto, "rejected");
    assert_eq!(register_credential_request(&mut registry, Err(failure.clone())), Err(failure));
}
