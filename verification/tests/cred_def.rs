use indy_credx::cred_def::{
    create_credential_definition, credential_definition_get_id,
    credx_create_credential_definition, credx_credential_definition_get_id,
    register_credential_definition, CredentialDefinitionConfig, SignatureType,
};
use indy_credx::error::{ErrorCode, ErrorKind, Failure, LastError};
use indy_credx::identifier::DidValue;
use indy_credx::object::{
    CredentialDefinition, CredentialDefinitionPrivate, IndyObject, KeyCorrectnessProof,
    MasterSecret, Schema, TypeTag,
};
use indy_credx::registry::{ObjectHandle, Registry};
use std::cell::Cell;

const DID: &str = "V4SGRU86Z58d6TV7PBUe6f";

type Artifacts = (CredentialDefinition, CredentialDefinitionPrivate, KeyCorrectnessProof);

fn generate(
    did: &DidValue,
    schema: &Schema,
    tag: &str,
    scheme: SignatureType,
    config: CredentialDefinitionConfig,
) -> Result<Artifacts, Failure> {
    let id = format!("{}:3:{}:{}:{}", did.0, scheme.to_str(), schema.encoding, tag);
    Ok((
        CredentialDefinition {
            id: id.clone(),
            encoding: format!("def({},{})", id, config.support_revocation),
        },
        CredentialDefinitionPrivate { encoding: format!("pvt({})", id) },
        KeyCorrectnessProof { encoding: format!("kcp({})", id) },
    ))
}

fn registry_with_schema() -> (Registry, ObjectHandle) {
    let mut registry = Registry::new();
    let schema = registry.create(Schema { encoding: "schema-7".to_string() }).unwrap();
    (registry, schema)
}

#[test]
fn signature_type_from_text() {
    assert_eq!(SignatureType::from_str("CL"), Ok(SignatureType::CL));
    assert_eq!(SignatureType::CL.to_str(), "CL");
    for bad in ["", "C", "cl", "CL ", "CLX", "LC", "ÇL"] {
        assert_eq!(
            SignatureType::from_str(bad),
            Err(Failure::new(ErrorKind::Input, "Invalid signature type"))
        );
    }
}

#[test]
fn creates_three_distinct_loadable_handles() {
    let (mut registry, schema) = registry_with_schema();
    let mut last_error = LastError::new();
    let (mut def, mut pvt, mut kcp) = (ObjectHandle(0), ObjectHandle(0), ObjectHandle(0));
    let code = credx_create_credential_definition(
        &mut registry,
        &mut last_error,
        generate,
        Some(DID),
        schema,
        Some("tag1"),
        Some("CL"),
        0,
        &mut def,
        &mut pvt,
        &mut kcp,
    );
    assert_eq!(code, ErrorCode::Success);
    assert_eq!(last_error.kind(), None);
    assert_eq!((def, pvt, kcp), (ObjectHandle(2), ObjectHandle(3), ObjectHandle(4)));
    assert_ne!(def, pvt);
    assert_ne!(def, kcp);
    assert_ne!(pvt, kcp);
    assert_eq!(registry.load(def).unwrap().type_tag(), TypeTag::CredentialDefinition);
    assert_eq!(registry.load(pvt).unwrap().type_tag(), TypeTag::CredentialDefinitionPrivate);
    assert_eq!(registry.load(kcp).unwrap().type_tag(), TypeTag::KeyCorrectnessProof);
    assert_eq!(
        registry.load(def).unwrap().encoding(),
        "def(V4SGRU86Z58d6TV7PBUe6f:3:CL:schema-7:tag1,false)"
    );
    assert_eq!(
        registry.load(pvt).unwrap().encoding(),
        "pvt(V4SGRU86Z58d6TV7PBUe6f:3:CL:schema-7:tag1)"
    );
    assert_eq!(
        registry.load(kcp).unwrap().encoding(),
        "kcp(V4SGRU86Z58d6TV7PBUe6f:3:CL:schema-7:tag1)"
    );
    assert_eq!(registry.load(schema).unwrap().encoding(), "schema-7");

    registry.release(pvt).unwrap();
    assert!(registry.load(def).is_ok());
    assert!(registry.load(kcp).is_ok());
    assert_eq!(registry.load(pvt).unwrap_err().kind, ErrorKind::HandleNotFound);
}

#[test]
fn the_identifier_is_the_same_for_the_same_inputs() {
    let (mut registry, schema) = registry_with_schema();
    let first =
        create_credential_definition(&mut registry, Some(DID), schema, None, Some("CL"), 0, generate)
            .unwrap();
    let second =
        create_credential_definition(&mut registry, Some(DID), schema, None, Some("CL"), 0, generate)
            .unwrap();
    assert_ne!(first.0, second.0);
    let id_first = credential_definition_get_id(&registry, first.0).unwrap();
    let id_again = credential_definition_get_id(&registry, first.0).unwrap();
    let id_second = credential_definition_get_id(&registry, second.0).unwrap();
    assert!(!id_first.is_empty());
    assert_eq!(id_first, "V4SGRU86Z58d6TV7PBUe6f:3:CL:schema-7:default");
    assert_eq!(id_first, id_again);
    assert_eq!(id_first, id_second);
}

#[test]
fn an_unresolvable_schema_writes_no_slot() {
    let mut registry = Registry::new();
    let mut last_error = LastError::new();
    let (mut def, mut pvt, mut kcp) = (ObjectHandle(71), ObjectHandle(72), ObjectHandle(73));
    let called = Cell::new(false);
    let code = credx_create_credential_definition(
        &mut registry,
        &mut last_error,
        |did: &DidValue,
         schema: &Schema,
         tag: &str,
         scheme: SignatureType,
         config: CredentialDefinitionConfig| {
            called.set(true);
            generate(did, schema, tag, scheme, config)
        },
        Some(DID),
        ObjectHandle(5),
        Some("tag1"),
        Some("CL"),
        0,
        &mut def,
        &mut pvt,
        &mut kcp,
    );
    assert_eq!(code, ErrorCode::HandleNotFound);
    assert_eq!(code.number(), 2);
    assert_eq!(last_error.kind(), Some(ErrorKind::HandleNotFound));
    assert_eq!(last_error.message(), Some("Invalid object handle".to_string()));
    assert_eq!((def, pvt, kcp), (ObjectHandle(71), ObjectHandle(72), ObjectHandle(73)));
    assert!(!called.get());
    assert_eq!(registry.remaining(), usize::MAX);
}

#[test]
fn a_released_schema_is_unresolvable() {
    let (mut registry, schema) = registry_with_schema();
    registry.release(schema).unwrap();
    let failure =
        create_credential_definition(&mut registry, Some(DID), schema, None, Some("CL"), 0, generate)
            .unwrap_err();
    assert_eq!(failure.kind, ErrorKind::HandleNotFound);
}

#[test]
fn a_handle_of_another_type_is_a_mismatch() {
    let mut registry = Registry::new();
    let secret = registry.create(MasterSecret { encoding: "ms".to_string() }).unwrap();
    let failure =
        create_credential_definition(&mut registry, Some(DID), secret, None, Some("CL"), 0, generate)
            .unwrap_err();
    assert_eq!(failure.kind, ErrorKind::TypeMismatch);
    assert_eq!(failure.message, "Expected Schema instance, received MasterSecret");
    assert_eq!(registry.remaining(), usize::MAX - 1);
}

#[test]
fn a_malformed_identifier_is_an_input_failure() {
    let (mut registry, schema) = registry_with_schema();
    let mut last_error = LastError::new();
    let (mut def, mut pvt, mut kcp) = (ObjectHandle(0), ObjectHandle(0), ObjectHandle(0));
    let code = credx_create_credential_definition(
        &mut registry,
        &mut last_error,
        generate,
        Some("not a did!"),
        schema,
        None,
        Some("CL"),
        0,
        &mut def,
        &mut pvt,
        &mut kcp,
    );
    assert_eq!(code, ErrorCode::Input);
    assert_eq!(last_error.kind(), Some(ErrorKind::Input));
    assert_eq!(
        last_error.message(),
        Some("Validation error: Conversion error: Error decoding base58 data".to_string())
    );
    assert_eq!((def, pvt, kcp), (ObjectHandle(0), ObjectHandle(0), ObjectHandle(0)));
    assert!(!registry.contains(ObjectHandle(2)));
}

#[test]
fn the_first_refused_argument_gives_the_failure() {
    let mut registry = Registry::new();
    let failure = create_credential_definition(
        &mut registry,
        Some("not a did!"),
        ObjectHandle(9),
        None,
        Some("XX"),
        0,
        generate,
    )
    .unwrap_err();
    assert_eq!(failure.kind, ErrorKind::Input);
    let failure =
        create_credential_definition(&mut registry, None, ObjectHandle(9), None, None, 0, generate)
            .unwrap_err();
    assert_eq!(failure, Failure::new(ErrorKind::Input, "Missing required text argument"));
    let failure = create_credential_definition(
        &mut registry,
        Some(DID),
        ObjectHandle(9),
        None,
        Some("XX"),
        0,
        generate,
    )
    .unwrap_err();
    assert_eq!(failure.kind, ErrorKind::HandleNotFound);
}

#[test]
fn an_unknown_signature_type_is_an_input_failure() {
    let (mut registry, schema) = registry_with_schema();
    let failure =
        create_credential_definition(&mut registry, Some(DID), schema, None, Some("XX"), 0, generate)
            .unwrap_err();
    assert_eq!(failure, Failure::new(ErrorKind::Input, "Invalid signature type"));
    let failure =
        create_credential_definition(&mut registry, Some(DID), schema, None, None, 0, generate)
            .unwrap_err();
    assert_eq!(failure, Failure::new(ErrorKind::Input, "Missing required text argument"));
    assert_eq!(registry.remaining(), usize::MAX - 1);
}

#[test]
fn the_generation_gets_the_validated_inputs() {
    let (mut registry, schema) = registry_with_schema();
    let seen = Cell::new(None);
    create_credential_definition(
        &mut registry,
        Some("did:sov:V4SGRU86Z58d6TV7PBUe6f"),
        schema,
        None,
        Some("CL"),
        0,
        |did: &DidValue,
         schema: &Schema,
         tag: &str,
         scheme: SignatureType,
         config: CredentialDefinitionConfig| {
            seen.set(Some((did.0.clone(), schema.encoding.clone(), tag.to_string(), scheme, config)));
            generate(did, schema, tag, scheme, config)
        },
    )
    .unwrap();
    assert_eq!(
        seen.take(),
        Some((
            "did:sov:V4SGRU86Z58d6TV7PBUe6f".to_string(),
            "schema-7".to_string(),
            "default".to_string(),
            SignatureType::CL,
            CredentialDefinitionConfig { support_revocation: false },
        ))
    );

    for flag in [1i8, -1, 127, -128] {
        let seen = Cell::new(None);
        create_credential_definition(
            &mut registry,
            Some(DID),
            schema,
            Some("rev"),
            Some("CL"),
            flag,
            |did: &DidValue,
             schema: &Schema,
             tag: &str,
             scheme: SignatureType,
             config: CredentialDefinitionConfig| {
                seen.set(Some((tag.to_string(), config.support_revocation)));
                generate(did, schema, tag, scheme, config)
            },
        )
        .unwrap();
        assert_eq!(seen.take(), Some(("rev".to_string(), true)));
    }
}

#[test]
fn a_failed_generation_registers_nothing() {
    let (mut registry, schema) = registry_with_schema();
    let mut last_error = LastError::new();
    let (mut def, mut pvt, mut kcp) = (ObjectHandle(0), ObjectHandle(0), ObjectHandle(0));
    let code = credx_create_credential_definition(
        &mut registry,
        &mut last_error,
        |_: &DidValue, _: &Schema, _: &str, _: SignatureType, _: CredentialDefinitionConfig| {
            Err(Failure::new(ErrorKind::Crypto, "key generation failed"))
        },
        Some(DID),
        schema,
        None,
        Some("CL"),
        0,
        &mut def,
        &mut pvt,
        &mut kcp,
    );
    assert_eq!(code, ErrorCode::Crypto);
    assert_eq!(last_error.message(), Some("key generation failed".to_string()));
    assert_eq!((def, pvt, kcp), (ObjectHandle(0), ObjectHandle(0), ObjectHandle(0)));
    assert_eq!(registry.remaining(), usize::MAX - 1);
    assert!(!registry.contains(ObjectHandle(2)));
}

#[test]
fn three_handles_or_none() {
    let artifacts = || generate(
        &DidValue(DID.to_string()),
        &Schema { encoding: "s".to_string() },
        "t",
        SignatureType::CL,
        CredentialDefinitionConfig { support_revocation: false },
    );
    for issued in [usize::MAX, usize::MAX - 1, usize::MAX - 2] {
        let mut registry = Registry::starting_after(issued);
        let failure = register_credential_definition(&mut registry, artifacts()).unwrap_err();
        assert_eq!(failure, Failure::new(ErrorKind::Resource, "Object handles are exhausted"));
        assert_eq!(registry.remaining(), usize::MAX - issued);
        assert!(!registry.contains(ObjectHandle(usize::MAX)));
        assert!(!registry.contains(ObjectHandle(usize::MAX - 1)));
    }
    let mut registry = Registry::starting_after(usize::MAX - 3);
    let handles = register_credential_definition(&mut registry, artifacts()).unwrap();
    assert_eq!(
        handles,
        (ObjectHandle(usize::MAX - 2), ObjectHandle(usize::MAX - 1), ObjectHandle(usize::MAX))
    );
    assert_eq!(registry.remaining(), 0);
}

#[test]
fn registering_a_failed_outcome_hands_the_failure_on() {
    let mut registry = Registry::new();
    let failure = Failure::new(ErrorKind::Crypto, "rejected");
    assert_eq!(register_credential_definition(&mut registry, Err(failure.clone())), Err(failure));
    assert_eq!(registry.remaining(), usize::MAX);
}

#[test]
fn get_id_reads_the_identifier() {
    let mut registry = Registry::new();
    let schema = registry.create(Schema { encoding: "s".to_string() }).unwrap();
    let def = registry
        .create(CredentialDefinition { id: "did:3:CL:15:tag".to_string(), encoding: "{}".to_string() })
        .unwrap();
    let mut last_error = LastError::new();
    let mut slot = String::from("untouched");

    let code = credx_credential_definition_get_id(&registry, &mut last_error, def, &mut slot);
    assert_eq!(code, ErrorCode::Success);
    assert_eq!(slot, "did:3:CL:15:tag");
    assert_eq!(last_error.kind(), None);

    let mut slot = String::from("untouched");
    let code = credx_credential_definition_get_id(&registry, &mut last_error, schema, &mut slot);
    assert_eq!(code, ErrorCode::TypeMismatch);
    assert_eq!(slot, "untouched");
    assert_eq!(
        last_error.message(),
        Some("Expected CredentialDefinition instance, received Schema".to_string())
    );

    let code =
        credx_credential_definition_get_id(&registry, &mut last_error, ObjectHandle(0), &mut slot);
    assert_eq!(code, ErrorCode::HandleNotFound);
    assert_eq!(slot, "untouched");
    assert_eq!(last_error.kind(), Some(ErrorKind::HandleNotFound));

    let code = credx_credential_definition_get_id(&registry, &mut last_error, def, &mut slot);
    assert_eq!(code, ErrorCode::Success);
    assert_eq!(last_error.kind(), None);
    assert_eq!(
        *registry.load(def).unwrap(),
        IndyObject::CredentialDefinition(CredentialDefinition {
            id: "did:3:CL:15:tag".to_string(),
            encoding: "{}".to_string()
        })
    );
}
