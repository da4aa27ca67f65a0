//! The object registry: handles, type-tagged objects, and the table that
//! owns them.

use crate::error::{ErrorKind, Failure, FailureView};
use std::collections::HashMap;
use vstd::prelude::*;
use vstd::string::StringExecFns;

verus! {

/// The concrete type of a registered object.
#[derive(Clone, Copy, Debug, PartialEq, Eq, Hash, Structural)]
pub enum TypeTag {
    Schema,
    CredentialDefinition,
    CredentialDefinitionPrivate,
    KeyCorrectnessProof,
    CredentialRequest,
    CredentialRequestMetadata,
    MasterSecret,
    CredentialOffer,
}

impl TypeTag {
    /// The name under which failures mention the type.
    pub open spec fn name_spec(self) -> Seq<char> {
        match self {
            TypeTag::Schema => "Schema"@,
            TypeTag::CredentialDefinition => "CredentialDefinition"@,
            TypeTag::CredentialDefinitionPrivate => "CredentialDefinitionPrivate"@,
            TypeTag::KeyCorrectnessProof => "KeyCorrectnessProof"@,
            TypeTag::CredentialRequest => "CredentialRequest"@,
            TypeTag::CredentialRequestMetadata => "CredentialRequestMetadata"@,
            TypeTag::MasterSecret => "MasterSecret"@,
            TypeTag::CredentialOffer => "CredentialOffer"@,
        }
    }

    pub fn name(self) -> (name: &'static str)
        ensures
            name@ == self.name_spec(),
    {
        match self {
            TypeTag::Schema => "Schema",
            TypeTag::CredentialDefinition => "CredentialDefinition",
            TypeTag::CredentialDefinitionPrivate => "CredentialDefinitionPrivate",
            TypeTag::KeyCorrectnessProof => "KeyCorrectnessProof",
            TypeTag::CredentialRequest => "CredentialRequest",
            TypeTag::CredentialRequestMetadata => "CredentialRequestMetadata",
            TypeTag::MasterSecret => "MasterSecret",
            TypeTag::CredentialOffer => "CredentialOffer",
        }
    }
}

/// A schema: supplied from outside and only read here.
#[derive(Clone, Debug, PartialEq, Eq)]
pub struct Schema {
    /// The text encoding of the schema.
    pub encoding: String,
}

/// The public parameters of an issuer for one schema.
#[derive(Clone, Debug, PartialEq, Eq)]
pub struct CredentialDefinition {
    /// The identifier derived for the definition when it was generated.
    pub id: String,
    /// The text encoding of the definition.
    pub encoding: String,
}

/// The issuer's private signing material for one credential definition.
/// It belongs to exactly one definition and is never handed to another party.
#[derive(Clone, Debug, PartialEq, Eq)]
pub struct CredentialDefinitionPrivate {
    pub encoding: String,
}

/// The proof that the keys of one credential definition are well formed.
/// It belongs to exactly one definition and may be published with it.
#[derive(Clone, Debug, PartialEq, Eq)]
pub struct KeyCorrectnessProof {
    pub encoding: String,
}

/// A holder's blinded request, sent to the issuer.
#[derive(Clone, Debug, PartialEq, Eq)]
pub struct CredentialRequest {
    pub encoding: String,
}

/// The blinding factors of one credential request. The holder keeps them to
/// unblind the credential that the issuer returns; they cannot be recovered
/// from the request and are never sent to the issuer.
#[derive(Clone, Debug, PartialEq, Eq)]
pub struct CredentialRequestMetadata {
    pub encoding: String,
}

/// The holder's secret, blinded into each credential request.
#[derive(Clone, Debug, PartialEq, Eq)]
pub struct MasterSecret {
    pub encoding: String,
}

/// The issuer's offer, against which a holder builds a request.
#[derive(Clone, Debug, PartialEq, Eq)]
pub struct CredentialOffer {
    pub encoding: String,
}

/// A registered object: a value together with its concrete type.
#[derive(Clone, Debug, PartialEq, Eq)]
pub enum IndyObject {
    Schema(Schema),
    CredentialDefinition(CredentialDefinition),
    CredentialDefinitionPrivate(CredentialDefinitionPrivate),
    KeyCorrectnessProof(KeyCorrectnessProof),
    CredentialRequest(CredentialRequest),
    CredentialRequestMetadata(CredentialRequestMetadata),
    MasterSecret(MasterSecret),
    CredentialOffer(CredentialOffer),
}

/// The failure for a handle that is unknown or released.
pub open spec fn handle_not_found() -> FailureView {
    FailureView { kind: ErrorKind::HandleNotFound, message: "Invalid object handle"@ }
}

/// The failure for a registry that has issued every handle it can.
pub open spec fn handles_exhausted() -> FailureView {
    FailureView { kind: ErrorKind::Resource, message: "Object handles are exhausted"@ }
}

/// The failure for an object of another type than the one asked for.
pub open spec fn type_mismatch(expected: TypeTag, actual: TypeTag) -> FailureView {
    FailureView {
        kind: ErrorKind::TypeMismatch,
        message: "Expected "@ + expected.name_spec() + " instance, received "@
            + actual.name_spec(),
    }
}

impl IndyObject {
    /// The concrete type of the object.
    pub open spec fn type_tag_spec(self) -> TypeTag {
        match self {
            IndyObject::Schema(_) => TypeTag::Schema,
            IndyObject::CredentialDefinition(_) => TypeTag::CredentialDefinition,
            IndyObject::CredentialDefinitionPrivate(_) => TypeTag::CredentialDefinitionPrivate,
            IndyObject::KeyCorrectnessProof(_) => TypeTag::KeyCorrectnessProof,
            IndyObject::CredentialRequest(_) => TypeTag::CredentialRequest,
            IndyObject::CredentialRequestMetadata(_) => TypeTag::CredentialRequestMetadata,
            IndyObject::MasterSecret(_) => TypeTag::MasterSecret,
            IndyObject::CredentialOffer(_) => TypeTag::CredentialOffer,
        }
    }

    /// The text encoding that the object holds.
    pub open spec fn encoding_spec(self) -> Seq<char> {
        match self {
            IndyObject::Schema(v) => v.encoding@,
            IndyObject::CredentialDefinition(v) => v.encoding@,
            IndyObject::CredentialDefinitionPrivate(v) => v.encoding@,
            IndyObject::KeyCorrectnessProof(v) => v.encoding@,
            IndyObject::CredentialRequest(v) => v.encoding@,
            IndyObject::CredentialRequestMetadata(v) => v.encoding@,
            IndyObject::MasterSecret(v) => v.encoding@,
            IndyObject::CredentialOffer(v) => v.encoding@,
        }
    }

    pub fn type_tag(&self) -> (tag: TypeTag)
        ensures
            tag == self.type_tag_spec(),
    {
        match self {
            IndyObject::Schema(_) => TypeTag::Schema,
            IndyObject::CredentialDefinition(_) => TypeTag::CredentialDefinition,
            IndyObject::CredentialDefinitionPrivate(_) => TypeTag::CredentialDefinitionPrivate,
            IndyObject::KeyCorrectnessProof(_) => TypeTag::KeyCorrectnessProof,
            IndyObject::CredentialRequest(_) => TypeTag::CredentialRequest,
            IndyObject::CredentialRequestMetadata(_) => TypeTag::CredentialRequestMetadata,
            IndyObject::MasterSecret(_) => TypeTag::MasterSecret,
            IndyObject::CredentialOffer(_) => TypeTag::CredentialOffer,
        }
    }

    pub fn encoding(&self) -> (text: &str)
        ensures
            text@ == self.encoding_spec(),
    {
        match self {
            IndyObject::Schema(v) => v.encoding.as_str(),
            IndyObject::CredentialDefinition(v) => v.encoding.as_str(),
            IndyObject::CredentialDefinitionPrivate(v) => v.encoding.as_str(),
            IndyObject::KeyCorrectnessProof(v) => v.encoding.as_str(),
            IndyObject::CredentialRequest(v) => v.encoding.as_str(),
            IndyObject::CredentialRequestMetadata(v) => v.encoding.as_str(),
            IndyObject::MasterSecret(v) => v.encoding.as_str(),
            IndyObject::CredentialOffer(v) => v.encoding.as_str(),
        }
    }

    /// The object as a value of type `O`, where that is its concrete type;
    /// a `TypeMismatch` that names both types where it is not.
    pub fn cast_ref<O: AnyIndyObject>(&self) -> (result: Result<&O, Failure>)
        ensures
            match result {
                Ok(value) => self.type_tag_spec() == O::tag_spec() && value.wrap_spec() == *self,
                Err(failure) => self.type_tag_spec() != O::tag_spec() && failure@ == type_mismatch(
                    O::tag_spec(),
                    self.type_tag_spec(),
                ),
            },
    {
        match O::from_object(self) {
            Some(value) => {
                proof {
                    value.lemma_wrap_tag();
                }
                Ok(value)
            },
            None => {
                let message = "Expected ".to_owned().concat(O::type_tag().name()).concat(
                    " instance, received ",
                ).concat(self.type_tag().name());
                Err(Failure { kind: ErrorKind::TypeMismatch, message })
            },
        }
    }
}

/// A type of value that the registry can hold.
pub trait AnyIndyObject: Sized {
    /// The tag of this type.
    spec fn tag_spec() -> TypeTag;

    /// The value as a registered object.
    spec fn wrap_spec(self) -> IndyObject;

    /// A value wrapped as an object carries the tag of its type.
    proof fn lemma_wrap_tag(self)
        ensures
            self.wrap_spec().type_tag_spec() == Self::tag_spec(),
    ;

    fn type_tag() -> (tag: TypeTag)
        ensures
            tag == Self::tag_spec(),
    ;

    fn into_object(self) -> (object: IndyObject)
        ensures
            object == self.wrap_spec(),
    ;

    /// The value inside an object of this type; nothing for an object of
    /// another type.
    fn from_object(object: &IndyObject) -> (value: Option<&Self>)
        ensures
            match value {
                Some(v) => v.wrap_spec() == *object,
                None => object.type_tag_spec() != Self::tag_spec(),
            },
    ;
}

impl AnyIndyObject for Schema {
    open spec fn tag_spec() -> TypeTag {
        TypeTag::Schema
    }

    open spec fn wrap_spec(self) -> IndyObject {
        IndyObject::Schema(self)
    }

    proof fn lemma_wrap_tag(self) {
    }

    fn type_tag() -> (tag: TypeTag) {
        TypeTag::Schema
    }

    fn into_object(self) -> (object: IndyObject) {
        IndyObject::Schema(self)
    }

    fn from_object(object: &IndyObject) -> (value: Option<&Self>) {
        match object {
            IndyObject::Schema(v) => Some(v),
            _ => None,
        }
    }
}

impl AnyIndyObject for CredentialDefinition {
    open spec fn tag_spec() -> TypeTag {
        TypeTag::CredentialDefinition
    }

    open spec fn wrap_spec(self) -> IndyObject {
        IndyObject::CredentialDefinition(self)
    }

    proof fn lemma_wrap_tag(self) {
    }

    fn type_tag() -> (tag: TypeTag) {
        TypeTag::CredentialDefinition
    }

    fn into_object(self) -> (object: IndyObject) {
        IndyObject::CredentialDefinition(self)
    }

    fn from_object(object: &IndyObject) -> (value: Option<&Self>) {
        match object {
            IndyObject::CredentialDefinition(v) => Some(v),
            _ => None,
        }
    }
}

impl AnyIndyObject for CredentialDefinitionPrivate {
    open spec fn tag_spec() -> TypeTag {
        TypeTag::CredentialDefinitionPrivate
    }

    open spec fn wrap_spec(self) -> IndyObject {
        IndyObject::CredentialDefinitionPrivate(self)
    }

    proof fn lemma_wrap_tag(self) {
    }

    fn type_tag() -> (tag: TypeTag) {
        TypeTag::CredentialDefinitionPrivate
    }

    fn into_object(self) -> (object: IndyObject) {
        IndyObject::CredentialDefinitionPrivate(self)
    }

    fn from_object(object: &IndyObject) -> (value: Option<&Self>) {
        match object {
            IndyObject::CredentialDefinitionPrivate(v) => Some(v),
            _ => None,
        }
    }
}

impl AnyIndyObject for KeyCorrectnessProof {
    open spec fn tag_spec() -> TypeTag {
        TypeTag::KeyCorrectnessProof
    }

    open spec fn wrap_spec(self) -> IndyObject {
        IndyObject::KeyCorrectnessProof(self)
    }

    proof fn lemma_wrap_tag(self) {
    }

    fn type_tag() -> (tag: TypeTag) {
        TypeTag::KeyCorrectnessProof
    }

    fn into_object(self) -> (object: IndyObject) {
        IndyObject::KeyCorrectnessProof(self)
    }

    fn from_object(object: &IndyObject) -> (value: Option<&Self>) {
        match object {
            IndyObject::KeyCorrectnessProof(v) => Some(v),
            _ => None,
        }
    }
}

impl AnyIndyObject for CredentialRequest {
    open spec fn tag_spec() -> TypeTag {
        TypeTag::CredentialRequest
    }

    open spec fn wrap_spec(self) -> IndyObject {
        IndyObject::CredentialRequest(self)
    }

    proof fn lemma_wrap_tag(self) {
    }

    fn type_tag() -> (tag: TypeTag) {
        TypeTag::CredentialRequest
    }

    fn into_object(self) -> (object: IndyObject) {
        IndyObject::CredentialRequest(self)
    }

    fn from_object(object: &IndyObject) -> (value: Option<&Self>) {
        match object {
            IndyObject::CredentialRequest(v) => Some(v),
            _ => None,
        }
    }
}

impl AnyIndyObject for CredentialRequestMetadata {
    open spec fn tag_spec() -> TypeTag {
        TypeTag::CredentialRequestMetadata
    }

    open spec fn wrap_spec(self) -> IndyObject {
        IndyObject::CredentialRequestMetadata(self)
    }

    proof fn lemma_wrap_tag(self) {
    }

    fn type_tag() -> (tag: TypeTag) {
        TypeTag::CredentialRequestMetadata
    }

    fn into_object(self) -> (object: IndyObject) {
        IndyObject::CredentialRequestMetadata(self)
    }

    fn from_object(object: &IndyObject) -> (value: Option<&Self>) {
        match object {
            IndyObject::CredentialRequestMetadata(v) => Some(v),
            _ => None,
        }
    }
}

impl AnyIndyObject for MasterSecret {
    open spec fn tag_spec() -> TypeTag {
        TypeTag::MasterSecret
    }

    open spec fn wrap_spec(self) -> IndyObject {
        IndyObject::MasterSecret(self)
    }

    proof fn lemma_wrap_tag(self) {
    }

    fn type_tag() -> (tag: TypeTag) {
        TypeTag::MasterSecret
    }

    fn into_object(self) -> (object: IndyObject) {
        IndyObject::MasterSecret(self)
    }

    fn from_object(object: &IndyObject) -> (value: Option<&Self>) {
        match object {
            IndyObject::MasterSecret(v) => Some(v),
            _ => None,
        }
    }
}

impl AnyIndyObject for CredentialOffer {
    open spec fn tag_spec() -> TypeTag {
        TypeTag::CredentialOffer
    }

    open spec fn wrap_spec(self) -> IndyObject {
        IndyObject::CredentialOffer(self)
    }

    proof fn lemma_wrap_tag(self) {
    }

    fn type_tag() -> (tag: TypeTag) {
        TypeTag::CredentialOffer
    }

    fn into_object(self) -> (object: IndyObject) {
        IndyObject::CredentialOffer(self)
    }

    fn from_object(object: &IndyObject) -> (value: Option<&Self>) {
        match object {
            IndyObject::CredentialOffer(v) => Some(v),
            _ => None,
        }
    }
}

} // verus!
