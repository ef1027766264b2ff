//! Export manifests and the verification of their signatures.
//!
//! A manifest is a JSON document. The verifier reads one field of it, the
//! identity of the exporter, and treats the rest as opaque: what was signed is
//! the document's canonical serialization, byte for byte. Anyone holding a
//! manifest and a signature may have them verified; nothing is changed by it.

use vstd::prelude::*;
use vstd::string::*;
use crate::encoding::{base64_decoded, decode_base64};
use crate::errors::AppError;
use crate::ids::{parse_id, uuid_parsed};
use crate::signature::{check_signature, signature_valid, SIGNATURE_LENGTH};

verus! {

/// A JSON document of the `serde_json` crate.
#[verifier::external_type_specification]
#[verifier::external_body]
pub struct ExJsonValue(serde_json::Value);

/// The error of the `serde_json` crate.
#[verifier::external_type_specification]
#[verifier::external_body]
pub struct ExJsonError(serde_json::Error);

/// What a JSON document holds under a key: the member of that name where the
/// document is an object that has one, nothing otherwise.
pub uninterp spec fn json_member(document: serde_json::Value, key: Seq<char>) -> Option<
    serde_json::Value,
>;

/// What a JSON document holds as text: its characters where the document is a
/// string, nothing otherwise.
pub uninterp spec fn json_string(document: serde_json::Value) -> Option<Seq<char>>;

/// The canonical serialization of a JSON document: the compact form that the
/// `serde_json` crate writes, the members of every object in the order of
/// their keys. Nothing where the crate fails to write the document.
pub uninterp spec fn json_canonical(document: serde_json::Value) -> Option<Seq<u8>>;

/// The `serde_json` crate's `Value::get` with a string key. The crate looks
/// at nothing but the document and the key, so what it returns is
/// `json_member` of the two.
#[verifier::external_body]
fn member<'a>(document: &'a serde_json::Value, key: &str) -> (r: Option<&'a serde_json::Value>)
    ensures
        match r {
            Some(found) => json_member(*document, key@) == Some(*found),
            None => json_member(*document, key@) is None,
        },
{
    document.get(key)
}

/// The `serde_json` crate's `Value::as_str`: the text of a document that is a
/// string, nothing for any other document.
#[verifier::external_body]
fn string_of<'a>(document: &'a serde_json::Value) -> (r: Option<&'a str>)
    ensures
        match r {
            Some(text) => json_string(*document) == Some(text@),
            None => json_string(*document) is None,
        },
{
    document.as_str()
}

/// The `serde_json` crate's `to_vec` on a document. The crate writes nothing
/// but what the document holds, so what it returns is `json_canonical` of the
/// document.
#[verifier::external_body]
fn canonical_bytes(document: &serde_json::Value) -> (r: Result<Vec<u8>, serde_json::Error>)
    ensures
        match r {
            Ok(bytes) => json_canonical(*document) == Some(bytes@),
            Err(_) => json_canonical(*document) is None,
        },
{
    serde_json::to_vec(document)
}

/// Who exported a backup.
pub struct ExportManifestExporter {
    pub user_id: u128,
}

/// An export manifest: the one field that is read, and the document itself,
/// which is only ever serialized.
pub struct ExportManifest {
    pub exported_by: ExportManifestExporter,
    pub document: serde_json::Value,
}

/// A manifest with its detached signature in transport encoding.
pub struct VerifyExportRequest {
    pub manifest: serde_json::Value,
    pub signature: String,
}

/// A user as the directory knows them.
pub struct UserRecord {
    pub id: u128,
    pub username: String,
    pub display_name: Option<String>,
    /// The registered public key. It may be a key for another scheme.
    pub identity_key: Vec<u8>,
}

/// Who signed, as far as the caller is told.
pub struct VerifyExportSigner {
    pub user_id: u128,
    pub username: String,
    pub display_name: Option<String>,
}

/// The answer to a verification.
pub struct VerifyExportResponse {
    pub valid: bool,
    pub signer: Option<VerifyExportSigner>,
    pub identity_key_matches: bool,
}

/// A request that was found well-formed, before the signer is looked up.
pub struct VerifySession {
    pub manifest: ExportManifest,
    /// The signature, decoded.
    pub signature: Vec<u8>,
}

/// The text under `exported_by.user_id` of a manifest, if there is one.
pub open spec fn signer_field(document: serde_json::Value) -> Option<Seq<char>> {
    match json_member(document, "exported_by"@) {
        Some(exporter) => match json_member(exporter, "user_id"@) {
            Some(user_id) => json_string(user_id),
            None => None,
        },
        None => None,
    }
}

/// The identity of the exporter that a manifest names, if it names one.
pub open spec fn signer_of(document: serde_json::Value) -> Option<u128> {
    match signer_field(document) {
        Some(text) => uuid_parsed(text),
        None => None,
    }
}

/// The signature that a request carries: what its transport encoding decodes
/// to, if that has the length of a signature.
pub open spec fn signature_of(encoded: Seq<char>) -> Option<Seq<u8>> {
    match base64_decoded(encoded) {
        Some(bytes) => if bytes.len() == SIGNATURE_LENGTH {
            Some(bytes)
        } else {
            None
        },
        None => None,
    }
}

impl ExportManifest {
    /// Reads the exporter's identity out of a manifest.
    pub fn read(document: serde_json::Value) -> (r: Option<ExportManifest>)
        ensures
            match r {
                Some(manifest) => manifest.document == document && signer_of(document) == Some(
                    manifest.exported_by.user_id,
                ),
                None => signer_of(document) is None,
            },
    {
        let found = match member(&document, "exported_by") {
            Some(exporter) => match member(exporter, "user_id") {
                Some(user_id) => match string_of(user_id) {
                    Some(text) => parse_id(text),
                    None => None,
                },
                None => None,
            },
            None => None,
        };
        match found {
            Some(user_id) => Some(
                ExportManifest { exported_by: ExportManifestExporter { user_id }, document },
            ),
            None => None,
        }
    }
}

/// Checks a request before anything is looked up.
///
/// The request is refused as invalid where the manifest names no exporter, or
/// where the signature is malformed or is not 64 bytes long; no key is looked
/// up and no signature is checked for such a request.
pub fn open_verification(request: VerifyExportRequest) -> (r: Result<VerifySession, AppError>)
    ensures
        match r {
            Ok(session) => {
                &&& session.manifest.document == request.manifest
                &&& signer_of(request.manifest) == Some(session.manifest.exported_by.user_id)
                &&& signature_of(request.signature@) == Some(session.signature@)
            },
            Err(e) => {
                &&& e is Validation
                &&& signer_of(request.manifest) is None || signature_of(request.signature@) is None
            },
        },
{
    let VerifyExportRequest { manifest, signature } = request;
    let manifest = match ExportManifest::read(manifest) {
        Some(manifest) => manifest,
        None => {
            return Err(AppError::validation("manifest.exported_by.user_id is required"));
        },
    };
    let signature = match decode_base64(signature.as_str()) {
        Some(bytes) => bytes,
        None => {
            return Err(AppError::validation("Invalid base64 signature"));
        },
    };
    if signature.len() != SIGNATURE_LENGTH {
        return Err(AppError::validation("Signature must be 64 bytes (Ed25519)"));
    }
    Ok(VerifySession { manifest, signature })
}

/// What a verification answers, given what the directory holds for the signer.
pub open spec fn verdict(session: VerifySession, user: UserRecord) -> Option<bool> {
    match json_canonical(session.manifest.document) {
        Some(message) => Some(signature_valid(user.identity_key@, message, session.signature@)),
        None => None,
    }
}

/// Verifies the signature of a manifest against the signer's registered key.
///
/// `user` is what the directory holds under the identity that the manifest
/// names. An unknown signer is an error; a signature that does not match is
/// not: it is the answer `valid = false`, and so is a registered key that is
/// not 32 bytes long.
pub fn verify_export(session: &VerifySession, user: Option<UserRecord>) -> (r: Result<
    VerifyExportResponse,
    AppError,
>)
    ensures
        match user {
            None => r matches Err(e) && e is NotFound,
            Some(user) => match verdict(*session, user) {
                None => r matches Err(e) && e is Validation,
                Some(valid) => {
                    &&& r matches Ok(response)
                    &&& response.valid == valid
                    &&& response.identity_key_matches == valid
                    &&& response.signer matches Some(signer)
                    &&& signer.user_id == user.id
                    &&& signer.username == user.username
                    &&& signer.display_name == user.display_name
                },
            },
        },
{
    let user = match user {
        Some(user) => user,
        None => {
            return Err(AppError::not_found("Signer not found"));
        },
    };
    let message = match canonical_bytes(&session.manifest.document) {
        Ok(bytes) => bytes,
        Err(_) => {
            return Err(AppError::validation("Failed to serialize manifest"));
        },
    };
    let valid = check_signature(
        user.identity_key.as_slice(),
        message.as_slice(),
        session.signature.as_slice(),
    );
    let signer = VerifyExportSigner {
        user_id: user.id,
        username: user.username,
        display_name: user.display_name,
    };
    Ok(VerifyExportResponse { valid, signer: Some(signer), identity_key_matches: valid })
}

/// A signature that does not decode to 64 bytes is refused as invalid, and no
/// session comes of the request: no signature check is ever attempted for it.
pub proof fn law_wrong_length_is_refused(encoded: Seq<char>)
    requires
        base64_decoded(encoded) matches Some(bytes) && bytes.len() != SIGNATURE_LENGTH,
    ensures
        signature_of(encoded) is None,
{
}

/// Against a registered key that is not 32 bytes long no signature is valid,
/// yet the verification answers: such a key is no error.
pub proof fn law_foreign_key_is_no_error(session: VerifySession, user: UserRecord)
    requires
        user.identity_key@.len() != 32,
        json_canonical(session.manifest.document) is Some,
    ensures
        verdict(session, user) == Some(false),
{
}

} // verus!
