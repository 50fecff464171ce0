//! Request and response envelopes for a transport layer fronting the
//! registry, together with the surface-level input validation the transport
//! performs before invoking the core.
//!
//! The envelopes are plain data; the constructors and validators are
//! verified, so a transport built on them reports exactly the messages and
//! status codes stated here.

use vstd::prelude::*;

use crate::errors::RegistryError;
use crate::registry::Certificate;

verus! {

/// Body of an initialization request.
#[derive(Debug)]
pub struct InitRequest {
    pub admin_address: String,
}

/// Body of an issuance request.
#[derive(Debug)]
pub struct IssueCertificateRequest {
    pub cert_id: String,
    pub metadata_hash: String,
    pub owner_address: String,
}

/// Body of a verification request.
#[derive(Debug)]
pub struct VerifyCertificateRequest {
    pub metadata_hash: String,
}

/// Body of a transfer request.
#[derive(Debug)]
pub struct TransferCertificateRequest {
    pub new_owner_address: String,
    pub current_owner_secret_key: String,
}

/// Generic envelope for successful operations.
#[derive(Debug)]
pub struct ApiResponse<T> {
    pub success: bool,
    pub data: Option<T>,
    pub message: String,
}

/// Envelope of a health check, fixed to a string payload.
#[derive(Debug)]
pub struct HealthResponse {
    pub success: bool,
    pub data: Option<String>,
    pub message: String,
}

/// Envelope carrying a full certificate record.
#[derive(Debug)]
pub struct CertificateResponse {
    pub success: bool,
    pub data: Option<Certificate>,
    pub message: String,
}

/// Envelope carrying a transaction acknowledgement.
#[derive(Debug)]
pub struct TransactionApiResponse {
    pub success: bool,
    pub data: Option<TransactionResponse>,
    pub message: String,
}

/// Envelope carrying a verification answer.
#[derive(Debug)]
pub struct VerifyApiResponse {
    pub success: bool,
    pub data: Option<VerifyResponse>,
    pub message: String,
}

/// Envelope carrying an existence answer.
#[derive(Debug)]
pub struct ExistsApiResponse {
    pub success: bool,
    pub data: Option<ExistsResponse>,
    pub message: String,
}

/// Answer of a verification request.
#[derive(Debug)]
pub struct VerifyResponse {
    pub is_valid: bool,
    pub cert_id: String,
    pub metadata_hash: String,
}

/// Answer of an existence check.
#[derive(Debug)]
pub struct ExistsResponse {
    pub exists: bool,
    pub cert_id: String,
}

/// Acknowledgement of a submitted mutation.
#[derive(Debug)]
pub struct TransactionResponse {
    pub transaction_hash: String,
    pub status: String,
}

/// Envelope for failed operations.
#[derive(Debug)]
pub struct ErrorResponse {
    pub success: bool,
    pub error: String,
    pub code: u16,
}

impl<T> ApiResponse<T> {
    /// A successful envelope around a payload.
    pub fn success(data: T, message: String) -> (r: ApiResponse<T>)
        ensures
            r.success,
            r.data == Some(data),
            r.message == message,
    {
        ApiResponse { success: true, data: Some(data), message }
    }

    /// A successful envelope with a message alone.
    pub fn success_with_message(message: String) -> (r: ApiResponse<()>)
        ensures
            r.success,
            r.data == Some(()),
            r.message == message,
    {
        ApiResponse { success: true, data: Some(()), message }
    }

    /// A failed envelope with a message alone.
    pub fn error(message: String) -> (r: ApiResponse<()>)
        ensures
            !r.success,
            r.data is None,
            r.message == message,
    {
        ApiResponse { success: false, data: None, message }
    }
}

impl ErrorResponse {
    /// An error envelope with the given message and status code.
    pub fn new(error: String, code: u16) -> (r: ErrorResponse)
        ensures
            !r.success,
            r.error == error,
            r.code == code,
    {
        ErrorResponse { success: false, error, code }
    }

    /// An error envelope with the bad-request status code.
    pub fn bad_request(error: String) -> (r: ErrorResponse)
        ensures
            !r.success,
            r.error == error,
            r.code == 400,
    {
        Self::new(error, 400)
    }

    /// An error envelope with the not-found status code.
    pub fn not_found(error: String) -> (r: ErrorResponse)
        ensures
            !r.success,
            r.error == error,
            r.code == 404,
    {
        Self::new(error, 404)
    }

    /// An error envelope with the internal-error status code.
    pub fn internal_error(error: String) -> (r: ErrorResponse)
        ensures
            !r.success,
            r.error == error,
            r.code == 500,
    {
        Self::new(error, 500)
    }

    /// The error envelope a transport reports for a registry failure:
    /// `NotFound` maps to the not-found status, every other kind to the
    /// bad-request status, each with its descriptive message.
    pub fn for_registry_error(e: &RegistryError) -> (r: ErrorResponse)
        ensures
            !r.success,
            r.code == e.spec_status_code(),
            *e is NotInitialized ==> r.error@ == "Contract not initialized"@,
            *e is AuthorizationError ==> r.error@ == "Authorization failed"@,
            *e is DuplicateId ==> r.error@ == "Certificate already exists"@,
            *e is NotFound ==> r.error@ == "Certificate not found"@,
            *e is InvalidCertificate ==> r.error@ == "Cannot transfer invalid certificate"@,
    {
        Self::new(e.describe(), e.status_code())
    }
}

/// Reject an empty certificate id, exactly as the transport does before any
/// lookup.
pub fn validate_cert_id(cert_id: &String) -> (r: Option<ErrorResponse>)
    ensures
        r is None <==> cert_id@.len() > 0,
        r matches Some(e) ==> !e.success && e.code == 400 && e.error@
            == "Certificate ID cannot be empty"@,
{
    if cert_id.as_str().is_empty() {
        Some(ErrorResponse::bad_request("Certificate ID cannot be empty".to_owned()))
    } else {
        None
    }
}

/// Validate an issuance request: id, hash and owner must all be non-empty,
/// checked in that order.
pub fn validate_issue_request(req: &IssueCertificateRequest) -> (r: Option<ErrorResponse>)
    ensures
        r is None <==> req.cert_id@.len() > 0 && req.metadata_hash@.len() > 0
            && req.owner_address@.len() > 0,
        r matches Some(e) ==> !e.success && e.code == 400,
        req.cert_id@.len() == 0 ==> (r matches Some(e) && e.error@
            == "Certificate ID cannot be empty"@),
        req.cert_id@.len() > 0 && req.metadata_hash@.len() == 0 ==> (r matches Some(e) && e.error@
            == "Metadata hash cannot be empty"@),
        req.cert_id@.len() > 0 && req.metadata_hash@.len() > 0 && req.owner_address@.len() == 0
            ==> (r matches Some(e) && e.error@ == "Owner address cannot be empty"@),
{
    if req.cert_id.as_str().is_empty() {
        Some(ErrorResponse::bad_request("Certificate ID cannot be empty".to_owned()))
    } else if req.metadata_hash.as_str().is_empty() {
        Some(ErrorResponse::bad_request("Metadata hash cannot be empty".to_owned()))
    } else if req.owner_address.as_str().is_empty() {
        Some(ErrorResponse::bad_request("Owner address cannot be empty".to_owned()))
    } else {
        None
    }
}

/// Validate a verification request: the id from the path and the hash from
/// the body must both be non-empty, checked in that order.
pub fn validate_verify_request(cert_id: &String, req: &VerifyCertificateRequest) -> (r: Option<
    ErrorResponse,
>)
    ensures
        r is None <==> cert_id@.len() > 0 && req.metadata_hash@.len() > 0,
        r matches Some(e) ==> !e.success && e.code == 400,
        cert_id@.len() == 0 ==> (r matches Some(e) && e.error@
            == "Certificate ID cannot be empty"@),
        cert_id@.len() > 0 && req.metadata_hash@.len() == 0 ==> (r matches Some(e) && e.error@
            == "Metadata hash cannot be empty"@),
{
    if cert_id.as_str().is_empty() {
        Some(ErrorResponse::bad_request("Certificate ID cannot be empty".to_owned()))
    } else if req.metadata_hash.as_str().is_empty() {
        Some(ErrorResponse::bad_request("Metadata hash cannot be empty".to_owned()))
    } else {
        None
    }
}

/// Validate a transfer request: the id, the new owner and the current
/// owner's secret key must all be non-empty, checked in that order.
pub fn validate_transfer_request(cert_id: &String, req: &TransferCertificateRequest) -> (r: Option<
    ErrorResponse,
>)
    ensures
        r is None <==> cert_id@.len() > 0 && req.new_owner_address@.len() > 0
            && req.current_owner_secret_key@.len() > 0,
        r matches Some(e) ==> !e.success && e.code == 400,
        cert_id@.len() == 0 ==> (r matches Some(e) && e.error@
            == "Certificate ID cannot be empty"@),
        cert_id@.len() > 0 && req.new_owner_address@.len() == 0 ==> (r matches Some(e) && e.error@
            == "New owner address cannot be empty"@),
        cert_id@.len() > 0 && req.new_owner_address@.len() > 0
            && req.current_owner_secret_key@.len() == 0 ==> (r matches Some(e) && e.error@
            == "Current owner secret key cannot be empty"@),
{
    if cert_id.as_str().is_empty() {
        Some(ErrorResponse::bad_request("Certificate ID cannot be empty".to_owned()))
    } else if req.new_owner_address.as_str().is_empty() {
        Some(ErrorResponse::bad_request("New owner address cannot be empty".to_owned()))
    } else if req.current_owner_secret_key.as_str().is_empty() {
        Some(
            ErrorResponse::bad_request("Current owner secret key cannot be empty".to_owned()),
        )
    } else {
        None
    }
}

} // verus!
