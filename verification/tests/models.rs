//! Tests of the transport envelopes and the surface-level input validation.

use fashion_auth::errors::RegistryError;
use fashion_auth::models::ApiResponse;
use fashion_auth::models::ErrorResponse;
use fashion_auth::models::IssueCertificateRequest;
use fashion_auth::models::TransferCertificateRequest;
use fashion_auth::models::VerifyCertificateRequest;
use fashion_auth::models::validate_cert_id;
use fashion_auth::models::validate_issue_request;
use fashion_auth::models::validate_transfer_request;
use fashion_auth::models::validate_verify_request;

#[test]
fn test_api_response_success() {
    let r = ApiResponse::success("healthy".to_string(), "API is running".to_string());
    assert!(r.success);
    assert_eq!(r.data, Some("healthy".to_string()));
    assert_eq!(r.message, "API is running".to_string());
}

#[test]
fn test_api_response_success_with_message() {
    let r = ApiResponse::<()>::success_with_message("done".to_string());
    assert!(r.success);
    assert_eq!(r.data, Some(()));
    assert_eq!(r.message, "done".to_string());
}

#[test]
fn test_api_response_error() {
    let r = ApiResponse::<()>::error("went wrong".to_string());
    assert!(!r.success);
    assert_eq!(r.data, None);
    assert_eq!(r.message, "went wrong".to_string());
}

#[test]
fn test_error_response_constructors() {
    let r = ErrorResponse::new("boom".to_string(), 418);
    assert!(!r.success);
    assert_eq!(r.error, "boom".to_string());
    assert_eq!(r.code, 418);

    assert_eq!(ErrorResponse::bad_request("b".to_string()).code, 400);
    assert_eq!(ErrorResponse::not_found("n".to_string()).code, 404);
    assert_eq!(ErrorResponse::internal_error("i".to_string()).code, 500);
}

#[test]
fn test_error_response_for_registry_error() {
    let r = ErrorResponse::for_registry_error(&RegistryError::NotFound);
    assert_eq!(r.code, 404);
    assert_eq!(r.error, "Certificate not found".to_string());
    assert!(!r.success);

    let r = ErrorResponse::for_registry_error(&RegistryError::DuplicateId);
    assert_eq!(r.code, 400);
    assert_eq!(r.error, "Certificate already exists".to_string());

    let r = ErrorResponse::for_registry_error(&RegistryError::InvalidCertificate);
    assert_eq!(r.code, 400);
    assert_eq!(r.error, "Cannot transfer invalid certificate".to_string());

    let r = ErrorResponse::for_registry_error(&RegistryError::AuthorizationError);
    assert_eq!(r.code, 400);
    assert_eq!(r.error, "Authorization failed".to_string());

    let r = ErrorResponse::for_registry_error(&RegistryError::NotInitialized);
    assert_eq!(r.code, 400);
    assert_eq!(r.error, "Contract not initialized".to_string());
}

#[test]
fn test_validate_cert_id() {
    let e = validate_cert_id(&"".to_string()).unwrap();
    assert_eq!(e.error, "Certificate ID cannot be empty".to_string());
    assert_eq!(e.code, 400);

    assert!(validate_cert_id(&"CERT001".to_string()).is_none());
}

#[test]
fn test_issue_certificate_validation() {
    let req = IssueCertificateRequest {
        cert_id: "".to_string(),
        metadata_hash: "QmHash123".to_string(),
        owner_address: "GXXXXXXXXXXXXXXXXXXXXXXXXXXXXXXXXXXXXXXXXXXXXXXXXXXXXXXX".to_string(),
    };
    let e = validate_issue_request(&req).unwrap();
    assert!(!e.success);
    assert_eq!(e.error, "Certificate ID cannot be empty".to_string());

    let req = IssueCertificateRequest {
        cert_id: "CERT001".to_string(),
        metadata_hash: "".to_string(),
        owner_address: "GOWNER".to_string(),
    };
    let e = validate_issue_request(&req).unwrap();
    assert_eq!(e.error, "Metadata hash cannot be empty".to_string());

    let req = IssueCertificateRequest {
        cert_id: "CERT001".to_string(),
        metadata_hash: "QmHash123".to_string(),
        owner_address: "".to_string(),
    };
    let e = validate_issue_request(&req).unwrap();
    assert_eq!(e.error, "Owner address cannot be empty".to_string());

    let req = IssueCertificateRequest {
        cert_id: "CERT001".to_string(),
        metadata_hash: "QmHash123".to_string(),
        owner_address: "GOWNER".to_string(),
    };
    assert!(validate_issue_request(&req).is_none());
}

#[test]
fn test_verify_certificate_validation() {
    let e = validate_verify_request(
        &"CERT001".to_string(),
        &VerifyCertificateRequest { metadata_hash: "".to_string() },
    )
    .unwrap();
    assert!(!e.success);
    assert_eq!(e.error, "Metadata hash cannot be empty".to_string());
    assert_eq!(e.code, 400);

    let e = validate_verify_request(
        &"".to_string(),
        &VerifyCertificateRequest { metadata_hash: "QmHash123".to_string() },
    )
    .unwrap();
    assert_eq!(e.error, "Certificate ID cannot be empty".to_string());

    assert!(validate_verify_request(
        &"CERT001".to_string(),
        &VerifyCertificateRequest { metadata_hash: "QmHash123".to_string() },
    )
    .is_none());
}

#[test]
fn test_transfer_certificate_validation() {
    let e = validate_transfer_request(
        &"CERT001".to_string(),
        &TransferCertificateRequest {
            new_owner_address: "".to_string(),
            current_owner_secret_key: "test_secret_key".to_string(),
        },
    )
    .unwrap();
    assert!(!e.success);
    assert_eq!(e.error, "New owner address cannot be empty".to_string());

    let e = validate_transfer_request(
        &"CERT001".to_string(),
        &TransferCertificateRequest {
            new_owner_address: "GOWNER".to_string(),
            current_owner_secret_key: "".to_string(),
        },
    )
    .unwrap();
    assert_eq!(e.error, "Current owner secret key cannot be empty".to_string());

    let e = validate_transfer_request(
        &"".to_string(),
        &TransferCertificateRequest {
            new_owner_address: "GOWNER".to_string(),
            current_owner_secret_key: "test_secret_key".to_string(),
        },
    )
    .unwrap();
    assert_eq!(e.error, "Certificate ID cannot be empty".to_string());

    assert!(validate_transfer_request(
        &"CERT001".to_string(),
        &TransferCertificateRequest {
            new_owner_address: "GOWNER".to_string(),
            current_owner_secret_key: "test_secret_key".to_string(),
        },
    )
    .is_none());
}
