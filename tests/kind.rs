use firebase_auth::AuthErrorKind;

#[test]
fn classifies_app_deleted() {
    let k = AuthErrorKind::from_code("auth/app-deleted");
    assert!(matches!(k, AuthErrorKind::AppDeleted));
    assert_eq!(k.code(), "auth/app-deleted");
    assert!(matches!(AuthErrorKind::classify(String::from("auth/app-deleted")), AuthErrorKind::AppDeleted));
}

#[test]
fn classifies_app_not_authorized() {
    let k = AuthErrorKind::from_code("auth/app-not-authorized");
    assert!(matches!(k, AuthErrorKind::AppNotAuthorized));
    assert_eq!(k.code(), "auth/app-not-authorized");
    assert!(matches!(AuthErrorKind::classify(String::from("auth/app-not-authorized")), AuthErrorKind::AppNotAuthorized));
}

#[test]
fn classifies_argument_error() {
    let k = AuthErrorKind::from_code("auth/argument-error");
    assert!(matches!(k, AuthErrorKind::ArgumentError));
    assert_eq!(k.code(), "auth/argument-error");
    assert!(matches!(AuthErrorKind::classify(String::from("auth/argument-error")), AuthErrorKind::ArgumentError));
}

#[test]
fn classifies_invalid_api_key() {
    let k = AuthErrorKind::from_code("auth/invalid-api-key");
    assert!(matches!(k, AuthErrorKind::InvalidApiKey));
    assert_eq!(k.code(), "auth/invalid-api-key");
    assert!(matches!(AuthErrorKind::classify(String::from("auth/invalid-api-key")), AuthErrorKind::InvalidApiKey));
}

#[test]
fn classifies_invalid_user_token() {
    let k = AuthErrorKind::from_code("auth/invalid-user-token");
    assert!(matches!(k, AuthErrorKind::InvalidUserToken));
    assert_eq!(k.code(), "auth/invalid-user-token");
    assert!(matches!(AuthErrorKind::classify(String::from("auth/invalid-user-token")), AuthErrorKind::InvalidUserToken));
}

#[test]
fn classifies_invalid_tenant_id() {
    let k = AuthErrorKind::from_code("auth/invalid-tenant-id");
    assert!(matches!(k, AuthErrorKind::InvalidTenantId));
    assert_eq!(k.code(), "auth/invalid-tenant-id");
    assert!(matches!(AuthErrorKind::classify(String::from("auth/invalid-tenant-id")), AuthErrorKind::InvalidTenantId));
}

#[test]
fn classifies_network_request_failed() {
    let k = AuthErrorKind::from_code("auth/network-request-failed");
    assert!(matches!(k, AuthErrorKind::NetworkRequestFailed));
    assert_eq!(k.code(), "auth/network-request-failed");
    assert!(matches!(AuthErrorKind::classify(String::from("auth/network-request-failed")), AuthErrorKind::NetworkRequestFailed));
}

#[test]
fn classifies_operation_not_allowed() {
    let k = AuthErrorKind::from_code("auth/operation-not-allowed");
    assert!(matches!(k, AuthErrorKind::OperationNotAllowed));
    assert_eq!(k.code(), "auth/operation-not-allowed");
    assert!(matches!(AuthErrorKind::classify(String::from("auth/operation-not-allowed")), AuthErrorKind::OperationNotAllowed));
}

#[test]
fn classifies_requires_recent_login() {
    let k = AuthErrorKind::from_code("auth/requires-recent-login");
    assert!(matches!(k, AuthErrorKind::RequiresRecentLogin));
    assert_eq!(k.code(), "auth/requires-recent-login");
    assert!(matches!(AuthErrorKind::classify(String::from("auth/requires-recent-login")), AuthErrorKind::RequiresRecentLogin));
}

#[test]
fn classifies_too_many_requests() {
    let k = AuthErrorKind::from_code("auth/too-many-requests");
    assert!(matches!(k, AuthErrorKind::TooManyRequests));
    assert_eq!(k.code(), "auth/too-many-requests");
    assert!(matches!(AuthErrorKind::classify(String::from("auth/too-many-requests")), AuthErrorKind::TooManyRequests));
}

#[test]
fn classifies_unauthorized_domain() {
    let k = AuthErrorKind::from_code("auth/unauthorized-domain");
    assert!(matches!(k, AuthErrorKind::UnauthorizedDomain));
    assert_eq!(k.code(), "auth/unauthorized-domain");
    assert!(matches!(AuthErrorKind::classify(String::from("auth/unauthorized-domain")), AuthErrorKind::UnauthorizedDomain));
}

#[test]
fn classifies_user_disabled() {
    let k = AuthErrorKind::from_code("auth/user-disabled");
    assert!(matches!(k, AuthErrorKind::UserDisabled));
    assert_eq!(k.code(), "auth/user-disabled");
    assert!(matches!(AuthErrorKind::classify(String::from("auth/user-disabled")), AuthErrorKind::UserDisabled));
}

#[test]
fn classifies_user_token_expired() {
    let k = AuthErrorKind::from_code("auth/user-token-expired");
    assert!(matches!(k, AuthErrorKind::UserTokenExpired));
    assert_eq!(k.code(), "auth/user-token-expired");
    assert!(matches!(AuthErrorKind::classify(String::from("auth/user-token-expired")), AuthErrorKind::UserTokenExpired));
}

#[test]
fn classifies_web_storage_unsupported() {
    let k = AuthErrorKind::from_code("auth/web-storage-unsupported");
    assert!(matches!(k, AuthErrorKind::WebStorageUnsupported));
    assert_eq!(k.code(), "auth/web-storage-unsupported");
    assert!(matches!(AuthErrorKind::classify(String::from("auth/web-storage-unsupported")), AuthErrorKind::WebStorageUnsupported));
}

#[test]
fn classifies_invalid_email() {
    let k = AuthErrorKind::from_code("auth/invalid-email");
    assert!(matches!(k, AuthErrorKind::InvalidEmail));
    assert_eq!(k.code(), "auth/invalid-email");
    assert!(matches!(AuthErrorKind::classify(String::from("auth/invalid-email")), AuthErrorKind::InvalidEmail));
}

#[test]
fn classifies_user_not_found() {
    let k = AuthErrorKind::from_code("auth/user-not-found");
    assert!(matches!(k, AuthErrorKind::UserNotFound));
    assert_eq!(k.code(), "auth/user-not-found");
    assert!(matches!(AuthErrorKind::classify(String::from("auth/user-not-found")), AuthErrorKind::UserNotFound));
}

#[test]
fn classifies_wrong_password() {
    let k = AuthErrorKind::from_code("auth/wrong-password");
    assert!(matches!(k, AuthErrorKind::WrongPassword));
    assert_eq!(k.code(), "auth/wrong-password");
    assert!(matches!(AuthErrorKind::classify(String::from("auth/wrong-password")), AuthErrorKind::WrongPassword));
}

#[test]
fn classifies_email_already_in_use() {
    let k = AuthErrorKind::from_code("auth/email-already-in-use");
    assert!(matches!(k, AuthErrorKind::EmailAlreadyInUse));
    assert_eq!(k.code(), "auth/email-already-in-use");
    assert!(matches!(AuthErrorKind::classify(String::from("auth/email-already-in-use")), AuthErrorKind::EmailAlreadyInUse));
}

#[test]
fn classifies_weak_password() {
    let k = AuthErrorKind::from_code("auth/weak-password");
    assert!(matches!(k, AuthErrorKind::WeakPassword));
    assert_eq!(k.code(), "auth/weak-password");
    assert!(matches!(AuthErrorKind::classify(String::from("auth/weak-password")), AuthErrorKind::WeakPassword));
}

#[test]
fn classifies_missing_android_package_name() {
    let k = AuthErrorKind::from_code("auth/missing-android-pkg-name");
    assert!(matches!(k, AuthErrorKind::MissingAndroidPackageName));
    assert_eq!(k.code(), "auth/missing-android-pkg-name");
    assert!(matches!(AuthErrorKind::classify(String::from("auth/missing-android-pkg-name")), AuthErrorKind::MissingAndroidPackageName));
}

#[test]
fn classifies_missing_continue_uri() {
    let k = AuthErrorKind::from_code("auth/missing-continue-uri");
    assert!(matches!(k, AuthErrorKind::MissingContinueUri));
    assert_eq!(k.code(), "auth/missing-continue-uri");
    assert!(matches!(AuthErrorKind::classify(String::from("auth/missing-continue-uri")), AuthErrorKind::MissingContinueUri));
}

#[test]
fn classifies_missing_ios_bundle_id() {
    let k = AuthErrorKind::from_code("auth/missing-ios-bundle-id");
    assert!(matches!(k, AuthErrorKind::MissingIOSBundleId));
    assert_eq!(k.code(), "auth/missing-ios-bundle-id");
    assert!(matches!(AuthErrorKind::classify(String::from("auth/missing-ios-bundle-id")), AuthErrorKind::MissingIOSBundleId));
}

#[test]
fn classifies_invalid_continue_uri() {
    let k = AuthErrorKind::from_code("auth/invalid-continue-uri");
    assert!(matches!(k, AuthErrorKind::InvalidContinueUri));
    assert_eq!(k.code(), "auth/invalid-continue-uri");
    assert!(matches!(AuthErrorKind::classify(String::from("auth/invalid-continue-uri")), AuthErrorKind::InvalidContinueUri));
}

#[test]
fn classifies_unauthorized_continue_uri() {
    let k = AuthErrorKind::from_code("auth/unauthorized-continue-uri");
    assert!(matches!(k, AuthErrorKind::UnauthorizedContinueUri));
    assert_eq!(k.code(), "auth/unauthorized-continue-uri");
    assert!(matches!(AuthErrorKind::classify(String::from("auth/unauthorized-continue-uri")), AuthErrorKind::UnauthorizedContinueUri));
}

#[test]
fn classifies_expired_action_code() {
    let k = AuthErrorKind::from_code("auth/expired-action-code");
    assert!(matches!(k, AuthErrorKind::ExpiredActionCode));
    assert_eq!(k.code(), "auth/expired-action-code");
    assert!(matches!(AuthErrorKind::classify(String::from("auth/expired-action-code")), AuthErrorKind::ExpiredActionCode));
}

#[test]
fn unknown_code_is_other() {
    let k = AuthErrorKind::from_code("auth/made-up-code");
    match &k {
        AuthErrorKind::Other(c) => assert_eq!(c, "auth/made-up-code"),
        _ => panic!("expected Other"),
    }
    assert_eq!(k.code(), "auth/made-up-code");
}

#[test]
fn malformed_codes_are_other() {
    for code in ["", "wrong-password", "auth/", "AUTH/WRONG-PASSWORD", "auth/wrong-password ", "auth/wrong-passwor"] {
        match AuthErrorKind::from_code(code) {
            AuthErrorKind::Other(c) => assert_eq!(c, code),
            _ => panic!("expected Other for {:?}", code),
        }
    }
}

#[test]
fn known_lookup_only_for_table_codes() {
    assert!(matches!(AuthErrorKind::known("auth/user-disabled"), Some(AuthErrorKind::UserDisabled)));
    assert!(AuthErrorKind::known("auth/user-disable").is_none());
    assert!(AuthErrorKind::known("").is_none());
}
