use vstd::prelude::*;

use crate::text::str_eq;

verus! {

/// What went wrong in an authentication call, as told by the platform's error
/// code. Codes outside the known table are kept verbatim in `Other`.
#[derive(Clone, Debug)]
#[non_exhaustive]
pub enum AuthErrorKind {
    /// `auth/app-deleted`
    AppDeleted,
    /// `auth/app-not-authorized`
    AppNotAuthorized,
    /// `auth/argument-error`
    ArgumentError,
    /// `auth/invalid-api-key`
    InvalidApiKey,
    /// `auth/invalid-user-token`
    InvalidUserToken,
    /// `auth/invalid-tenant-id`
    InvalidTenantId,
    /// `auth/network-request-failed`
    NetworkRequestFailed,
    /// `auth/operation-not-allowed`
    OperationNotAllowed,
    /// `auth/requires-recent-login`
    RequiresRecentLogin,
    /// `auth/too-many-requests`
    TooManyRequests,
    /// `auth/unauthorized-domain`
    UnauthorizedDomain,
    /// `auth/user-disabled`
    UserDisabled,
    /// `auth/user-token-expired`
    UserTokenExpired,
    /// `auth/web-storage-unsupported`
    WebStorageUnsupported,
    /// `auth/invalid-email`
    InvalidEmail,
    /// `auth/user-not-found`
    UserNotFound,
    /// `auth/wrong-password`
    WrongPassword,
    /// `auth/email-already-in-use`
    EmailAlreadyInUse,
    /// `auth/weak-password`
    WeakPassword,
    /// `auth/missing-android-pkg-name`
    MissingAndroidPackageName,
    /// `auth/missing-continue-uri`
    MissingContinueUri,
    /// `auth/missing-ios-bundle-id`
    MissingIOSBundleId,
    /// `auth/invalid-continue-uri`
    InvalidContinueUri,
    /// `auth/unauthorized-continue-uri`
    UnauthorizedContinueUri,
    /// `auth/expired-action-code`
    ExpiredActionCode,
    /// Any code that the table does not hold.
    Other(String),
}

/// The known variant that a code names, if the code is in the table.
pub open spec fn known_kind(code: Seq<char>) -> Option<AuthErrorKind> {
    if code == "auth/app-deleted"@ {
        Some(AuthErrorKind::AppDeleted)
    } else if code == "auth/app-not-authorized"@ {
        Some(AuthErrorKind::AppNotAuthorized)
    } else if code == "auth/argument-error"@ {
        Some(AuthErrorKind::ArgumentError)
    } else if code == "auth/invalid-api-key"@ {
        Some(AuthErrorKind::InvalidApiKey)
    } else if code == "auth/invalid-user-token"@ {
        Some(AuthErrorKind::InvalidUserToken)
    } else if code == "auth/invalid-tenant-id"@ {
        Some(AuthErrorKind::InvalidTenantId)
    } else if code == "auth/network-request-failed"@ {
        Some(AuthErrorKind::NetworkRequestFailed)
    } else if code == "auth/operation-not-allowed"@ {
        Some(AuthErrorKind::OperationNotAllowed)
    } else if code == "auth/requires-recent-login"@ {
        Some(AuthErrorKind::RequiresRecentLogin)
    } else if code == "auth/too-many-requests"@ {
        Some(AuthErrorKind::TooManyRequests)
    } else if code == "auth/unauthorized-domain"@ {
        Some(AuthErrorKind::UnauthorizedDomain)
    } else if code == "auth/user-disabled"@ {
        Some(AuthErrorKind::UserDisabled)
    } else if code == "auth/user-token-expired"@ {
        Some(AuthErrorKind::UserTokenExpired)
    } else if code == "auth/web-storage-unsupported"@ {
        Some(AuthErrorKind::WebStorageUnsupported)
    } else if code == "auth/invalid-email"@ {
        Some(AuthErrorKind::InvalidEmail)
    } else if code == "auth/user-not-found"@ {
        Some(AuthErrorKind::UserNotFound)
    } else if code == "auth/wrong-password"@ {
        Some(AuthErrorKind::WrongPassword)
    } else if code == "auth/email-already-in-use"@ {
        Some(AuthErrorKind::EmailAlreadyInUse)
    } else if code == "auth/weak-password"@ {
        Some(AuthErrorKind::WeakPassword)
    } else if code == "auth/missing-android-pkg-name"@ {
        Some(AuthErrorKind::MissingAndroidPackageName)
    } else if code == "auth/missing-continue-uri"@ {
        Some(AuthErrorKind::MissingContinueUri)
    } else if code == "auth/missing-ios-bundle-id"@ {
        Some(AuthErrorKind::MissingIOSBundleId)
    } else if code == "auth/invalid-continue-uri"@ {
        Some(AuthErrorKind::InvalidContinueUri)
    } else if code == "auth/unauthorized-continue-uri"@ {
        Some(AuthErrorKind::UnauthorizedContinueUri)
    } else if code == "auth/expired-action-code"@ {
        Some(AuthErrorKind::ExpiredActionCode)
    } else {
        None
    }
}

/// The kind that a code classifies to: its known variant, or `Other` holding
/// the code itself.
pub open spec fn kind_of(code: String) -> AuthErrorKind {
    match known_kind(code@) {
        Some(k) => k,
        None => AuthErrorKind::Other(code),
    }
}

/// Whether `k` is the classification of the characters `code`.
pub open spec fn classifies(k: AuthErrorKind, code: Seq<char>) -> bool {
    match known_kind(code) {
        Some(j) => k == j,
        None => k matches AuthErrorKind::Other(c) && c@ == code,
    }
}

/// The platform code that a kind stands for.
pub open spec fn code_of(k: AuthErrorKind) -> Seq<char> {
    match k {
        AuthErrorKind::AppDeleted => "auth/app-deleted"@,
        AuthErrorKind::AppNotAuthorized => "auth/app-not-authorized"@,
        AuthErrorKind::ArgumentError => "auth/argument-error"@,
        AuthErrorKind::InvalidApiKey => "auth/invalid-api-key"@,
        AuthErrorKind::InvalidUserToken => "auth/invalid-user-token"@,
        AuthErrorKind::InvalidTenantId => "auth/invalid-tenant-id"@,
        AuthErrorKind::NetworkRequestFailed => "auth/network-request-failed"@,
        AuthErrorKind::OperationNotAllowed => "auth/operation-not-allowed"@,
        AuthErrorKind::RequiresRecentLogin => "auth/requires-recent-login"@,
        AuthErrorKind::TooManyRequests => "auth/too-many-requests"@,
        AuthErrorKind::UnauthorizedDomain => "auth/unauthorized-domain"@,
        AuthErrorKind::UserDisabled => "auth/user-disabled"@,
        AuthErrorKind::UserTokenExpired => "auth/user-token-expired"@,
        AuthErrorKind::WebStorageUnsupported => "auth/web-storage-unsupported"@,
        AuthErrorKind::InvalidEmail => "auth/invalid-email"@,
        AuthErrorKind::UserNotFound => "auth/user-not-found"@,
        AuthErrorKind::WrongPassword => "auth/wrong-password"@,
        AuthErrorKind::EmailAlreadyInUse => "auth/email-already-in-use"@,
        AuthErrorKind::WeakPassword => "auth/weak-password"@,
        AuthErrorKind::MissingAndroidPackageName => "auth/missing-android-pkg-name"@,
        AuthErrorKind::MissingContinueUri => "auth/missing-continue-uri"@,
        AuthErrorKind::MissingIOSBundleId => "auth/missing-ios-bundle-id"@,
        AuthErrorKind::InvalidContinueUri => "auth/invalid-continue-uri"@,
        AuthErrorKind::UnauthorizedContinueUri => "auth/unauthorized-continue-uri"@,
        AuthErrorKind::ExpiredActionCode => "auth/expired-action-code"@,
        AuthErrorKind::Other(c) => c@,
    }
}

impl AuthErrorKind {
    /// Looks `code` up in the table of known codes.
    pub fn known(code: &str) -> (r: Option<AuthErrorKind>)
        ensures
            r == known_kind(code@),
    {
        if str_eq(code, "auth/app-deleted") {
            Some(AuthErrorKind::AppDeleted)
        } else if str_eq(code, "auth/app-not-authorized") {
            Some(AuthErrorKind::AppNotAuthorized)
        } else if str_eq(code, "auth/argument-error") {
            Some(AuthErrorKind::ArgumentError)
        } else if str_eq(code, "auth/invalid-api-key") {
            Some(AuthErrorKind::InvalidApiKey)
        } else if str_eq(code, "auth/invalid-user-token") {
            Some(AuthErrorKind::InvalidUserToken)
        } else if str_eq(code, "auth/invalid-tenant-id") {
            Some(AuthErrorKind::InvalidTenantId)
        } else if str_eq(code, "auth/network-request-failed") {
            Some(AuthErrorKind::NetworkRequestFailed)
        } else if str_eq(code, "auth/operation-not-allowed") {
            Some(AuthErrorKind::OperationNotAllowed)
        } else if str_eq(code, "auth/requires-recent-login") {
            Some(AuthErrorKind::RequiresRecentLogin)
        } else if str_eq(code, "auth/too-many-requests") {
            Some(AuthErrorKind::TooManyRequests)
        } else if str_eq(code, "auth/unauthorized-domain") {
            Some(AuthErrorKind::UnauthorizedDomain)
        } else if str_eq(code, "auth/user-disabled") {
            Some(AuthErrorKind::UserDisabled)
        } else if str_eq(code, "auth/user-token-expired") {
            Some(AuthErrorKind::UserTokenExpired)
        } else if str_eq(code, "auth/web-storage-unsupported") {
            Some(AuthErrorKind::WebStorageUnsupported)
        } else if str_eq(code, "auth/invalid-email") {
            Some(AuthErrorKind::InvalidEmail)
        } else if str_eq(code, "auth/user-not-found") {
            Some(AuthErrorKind::UserNotFound)
        } else if str_eq(code, "auth/wrong-password") {
            Some(AuthErrorKind::WrongPassword)
        } else if str_eq(code, "auth/email-already-in-use") {
            Some(AuthErrorKind::EmailAlreadyInUse)
        } else if str_eq(code, "auth/weak-password") {
            Some(AuthErrorKind::WeakPassword)
        } else if str_eq(code, "auth/missing-android-pkg-name") {
            Some(AuthErrorKind::MissingAndroidPackageName)
        } else if str_eq(code, "auth/missing-continue-uri") {
            Some(AuthErrorKind::MissingContinueUri)
        } else if str_eq(code, "auth/missing-ios-bundle-id") {
            Some(AuthErrorKind::MissingIOSBundleId)
        } else if str_eq(code, "auth/invalid-continue-uri") {
            Some(AuthErrorKind::InvalidContinueUri)
        } else if str_eq(code, "auth/unauthorized-continue-uri") {
            Some(AuthErrorKind::UnauthorizedContinueUri)
        } else if str_eq(code, "auth/expired-action-code") {
            Some(AuthErrorKind::ExpiredActionCode)
        } else {
            None
        }
    }

    /// Classifies any string: a known code gives its variant, anything else
    /// gives `Other` with the same characters. Never fails.
    pub fn from_code(code: &str) -> (r: AuthErrorKind)
        ensures
            classifies(r, code@),
            code_of(r) == code@,
    {
        match AuthErrorKind::known(code) {
            Some(k) => k,
            None => AuthErrorKind::Other(code.to_string()),
        }
    }

    /// Classifies an owned code; an unknown one is moved into `Other`.
    pub fn classify(code: String) -> (r: AuthErrorKind)
        ensures
            r == kind_of(code),
    {
        match AuthErrorKind::known(code.as_str()) {
            Some(k) => k,
            None => AuthErrorKind::Other(code),
        }
    }

    /// The platform code that this kind stands for.
    pub fn code(&self) -> (r: String)
        ensures
            r@ == code_of(*self),
    {
        match self {
            AuthErrorKind::AppDeleted => String::from_str("auth/app-deleted"),
            AuthErrorKind::AppNotAuthorized => String::from_str("auth/app-not-authorized"),
            AuthErrorKind::ArgumentError => String::from_str("auth/argument-error"),
            AuthErrorKind::InvalidApiKey => String::from_str("auth/invalid-api-key"),
            AuthErrorKind::InvalidUserToken => String::from_str("auth/invalid-user-token"),
            AuthErrorKind::InvalidTenantId => String::from_str("auth/invalid-tenant-id"),
            AuthErrorKind::NetworkRequestFailed => String::from_str("auth/network-request-failed"),
            AuthErrorKind::OperationNotAllowed => String::from_str("auth/operation-not-allowed"),
            AuthErrorKind::RequiresRecentLogin => String::from_str("auth/requires-recent-login"),
            AuthErrorKind::TooManyRequests => String::from_str("auth/too-many-requests"),
            AuthErrorKind::UnauthorizedDomain => String::from_str("auth/unauthorized-domain"),
            AuthErrorKind::UserDisabled => String::from_str("auth/user-disabled"),
            AuthErrorKind::UserTokenExpired => String::from_str("auth/user-token-expired"),
            AuthErrorKind::WebStorageUnsupported => String::from_str("auth/web-storage-unsupported"),
            AuthErrorKind::InvalidEmail => String::from_str("auth/invalid-email"),
            AuthErrorKind::UserNotFound => String::from_str("auth/user-not-found"),
            AuthErrorKind::WrongPassword => String::from_str("auth/wrong-password"),
            AuthErrorKind::EmailAlreadyInUse => String::from_str("auth/email-already-in-use"),
            AuthErrorKind::WeakPassword => String::from_str("auth/weak-password"),
            AuthErrorKind::MissingAndroidPackageName => String::from_str("auth/missing-android-pkg-name"),
            AuthErrorKind::MissingContinueUri => String::from_str("auth/missing-continue-uri"),
            AuthErrorKind::MissingIOSBundleId => String::from_str("auth/missing-ios-bundle-id"),
            AuthErrorKind::InvalidContinueUri => String::from_str("auth/invalid-continue-uri"),
            AuthErrorKind::UnauthorizedContinueUri => String::from_str("auth/unauthorized-continue-uri"),
            AuthErrorKind::ExpiredActionCode => String::from_str("auth/expired-action-code"),
            AuthErrorKind::Other(c) => c.clone(),
        }
    }
}

/// The length and the sixth character of each known code. No two known codes
/// agree in both.
proof fn lemma_code_shapes()
    ensures
        "auth/app-deleted"@.len() == 16 && "auth/app-deleted"@[5] == 'a',
        "auth/app-not-authorized"@.len() == 23 && "auth/app-not-authorized"@[5] == 'a',
        "auth/argument-error"@.len() == 19 && "auth/argument-error"@[5] == 'a',
        "auth/invalid-api-key"@.len() == 20 && "auth/invalid-api-key"@[5] == 'i',
        "auth/invalid-user-token"@.len() == 23 && "auth/invalid-user-token"@[5] == 'i',
        "auth/invalid-tenant-id"@.len() == 22 && "auth/invalid-tenant-id"@[5] == 'i',
        "auth/network-request-failed"@.len() == 27 && "auth/network-request-failed"@[5] == 'n',
        "auth/operation-not-allowed"@.len() == 26 && "auth/operation-not-allowed"@[5] == 'o',
        "auth/requires-recent-login"@.len() == 26 && "auth/requires-recent-login"@[5] == 'r',
        "auth/too-many-requests"@.len() == 22 && "auth/too-many-requests"@[5] == 't',
        "auth/unauthorized-domain"@.len() == 24 && "auth/unauthorized-domain"@[5] == 'u',
        "auth/user-disabled"@.len() == 18 && "auth/user-disabled"@[5] == 'u',
        "auth/user-token-expired"@.len() == 23 && "auth/user-token-expired"@[5] == 'u',
        "auth/web-storage-unsupported"@.len() == 28 && "auth/web-storage-unsupported"@[5] == 'w',
        "auth/invalid-email"@.len() == 18 && "auth/invalid-email"@[5] == 'i',
        "auth/user-not-found"@.len() == 19 && "auth/user-not-found"@[5] == 'u',
        "auth/wrong-password"@.len() == 19 && "auth/wrong-password"@[5] == 'w',
        "auth/email-already-in-use"@.len() == 25 && "auth/email-already-in-use"@[5] == 'e',
        "auth/weak-password"@.len() == 18 && "auth/weak-password"@[5] == 'w',
        "auth/missing-android-pkg-name"@.len() == 29 && "auth/missing-android-pkg-name"@[5] == 'm',
        "auth/missing-continue-uri"@.len() == 25 && "auth/missing-continue-uri"@[5] == 'm',
        "auth/missing-ios-bundle-id"@.len() == 26 && "auth/missing-ios-bundle-id"@[5] == 'm',
        "auth/invalid-continue-uri"@.len() == 25 && "auth/invalid-continue-uri"@[5] == 'i',
        "auth/unauthorized-continue-uri"@.len() == 30 && "auth/unauthorized-continue-uri"@[5] == 'u',
        "auth/expired-action-code"@.len() == 24 && "auth/expired-action-code"@[5] == 'e',
{
    assert("auth/app-deleted"@.len() == 16 && "auth/app-deleted"@[5] == 'a') by {
        reveal_strlit("auth/app-deleted");
    }
    assert("auth/app-not-authorized"@.len() == 23 && "auth/app-not-authorized"@[5] == 'a') by {
        reveal_strlit("auth/app-not-authorized");
    }
    assert("auth/argument-error"@.len() == 19 && "auth/argument-error"@[5] == 'a') by {
        reveal_strlit("auth/argument-error");
    }
    assert("auth/invalid-api-key"@.len() == 20 && "auth/invalid-api-key"@[5] == 'i') by {
        reveal_strlit("auth/invalid-api-key");
    }
    assert("auth/invalid-user-token"@.len() == 23 && "auth/invalid-user-token"@[5] == 'i') by {
        reveal_strlit("auth/invalid-user-token");
    }
    assert("auth/invalid-tenant-id"@.len() == 22 && "auth/invalid-tenant-id"@[5] == 'i') by {
        reveal_strlit("auth/invalid-tenant-id");
    }
    assert("auth/network-request-failed"@.len() == 27 && "auth/network-request-failed"@[5] == 'n') by {
        reveal_strlit("auth/network-request-failed");
    }
    assert("auth/operation-not-allowed"@.len() == 26 && "auth/operation-not-allowed"@[5] == 'o') by {
        reveal_strlit("auth/operation-not-allowed");
    }
    assert("auth/requires-recent-login"@.len() == 26 && "auth/requires-recent-login"@[5] == 'r') by {
        reveal_strlit("auth/requires-recent-login");
    }
    assert("auth/too-many-requests"@.len() == 22 && "auth/too-many-requests"@[5] == 't') by {
        reveal_strlit("auth/too-many-requests");
    }
    assert("auth/unauthorized-domain"@.len() == 24 && "auth/unauthorized-domain"@[5] == 'u') by {
        reveal_strlit("auth/unauthorized-domain");
    }
    assert("auth/user-disabled"@.len() == 18 && "auth/user-disabled"@[5] == 'u') by {
        reveal_strlit("auth/user-disabled");
    }
    assert("auth/user-token-expired"@.len() == 23 && "auth/user-token-expired"@[5] == 'u') by {
        reveal_strlit("auth/user-token-expired");
    }
    assert("auth/web-storage-unsupported"@.len() == 28 && "auth/web-storage-unsupported"@[5] == 'w') by {
        reveal_strlit("auth/web-storage-unsupported");
    }
    assert("auth/invalid-email"@.len() == 18 && "auth/invalid-email"@[5] == 'i') by {
        reveal_strlit("auth/invalid-email");
    }
    assert("auth/user-not-found"@.len() == 19 && "auth/user-not-found"@[5] == 'u') by {
        reveal_strlit("auth/user-not-found");
    }
    assert("auth/wrong-password"@.len() == 19 && "auth/wrong-password"@[5] == 'w') by {
        reveal_strlit("auth/wrong-password");
    }
    assert("auth/email-already-in-use"@.len() == 25 && "auth/email-already-in-use"@[5] == 'e') by {
        reveal_strlit("auth/email-already-in-use");
    }
    assert("auth/weak-password"@.len() == 18 && "auth/weak-password"@[5] == 'w') by {
        reveal_strlit("auth/weak-password");
    }
    assert("auth/missing-android-pkg-name"@.len() == 29 && "auth/missing-android-pkg-name"@[5] == 'm') by {
        reveal_strlit("auth/missing-android-pkg-name");
    }
    assert("auth/missing-continue-uri"@.len() == 25 && "auth/missing-continue-uri"@[5] == 'm') by {
        reveal_strlit("auth/missing-continue-uri");
    }
    assert("auth/missing-ios-bundle-id"@.len() == 26 && "auth/missing-ios-bundle-id"@[5] == 'm') by {
        reveal_strlit("auth/missing-ios-bundle-id");
    }
    assert("auth/invalid-continue-uri"@.len() == 25 && "auth/invalid-continue-uri"@[5] == 'i') by {
        reveal_strlit("auth/invalid-continue-uri");
    }
    assert("auth/unauthorized-continue-uri"@.len() == 30 && "auth/unauthorized-continue-uri"@[5] == 'u') by {
        reveal_strlit("auth/unauthorized-continue-uri");
    }
    assert("auth/expired-action-code"@.len() == 24 && "auth/expired-action-code"@[5] == 'e') by {
        reveal_strlit("auth/expired-action-code");
    }
}

/// Every known code classifies to its own variant: the table maps no two
/// codes to one variant and no code to two variants.
pub proof fn lemma_known_code_classifies(k: AuthErrorKind)
    requires
        k !is Other,
    ensures
        known_kind(code_of(k)) == Some(k),
{
    lemma_code_shapes();
}

} // verus!
