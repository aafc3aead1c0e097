//! Typed bindings for an identity platform's authentication module: error-code
//! classification, the object of options for sign-in links, the settling of
//! bridged calls and the queue of sign-in state notifications.

mod text;

pub mod error;
pub mod kind;
pub mod settings;
pub mod state;
pub mod wire;

pub use error::{settle, AuthError, FirebaseError};
pub use kind::AuthErrorKind;
pub use settings::{ActionCodeSettings, AndroidActionCodeSettings, IOSActionCodeSettings};
pub use state::AuthStateChanges;
