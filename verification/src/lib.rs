//! Core of a small authentication backend: a credential store keyed by
//! username, bcrypt-backed password hashing and verification, and the
//! request-level decisions of the `register` and `login` endpoints.

pub mod auth;
pub mod envelope;
pub mod store;
pub mod uploads;
pub mod password;

pub use envelope::{error_reply, AuthError, AuthReply, Envelope};
pub use password::{hash_password, verify_password};
pub use store::{Account, CredentialStore};
pub use uploads::{
    id_photo_filename, id_photo_rel_path, profile_photo_filename, profile_photo_rel_path,
    username_is_valid, validate_registration,
};
pub use auth::{login, login_reply, register, register_insert_reply, LookupEvent};
