use vstd::prelude::*;
use crate::envelope::{error_reply, login_success_reply, message_of, register_success_reply};
use crate::envelope::{AuthError, AuthReply};
use crate::password::{bcrypt_matches, hash_password, verify_password};
use crate::store::CredentialStore;
use crate::uploads::{
    id_photo_rel_path, id_photo_rel_path_spec, profile_photo_rel_path,
    profile_photo_rel_path_spec, valid_username, validate_registration,
};

verus! {

/// What the store answered to a password-hash lookup: the stored hash, the
/// absence of the account, or a store fault.
pub enum LookupEvent {
    Found(String),
    Absent,
    Fault,
}

/// The three ways a login attempt can end against a reachable store.
pub enum LoginOutcome {
    Success,
    InvalidCredentials,
    UserNotFound,
}

/// What a login attempt against this store must decide: unknown usernames
/// are reported as not found, a matching password succeeds, and anything
/// else is an invalid credential.
pub open spec fn login_outcome(
    store: CredentialStore,
    username: Seq<char>,
    password: Seq<char>,
) -> LoginOutcome {
    if !store.contains_user(username) {
        LoginOutcome::UserNotFound
    } else if bcrypt_matches(password, store.hash_of(username)) {
        LoginOutcome::Success
    } else {
        LoginOutcome::InvalidCredentials
    }
}

/// Turns the store's answer to a lookup into the login reply. The password
/// check happens here; it fails safe, and a store fault is reported as a
/// server error that leaks nothing about the account.
pub fn login_reply(event: LookupEvent, password: &str) -> (r: AuthReply)
    ensures
        r.body.success <==> (event matches LookupEvent::Found(h) && bcrypt_matches(
            password@,
            h@,
        )),
        event matches LookupEvent::Found(h) && bcrypt_matches(password@, h@) ==> {
            &&& r.status == 200
            &&& r.body.message@ == "Login successful"@
        },
        event matches LookupEvent::Found(h) && !bcrypt_matches(password@, h@) ==> {
            &&& r.status == 401
            &&& r.body.message@ == message_of(AuthError::InvalidCredentials)
        },
        event is Absent ==> {
            &&& r.status == 401
            &&& r.body.message@ == message_of(AuthError::UserNotFound)
        },
        event is Fault ==> {
            &&& r.status == 500
            &&& r.body.message@ == message_of(AuthError::StoreUnavailable)
        },
{
    match event {
        LookupEvent::Found(stored_hash) => {
            if verify_password(password, stored_hash.as_str()) {
                login_success_reply()
            } else {
                error_reply(AuthError::InvalidCredentials)
            }
        },
        LookupEvent::Absent => error_reply(AuthError::UserNotFound),
        LookupEvent::Fault => error_reply(AuthError::StoreUnavailable),
    }
}

/// The login endpoint against the credential store: looks up the password
/// hash under the username and verifies the plaintext against it. Succeeds
/// exactly when the account exists and the password matches; an unknown
/// username or a wrong password is answered with 401, never with a server
/// error.
pub fn login(store: &CredentialStore, username: &String, password: &str) -> (r: AuthReply)
    requires
        store.wf(),
    ensures
        r.body.success <==> login_outcome(*store, username@, password@) is Success,
        !store.contains_user(username@) ==> {
            &&& r.status == 401
            &&& r.body.message@ == message_of(AuthError::UserNotFound)
        },
        store.contains_user(username@) && !bcrypt_matches(password@, store.hash_of(username@))
            ==> {
            &&& r.status == 401
            &&& r.body.message@ == message_of(AuthError::InvalidCredentials)
        },
        store.contains_user(username@) && bcrypt_matches(password@, store.hash_of(username@))
            ==> {
            &&& r.status == 200
            &&& r.body.message@ == "Login successful"@
        },
{
    match store.find_password_hash(username) {
        Some(stored_hash) => login_reply(LookupEvent::Found(stored_hash), password),
        None => login_reply(LookupEvent::Absent, password),
    }
}

/// Turns the outcome of the store's insert into the registration reply. A
/// rejected insert is answered with one generic server error, whether the
/// username was a duplicate or the store faulted: the reply leaks nothing.
pub fn register_insert_reply(inserted: bool) -> (r: AuthReply)
    ensures
        r.body.success <==> inserted,
        inserted ==> {
            &&& r.status == 200
            &&& r.body.message@ == "User registered successfully"@
        },
        !inserted ==> {
            &&& r.status == 500
            &&& r.body.message@ == message_of(AuthError::DuplicateUsername)
        },
{
    if inserted {
        register_success_reply()
    } else {
        error_reply(AuthError::DuplicateUsername)
    }
}

/// Both required registration fields are present and the username passes
/// the character-set check.
pub open spec fn registration_fields_ok(
    username: Option<String>,
    password: Option<String>,
) -> bool {
    username is Some && valid_username(username->0@) && password is Some
}

/// The registration endpoint against the credential store. Validates the
/// fields, derives the photo paths from the username, hashes the password
/// and inserts the account. A missing field or a bad username is a 400; a
/// username already taken is answered with the generic 500 envelope and
/// leaves the store exactly as it was; on a fresh username the account is
/// stored with a hash that verifies against the given password, unless the
/// hashing function faults, which leaves the store unchanged.
pub fn register(
    store: &mut CredentialStore,
    username: Option<String>,
    password: Option<String>,
    profile_photo: Option<Vec<u8>>,
    id_photo: Option<Vec<u8>>,
) -> (r: AuthReply)
    requires
        old(store).wf(),
    ensures
        final(store).wf(),
        !registration_fields_ok(username, password) ==> {
            &&& r.status == 400
            &&& !r.body.success
            &&& r.body.message@ == message_of(AuthError::MalformedRequest)
            &&& *final(store) == *old(store)
        },
        registration_fields_ok(username, password) && old(store).contains_user(username->0@)
            ==> {
            &&& r.status == 500
            &&& !r.body.success
            &&& r.body.message@ == message_of(AuthError::DuplicateUsername)
            &&& *final(store) == *old(store)
        },
        registration_fields_ok(username, password) && !old(store).contains_user(username->0@)
            ==> {
            ||| {
                &&& r.status == 200
                &&& r.body.success
                &&& r.body.message@ == "User registered successfully"@
                &&& final(store).contains_user(username->0@)
                &&& bcrypt_matches(password->0@, final(store).hash_of(username->0@))
                &&& final(store).profile_path_of(username->0@) == (if profile_photo is Some {
                    Some(profile_photo_rel_path_spec(username->0@))
                } else {
                    None::<Seq<char>>
                })
                &&& final(store).id_path_of(username->0@) == (if id_photo is Some {
                    Some(id_photo_rel_path_spec(username->0@))
                } else {
                    None::<Seq<char>>
                })
                &&& final(store).size() == old(store).size() + 1
                &&& forall|v: Seq<char>|
                    v != username->0@ ==> (final(store).contains_user(v) <==> old(
                        store,
                    ).contains_user(v))
            }
            ||| {
                &&& r.status == 500
                &&& !r.body.success
                &&& r.body.message@ == message_of(AuthError::HashingFailure)
                &&& *final(store) == *old(store)
            }
        },
        r.body.success ==> (r.status == 200 && registration_fields_ok(username, password)
            && !old(store).contains_user(username->0@) && final(store).contains_user(
            username->0@,
        )),
{
    if !validate_registration(&username, &password) {
        return error_reply(AuthError::MalformedRequest);
    }
    let u = username.unwrap();
    let pw = password.unwrap();
    if store.find_password_hash(&u).is_some() {
        return error_reply(AuthError::DuplicateUsername);
    }
    let profile_path = match &profile_photo {
        Some(_) => Some(profile_photo_rel_path(u.as_str())),
        None => None,
    };
    let id_path = match &id_photo {
        Some(_) => Some(id_photo_rel_path(u.as_str())),
        None => None,
    };
    match hash_password(pw.as_str()) {
        Err(e) => error_reply(e),
        Ok(hashed) => {
            match store.insert_account(u, hashed, profile_path, id_path) {
                Ok(_) => register_insert_reply(true),
                Err(e) => error_reply(e),
            }
        },
    }
}

/// Law: registration followed by login with the same credentials succeeds.
/// A store that a successful registration of `username`/`password` left
/// behind holds a hash for `username` that the password verifies against,
/// and a login against such a store must succeed.
pub proof fn lemma_register_then_login(
    store: CredentialStore,
    username: Seq<char>,
    password: Seq<char>,
)
    requires
        store.contains_user(username),
        bcrypt_matches(password, store.hash_of(username)),
    ensures
        login_outcome(store, username, password) is Success,
{
}

/// Law: a login attempt with a wrong password against an existing account
/// is decided as an invalid credential, never as a success.
pub proof fn lemma_wrong_password_rejected(
    store: CredentialStore,
    username: Seq<char>,
    password: Seq<char>,
)
    requires
        store.contains_user(username),
        !bcrypt_matches(password, store.hash_of(username)),
    ensures
        login_outcome(store, username, password) is InvalidCredentials,
{
}

/// Law: a login attempt against a username that no account carries is
/// decided as user-not-found, never as a success.
pub proof fn lemma_unknown_user_rejected(
    store: CredentialStore,
    username: Seq<char>,
    password: Seq<char>,
)
    requires
        !store.contains_user(username),
    ensures
        login_outcome(store, username, password) is UserNotFound,
{
}

} // verus!
