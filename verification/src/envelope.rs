use vstd::prelude::*;

verus! {

/// The `{success, message}` body that both endpoints return.
pub struct Envelope {
    pub success: bool,
    pub message: String,
}

/// A complete endpoint reply: the HTTP status code and the response body.
pub struct AuthReply {
    pub status: u16,
    pub body: Envelope,
}

/// Everything that can end a request early. Each variant maps to one fixed
/// status code and one generic message; the message never carries the text
/// of an underlying system error.
#[derive(Clone, Copy, Debug, PartialEq, Eq, Structural)]
pub enum AuthError {
    /// The store could not be reached or the query failed.
    StoreUnavailable,
    /// An account with the requested username already exists. Deliberately
    /// reported with the same status and message as any other failed insert,
    /// so a caller cannot probe which usernames are taken.
    DuplicateUsername,
    /// A required field of the request is missing, or the username fails
    /// validation.
    MalformedRequest,
    /// The password hashing function reported a fault.
    HashingFailure,
    /// An uploaded photo could not be persisted.
    FileWriteFailure,
    /// The password does not match the stored hash.
    InvalidCredentials,
    /// No account exists under the requested username.
    UserNotFound,
}

/// The fixed status code of each error: server faults are 500, a bad request
/// is 400, and both credential failures are 401.
pub open spec fn status_of(e: AuthError) -> u16 {
    match e {
        AuthError::StoreUnavailable => 500,
        AuthError::DuplicateUsername => 500,
        AuthError::MalformedRequest => 400,
        AuthError::HashingFailure => 500,
        AuthError::FileWriteFailure => 500,
        AuthError::InvalidCredentials => 401,
        AuthError::UserNotFound => 401,
    }
}

/// The fixed, generic message of each error.
pub open spec fn message_of(e: AuthError) -> Seq<char> {
    match e {
        AuthError::StoreUnavailable => "Database error"@,
        AuthError::DuplicateUsername => "Failed to create user/ user duplicate"@,
        AuthError::MalformedRequest => "Malformed request"@,
        AuthError::HashingFailure => "Failed to hash password"@,
        AuthError::FileWriteFailure => "Failed to save uploaded file"@,
        AuthError::InvalidCredentials => "Invalid credentials"@,
        AuthError::UserNotFound => "User not found"@,
    }
}

/// Builds the failure reply for an error: its fixed status code and its
/// generic message, with `success` false.
pub fn error_reply(e: AuthError) -> (r: AuthReply)
    ensures
        r.status == status_of(e),
        !r.body.success,
        r.body.message@ == message_of(e),
{
    match e {
        AuthError::StoreUnavailable => AuthReply {
            status: 500,
            body: Envelope { success: false, message: "Database error".to_owned() },
        },
        AuthError::DuplicateUsername => AuthReply {
            status: 500,
            body: Envelope {
                success: false,
                message: "Failed to create user/ user duplicate".to_owned(),
            },
        },
        AuthError::MalformedRequest => AuthReply {
            status: 400,
            body: Envelope { success: false, message: "Malformed request".to_owned() },
        },
        AuthError::HashingFailure => AuthReply {
            status: 500,
            body: Envelope { success: false, message: "Failed to hash password".to_owned() },
        },
        AuthError::FileWriteFailure => AuthReply {
            status: 500,
            body: Envelope { success: false, message: "Failed to save uploaded file".to_owned() },
        },
        AuthError::InvalidCredentials => AuthReply {
            status: 401,
            body: Envelope { success: false, message: "Invalid credentials".to_owned() },
        },
        AuthError::UserNotFound => AuthReply {
            status: 401,
            body: Envelope { success: false, message: "User not found".to_owned() },
        },
    }
}

/// Builds the reply for a successful login.
pub fn login_success_reply() -> (r: AuthReply)
    ensures
        r.status == 200,
        r.body.success,
        r.body.message@ == "Login successful"@,
{
    AuthReply {
        status: 200,
        body: Envelope { success: true, message: "Login successful".to_owned() },
    }
}

/// Builds the reply for a successful registration.
pub fn register_success_reply() -> (r: AuthReply)
    ensures
        r.status == 200,
        r.body.success,
        r.body.message@ == "User registered successfully"@,
{
    AuthReply {
        status: 200,
        body: Envelope { success: true, message: "User registered successfully".to_owned() },
    }
}

} // verus!
