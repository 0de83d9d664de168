use vstd::prelude::*;
use vstd::string::StringExecFns;
use vstd::string::StrSliceExecFns;

verus! {

/// Characters admitted in a username: ASCII letters, digits, underscore and
/// hyphen. The username is spliced into a file name, so anything that could
/// steer a path (separators, dots, or non-ASCII text) is rejected.
pub open spec fn username_char_ok(c: char) -> bool {
    ||| ('a' <= c && c <= 'z')
    ||| ('A' <= c && c <= 'Z')
    ||| ('0' <= c && c <= '9')
    ||| c == '_'
    ||| c == '-'
}

/// A valid username is non-empty and made of admitted characters only.
pub open spec fn valid_username(s: Seq<char>) -> bool {
    0 < s.len() && forall|i: int| 0 <= i < s.len() ==> #[trigger] username_char_ok(s[i])
}

/// Checks a username against the restrictive character set before it is
/// used in a file path or stored.
pub fn username_is_valid(username: &str) -> (r: bool)
    ensures
        r == valid_username(username@),
{
    let n = username.unicode_len();
    if n == 0 {
        return false;
    }
    let mut i: usize = 0;
    while i < n
        invariant
            n == username@.len(),
            0 <= i <= n,
            forall|k: int| 0 <= k < i ==> #[trigger] username_char_ok(username@[k]),
        decreases n - i,
    {
        let c = username.get_char(i);
        let ok = ('a' <= c && c <= 'z') || ('A' <= c && c <= 'Z') || ('0' <= c && c <= '9') || c
            == '_' || c == '-';
        if !ok {
            assert(!username_char_ok(username@[i as int]));
            return false;
        }
        i += 1;
    }
    true
}

/// The file name under which a profile photo is stored: `profile_<username>.jpg`.
pub open spec fn profile_photo_filename_spec(username: Seq<char>) -> Seq<char> {
    "profile_"@ + username + ".jpg"@
}

/// The file name under which an id photo is stored: `id_<username>.jpg`.
pub open spec fn id_photo_filename_spec(username: Seq<char>) -> Seq<char> {
    "id_"@ + username + ".jpg"@
}

/// The relative path stored in the database for a profile photo.
pub open spec fn profile_photo_rel_path_spec(username: Seq<char>) -> Seq<char> {
    "uploads/profile/"@ + profile_photo_filename_spec(username)
}

/// The relative path stored in the database for an id photo.
pub open spec fn id_photo_rel_path_spec(username: Seq<char>) -> Seq<char> {
    "uploads/id/"@ + id_photo_filename_spec(username)
}

/// Derives the profile photo file name from the username.
pub fn profile_photo_filename(username: &str) -> (r: String)
    ensures
        r@ == profile_photo_filename_spec(username@),
{
    let mut s = String::from_str("profile_");
    s.append(username);
    s.append(".jpg");
    s
}

/// Derives the id photo file name from the username.
pub fn id_photo_filename(username: &str) -> (r: String)
    ensures
        r@ == id_photo_filename_spec(username@),
{
    let mut s = String::from_str("id_");
    s.append(username);
    s.append(".jpg");
    s
}

/// Derives the relative profile photo path recorded in the store.
pub fn profile_photo_rel_path(username: &str) -> (r: String)
    ensures
        r@ == profile_photo_rel_path_spec(username@),
{
    let filename = profile_photo_filename(username);
    let s = String::from_str("uploads/profile/");
    s.concat(filename.as_str())
}

/// Derives the relative id photo path recorded in the store.
pub fn id_photo_rel_path(username: &str) -> (r: String)
    ensures
        r@ == id_photo_rel_path_spec(username@),
{
    let filename = id_photo_filename(username);
    let s = String::from_str("uploads/id/");
    s.concat(filename.as_str())
}

/// Validates the two required registration fields: both must be present and
/// the username must pass the character-set check. A missing field or a bad
/// username makes the request malformed; it is never a process fault.
pub fn validate_registration(username: &Option<String>, password: &Option<String>) -> (r: bool)
    ensures
        r <==> ((*username) matches Some(u) && valid_username(u@) && (*password) is Some),
{
    match username {
        Some(u) => {
            match password {
                Some(_) => username_is_valid(u.as_str()),
                None => false,
            }
        },
        None => false,
    }
}

} // verus!
