use base64::Engine;
use vstd::prelude::*;
use vstd::string::StrSliceExecFns;

use crate::error::{AppError, ErrorKind};
use crate::identity::{Project, User};
use crate::service::GitService;

verus! {

/// Basic credentials as they travel in the `Authorization` header: the two
/// byte strings either side of the first colon of the decoded value.
#[derive(Debug)]
pub struct Credentials {
    pub username: Vec<u8>,
    pub password: Vec<u8>,
}

/// What `bcrypt` verification of `password` against the stored `hash` says.
/// The answer is a function of the two arguments alone.
pub uninterp spec fn bcrypt_matches(password: Seq<u8>, hash: Seq<char>) -> bool;

/// Relies on bcrypt::verify: recomputes the hash of `password` under the
/// cost and salt stored in `hash` and compares in constant time; the result
/// depends on the two arguments alone, and a malformed hash matches nothing.
#[verifier::external_body]
fn verify_password(password: &[u8], hash: &str) -> (r: bool)
    ensures
        r == bcrypt_matches(password@, hash@),
{
    bcrypt::verify(password, hash).unwrap_or(false)
}

/// What base64 decoding of `s` under the standard padded alphabet yields;
/// `None` where `s` is not well-formed base64.
pub uninterp spec fn base64_decode_of(s: Seq<char>) -> Option<Seq<u8>>;

/// Relies on base64's STANDARD engine: decodes the standard padded alphabet,
/// a function of the input alone.
#[verifier::external_body]
fn base64_decode(s: &str) -> (r: Option<Vec<u8>>)
    ensures
        match r {
            Some(v) => base64_decode_of(s@) == Some(v@),
            None => base64_decode_of(s@) is None,
        },
{
    base64::engine::general_purpose::STANDARD.decode(s).ok()
}

/// The position of the first colon in `bytes`, if any.
pub open spec fn first_colon(bytes: Seq<u8>) -> Option<int>
    decreases bytes.len(),
{
    if bytes.len() == 0 {
        None
    } else if bytes[0] == 58 {
        Some(0)
    } else {
        match first_colon(bytes.drop_first()) {
            Some(i) => Some(i + 1),
            None => None,
        }
    }
}

/// `first_colon` names the least index holding a colon, and `None` means
/// there is none.
pub proof fn lemma_first_colon(bytes: Seq<u8>)
    ensures
        match first_colon(bytes) {
            Some(i) => 0 <= i < bytes.len() && bytes[i] == 58 && (forall|j: int|
                0 <= j < i ==> bytes[j] != 58),
            None => forall|j: int| 0 <= j < bytes.len() ==> bytes[j] != 58,
        },
    decreases bytes.len(),
{
    if bytes.len() > 0 && bytes[0] != 58 {
        lemma_first_colon(bytes.drop_first());
        assert forall|j: int| 1 <= j < bytes.len() implies bytes[j] == bytes.drop_first()[j - 1] by {}
    }
}

/// The credentials carried by the decoded Basic value: what precedes the
/// first colon is the username, what follows it is the password.
pub open spec fn split_credentials(bytes: Seq<u8>) -> Option<(Seq<u8>, Seq<u8>)> {
    match first_colon(bytes) {
        Some(i) => Some((bytes.subrange(0, i), bytes.subrange(i + 1, bytes.len() as int))),
        None => None,
    }
}

/// Reads Basic credentials out of an `Authorization` header value. A missing
/// or undecodable header asks the client to retry with Basic credentials; a
/// decoded value without a colon carries no password and is refused without
/// a challenge.
#[verifier::loop_isolation(false)]
pub fn get_basic_auth_param(header: Option<&str>) -> (r: Result<Credentials, AppError>)
    ensures
        match header {
            None => (r matches Err(e) && e.kind == ErrorKind::Unauthorized && e.status == 401
                && e.challenge),
            Some(h) => if h@.len() < 6 || h@.subrange(0, 6) != "Basic "@ {
                (r matches Err(e) && e.kind == ErrorKind::Unauthorized && e.status == 401
                    && e.challenge)
            } else {
                match base64_decode_of(h@.subrange(6, h@.len() as int)) {
                    None => (r matches Err(e) && e.kind == ErrorKind::Unauthorized && e.status
                        == 401 && e.challenge),
                    Some(decoded) => match split_credentials(decoded) {
                        Some(parts) => (r matches Ok(c) && c.username@ == parts.0 && c.password@
                            == parts.1),
                        None => (r matches Err(e) && e.kind == ErrorKind::Unauthorized && e.status
                            == 401 && !e.challenge && e.message@ == "Password is empty"@),
                    },
                }
            },
        },
{
    let h = match header {
        Some(h) => h,
        None => {
            return Err(AppError::unauthorized("", true));
        },
    };
    let n = h.unicode_len();
    if n < 6 {
        return Err(AppError::unauthorized("", true));
    }
    let prefix = h.substring_char(0, 6);
    if !crate::strutil::str_eq(prefix, "Basic ") {
        return Err(AppError::unauthorized("", true));
    }
    let encoded = h.substring_char(6, n);
    let decoded = match base64_decode(encoded) {
        Some(d) => d,
        None => {
            return Err(AppError::unauthorized("", true));
        },
    };
    let mut i: usize = 0;
    let ghost db = decoded@;
    while i < decoded.len()
        invariant
            i <= db.len(),
            db == decoded@,
            forall|j: int| 0 <= j < i ==> db[j] != 58,
        decreases db.len() - i,
    {
        if decoded[i] == 58 {
            proof {
                lemma_first_colon(db);
                if first_colon(db) is None {
                    assert(false);
                }
                let fc = first_colon(db).unwrap();
                assert(fc == i) by {
                    if fc < i {
                        assert(db[fc] != 58);
                    }
                    if fc > i {
                        assert(db[i as int] != 58);
                    }
                }
            }
            let mut username: Vec<u8> = Vec::new();
            let mut k: usize = 0;
            while k < i
                invariant
                    k <= i <= db.len(),
                    db == decoded@,
                    username@ == db.subrange(0, k as int),
                decreases i - k,
            {
                username.push(decoded[k]);
                k += 1;
                assert(username@ =~= db.subrange(0, k as int));
            }
            let mut password: Vec<u8> = Vec::new();
            let mut t: usize = i + 1;
            while t < decoded.len()
                invariant
                    i + 1 <= t <= db.len(),
                    db == decoded@,
                    password@ == db.subrange(i + 1, t as int),
                decreases db.len() - t,
            {
                password.push(decoded[t]);
                t += 1;
                assert(password@ =~= db.subrange(i + 1, t as int));
            }
            return Ok(Credentials { username, password });
        }
        i += 1;
    }
    proof {
        lemma_first_colon(db);
        if first_colon(db) is Some {
            let fc = first_colon(db).unwrap();
            assert(db[fc] != 58);
        }
    }
    Err(AppError::unauthorized("Password is empty", false))
}

/// Settles a password check: the user row the store returned for the claimed
/// name (if any), held against the offered password. The caller learns the
/// authenticated user exactly when the row exists and the password matches
/// its stored hash.
pub fn authenticate_user(lookup: Option<User>, password: &[u8]) -> (r: Option<User>)
    ensures
        match lookup {
            Some(u) => if bcrypt_matches(password@, u.bcrypt_hash@) {
                r == Some(u)
            } else {
                r is None
            },
            None => r is None,
        },
{
    match lookup {
        Some(u) => {
            if verify_password(password, u.bcrypt_hash.as_str()) {
                Some(u)
            } else {
                None
            }
        },
        None => None,
    }
}

/// The access-control gate. Fetch is public: `upload-pack` is always
/// allowed once the identity resolved. Push requires an authenticated user,
/// and that user must own the project: a missing identity is unauthorized,
/// a proven identity without ownership is forbidden.
pub fn check_scope(service: GitService, project: &Project, auth: Option<&User>) -> (r: Result<
    (),
    AppError,
>)
    ensures
        service == GitService::UploadPack ==> r is Ok,
        service == GitService::ReceivePack ==> match auth {
            None => (r matches Err(e) && e.kind == ErrorKind::Unauthorized && e.status == 401
                && !e.challenge),
            Some(u) => if u.id == project.user_id {
                r is Ok
            } else {
                (r matches Err(e) && e.kind == ErrorKind::Forbidden && e.status == 403
                    && !e.challenge)
            },
        },
{
    match service {
        GitService::UploadPack => Ok(()),
        GitService::ReceivePack => {
            match auth {
                None => Err(AppError::unauthorized("authentication required", false)),
                Some(u) => {
                    if u.id == project.user_id {
                        Ok(())
                    } else {
                        Err(AppError::forbidden("not the owner of the repository"))
                    }
                },
            }
        },
    }
}

} // verus!
