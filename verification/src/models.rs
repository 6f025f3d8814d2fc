use vstd::prelude::*;

use crate::error::{AppError, ErrorKind};
use crate::form::{form_pairs_of, last_param, last_param_of, pair_views, parse_form_pairs};
use crate::strutil::{opt_string_chars, split_on, split_str, str_eq};

verus! {

/// What an access token may do.
#[derive(Clone, Copy, Debug, PartialEq, Eq, Structural)]
pub enum Scope {
    Read,
    Write,
}

/// The scope one token names, if any.
pub open spec fn scope_of(s: Seq<char>) -> Option<Scope> {
    if s == "read"@ {
        Some(Scope::Read)
    } else if s == "write"@ {
        Some(Scope::Write)
    } else {
        None
    }
}

/// Reads one scope name.
pub fn parse_scope(s: &str) -> (r: Option<Scope>)
    ensures
        r == scope_of(s@),
{
    if str_eq(s, "read") {
        Some(Scope::Read)
    } else if str_eq(s, "write") {
        Some(Scope::Write)
    } else {
        None
    }
}

impl core::str::FromStr for Scope {
    type Err = AppError;

    fn from_str(s: &str) -> Result<Scope, AppError> {
        match parse_scope(s) {
            Some(scope) => Ok(scope),
            None => Err(AppError::invalid_request(400, "Failed to parse scope value")),
        }
    }
}

/// The scopes a list of tokens names, in order; tokens that name no scope
/// are dropped.
pub open spec fn parse_scopes(segs: Seq<Seq<char>>) -> Seq<Scope>
    decreases segs.len(),
{
    if segs.len() == 0 {
        Seq::empty()
    } else {
        parse_scopes(segs.drop_last()) + (match scope_of(segs.last()) {
            Some(scope) => seq![scope],
            None => Seq::<Scope>::empty(),
        })
    }
}

/// Reads a space-separated scope list, dropping what names no scope.
#[verifier::loop_isolation(false)]
pub fn scope_list(s: &str) -> (r: Vec<Scope>)
    ensures
        r@ == parse_scopes(split_on(s@, ' ')),
{
    let segs = split_str(s, ' ');
    let ghost names = split_on(s@, ' ');
    let mut out: Vec<Scope> = Vec::new();
    let mut i: usize = 0;
    while i < segs.len()
        invariant
            i <= segs@.len(),
            out@ == parse_scopes(names.subrange(0, i as int)),
        decreases segs@.len() - i,
    {
        proof {
            assert(names.subrange(0, i + 1).drop_last() =~= names.subrange(0, i as int));
            assert(names.subrange(0, i + 1).last() == names[i as int]);
        }
        match parse_scope(segs[i].as_str()) {
            Some(scope) => {
                out.push(scope);
            },
            None => (),
        }
        i += 1;
        proof {
            assert(out@ =~= parse_scopes(names.subrange(0, i as int)));
        }
    }
    proof {
        assert(names.subrange(0, names.len() as int) =~= names);
    }
    out
}

/// Whether `scope` holds exactly what the optional `scope` parameter names:
/// absent parameter, no scopes; present parameter, the parsed list.
pub open spec fn scope_matches(scope: Option<Vec<Scope>>, param: Option<Seq<char>>) -> bool {
    match param {
        Some(v) => (scope matches Some(list) && list@ == parse_scopes(split_on(v, ' '))),
        None => scope is None,
    }
}

fn scope_param(pairs: &Vec<(String, String)>) -> (r: Option<Vec<Scope>>)
    ensures
        scope_matches(r, last_param_of(pair_views(pairs@), "scope"@)),
{
    match last_param(pairs, "scope") {
        Some(v) => Some(scope_list(v.as_str())),
        None => None,
    }
}

/// A public key to register for a user.
pub struct NewPublicKey {
    pub key: String,
    pub user_id: i32,
    pub title: String,
}

/// An SSH key to register for a user.
pub struct NewSshKey {
    pub key: String,
    pub user_id: i32,
    pub description: Option<String>,
}

/// An OAuth application to register.
pub struct NewApplication {
    pub name: String,
    pub client_id: String,
}

/// The response type an authorization request asks for.
#[derive(Clone, Copy, Debug, PartialEq, Eq, Structural)]
pub enum ResponseType {
    Code,
    Token,
}

/// The response type one token names, if any.
pub open spec fn response_type_of(s: Seq<char>) -> Option<ResponseType> {
    if s == "code"@ {
        Some(ResponseType::Code)
    } else if s == "token"@ {
        Some(ResponseType::Token)
    } else {
        None
    }
}

/// Reads one response-type name.
pub fn parse_response_type(s: &str) -> (r: Option<ResponseType>)
    ensures
        r == response_type_of(s@),
{
    if str_eq(s, "code") {
        Some(ResponseType::Code)
    } else if str_eq(s, "token") {
        Some(ResponseType::Token)
    } else {
        None
    }
}

impl core::str::FromStr for ResponseType {
    type Err = ();

    fn from_str(s: &str) -> Result<ResponseType, ()> {
        match parse_response_type(s) {
            Some(rt) => Ok(rt),
            None => Err(()),
        }
    }
}

/// The parameters of an authorization request, as its query string carries
/// them.
#[derive(Debug)]
pub struct AuthorizeRequestParam {
    pub response_type: ResponseType,
    pub client_id: String,
    pub redirect_uri: Option<String>,
    pub scope: Option<Vec<Scope>>,
    pub state: Option<String>,
}

impl AuthorizeRequestParam {
    /// Reads an authorization request out of a raw query string. The
    /// response type and the client id are required; a later occurrence of a
    /// parameter overrides an earlier one.
    pub fn from_url(query: &[u8]) -> (r: Result<AuthorizeRequestParam, AppError>)
        ensures
            ({
                let pairs = form_pairs_of(query@);
                match last_param_of(pairs, "response_type"@) {
                    None => (r matches Err(e) && e.kind == ErrorKind::InvalidRequest && e.status
                        == 400 && !e.challenge && e.message@ == "invalid_request"@),
                    Some(v) => match response_type_of(v) {
                        None => (r matches Err(e) && e.kind == ErrorKind::InvalidRequest && e.status
                            == 400 && !e.challenge && e.message@ == "unsupported_response_type"@),
                        Some(rt) => match last_param_of(pairs, "client_id"@) {
                            None => (r matches Err(e) && e.kind == ErrorKind::InvalidRequest
                                && e.status == 400 && !e.challenge && e.message@
                                == "invalid_request"@),
                            Some(cid) => (r matches Ok(p) && p.response_type == rt && p.client_id@
                                == cid && opt_string_chars(p.redirect_uri) == last_param_of(
                                pairs,
                                "redirect_uri"@,
                            ) && scope_matches(p.scope, last_param_of(pairs, "scope"@))
                                && opt_string_chars(p.state) == last_param_of(pairs, "state"@)),
                        },
                    },
                }
            }),
    {
        let pairs = parse_form_pairs(query);
        let response_type = match last_param(&pairs, "response_type") {
            Some(v) => v,
            None => {
                return Err(AppError::invalid_request(400, "invalid_request"));
            },
        };
        let response_type = match parse_response_type(response_type.as_str()) {
            Some(rt) => rt,
            None => {
                return Err(AppError::invalid_request(400, "unsupported_response_type"));
            },
        };
        let client_id = match last_param(&pairs, "client_id") {
            Some(v) => v,
            None => {
                return Err(AppError::invalid_request(400, "invalid_request"));
            },
        };
        let redirect_uri = last_param(&pairs, "redirect_uri");
        let scope = scope_param(&pairs);
        let state = last_param(&pairs, "state");
        Ok(AuthorizeRequestParam { response_type, client_id, redirect_uri, scope, state })
    }
}

/// A token request, as its form-urlencoded body carries it: which grant the
/// client asks for, with the credentials and scopes that belong to it.
#[derive(Debug)]
pub enum GrantType {
    AuthorizationCode {
        code: String,
        client_id: String,
        client_secret: String,
        redirect_uri: Option<String>,
    },
    Password {
        username: String,
        password: String,
        client_id: String,
        client_secret: String,
        scope: Option<Vec<Scope>>,
    },
    ClientCredentials {
        client_id: String,
        client_secret: String,
        scope: Option<Vec<Scope>>,
    },
}

impl GrantType {
    /// Reads a token request out of a raw form-urlencoded body. The client
    /// id and secret are always required; each grant then demands its own
    /// parameters, and an unknown or missing grant name is refused.
    pub fn from_vec(body: &[u8]) -> (r: Result<GrantType, &'static str>)
        ensures
            ({
                let pairs = form_pairs_of(body@);
                let client_id = last_param_of(pairs, "client_id"@);
                let client_secret = last_param_of(pairs, "client_secret"@);
                if client_id is None || client_secret is None {
                    (r matches Err(m) && m@ == "invalid_request"@)
                } else {
                    match last_param_of(pairs, "grant_type"@) {
                        None => (r matches Err(m) && m@ == "invalid_grant"@),
                        Some(g) => if g == "authorization_code"@ {
                            match last_param_of(pairs, "code"@) {
                                None => (r matches Err(m) && m@ == "invalid_request"@),
                                Some(code) => (r matches Ok(gt) && (gt matches
                                GrantType::AuthorizationCode {
                                    code: c,
                                    client_id: ci,
                                    client_secret: cs,
                                    redirect_uri: ru,
                                } && c@ == code && ci@ == client_id.unwrap() && cs@
                                    == client_secret.unwrap() && opt_string_chars(ru)
                                    == last_param_of(pairs, "redirect_uri"@))),
                            }
                        } else if g == "password"@ {
                            match (last_param_of(pairs, "username"@), last_param_of(
                                pairs,
                                "password"@,
                            )) {
                                (Some(un), Some(pw)) => (r matches Ok(gt) && (gt matches
                                GrantType::Password {
                                    username: u,
                                    password: p,
                                    client_id: ci,
                                    client_secret: cs,
                                    scope: sc,
                                } && u@ == un && p@ == pw && ci@ == client_id.unwrap() && cs@
                                    == client_secret.unwrap() && scope_matches(
                                    sc,
                                    last_param_of(pairs, "scope"@),
                                ))),
                                _ => (r matches Err(m) && m@ == "invalid_request"@),
                            }
                        } else if g == "client_credentials"@ {
                            (r matches Ok(gt) && (gt matches GrantType::ClientCredentials {
                                client_id: ci,
                                client_secret: cs,
                                scope: sc,
                            } && ci@ == client_id.unwrap() && cs@ == client_secret.unwrap()
                                && scope_matches(sc, last_param_of(pairs, "scope"@))))
                        } else {
                            (r matches Err(m) && m@ == "unsupported_grant"@)
                        },
                    }
                }
            }),
    {
        let pairs = parse_form_pairs(body);
        let client_id = match last_param(&pairs, "client_id") {
            Some(v) => v,
            None => {
                return Err("invalid_request");
            },
        };
        let client_secret = match last_param(&pairs, "client_secret") {
            Some(v) => v,
            None => {
                return Err("invalid_request");
            },
        };
        let grant_type = match last_param(&pairs, "grant_type") {
            Some(g) => g,
            None => {
                return Err("invalid_grant");
            },
        };
        if str_eq(grant_type.as_str(), "authorization_code") {
            let code = match last_param(&pairs, "code") {
                Some(c) => c,
                None => {
                    return Err("invalid_request");
                },
            };
            let redirect_uri = last_param(&pairs, "redirect_uri");
            Ok(GrantType::AuthorizationCode { code, client_id, client_secret, redirect_uri })
        } else if str_eq(grant_type.as_str(), "password") {
            let username = match last_param(&pairs, "username") {
                Some(u) => u,
                None => {
                    return Err("invalid_request");
                },
            };
            let password = match last_param(&pairs, "password") {
                Some(p) => p,
                None => {
                    return Err("invalid_request");
                },
            };
            let scope = scope_param(&pairs);
            Ok(GrantType::Password { username, password, client_id, client_secret, scope })
        } else if str_eq(grant_type.as_str(), "client_credentials") {
            let scope = scope_param(&pairs);
            Ok(GrantType::ClientCredentials { client_id, client_secret, scope })
        } else {
            Err("unsupported_grant")
        }
    }
}

/// The claims of one authorization code: who authorized which client, where
/// the client is sent back, and with which scopes.
pub struct AuthorizationCode {
    pub user_id: i32,
    pub client_id: String,
    pub redirect_uri: String,
    pub scope: Option<Vec<Scope>>,
}

impl AuthorizationCode {
    /// Assembles the claims of one authorization code.
    pub fn new(user_id: i32, client_id: &str, redirect_uri: &str, scope: Option<Vec<Scope>>) -> (r:
        Self)
        ensures
            r.user_id == user_id,
            r.client_id@ == client_id@,
            r.redirect_uri@ == redirect_uri@,
            r.scope == scope,
    {
        AuthorizationCode {
            user_id,
            client_id: client_id.to_owned(),
            redirect_uri: redirect_uri.to_owned(),
            scope,
        }
    }
}

} // verus!
