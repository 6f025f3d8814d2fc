use std::io::Read;
use vstd::prelude::*;

use crate::auth::{authenticate_user, base64_decode_of, bcrypt_matches, check_scope, get_basic_auth_param, split_credentials};
use crate::error::{AppError, ErrorKind};
use crate::form::{form_pairs_of, last_param, last_param_of, parse_form_pairs};
use crate::identity::{resolve_project, Project, User};
use crate::pktline::{flush_frame, packet_write, pkt_encoded};
use crate::service::{advertisement_media_type, advertisement_media_type_string, request_media_type, request_media_type_string, result_media_type, result_media_type_string, service_announcement, service_announcement_bytes, GitService};
use crate::strutil::{chars_as_bytes, str_eq, str_to_bytes};

verus! {

/// One HTTP response as the protocol handler decides it: the status, the
/// headers that matter to the protocol, and the body.
pub struct HttpReply {
    pub status: u16,
    pub content_type: Option<String>,
    pub no_cache: bool,
    pub www_authenticate: Option<String>,
    pub body: Vec<u8>,
}

/// The shape of a refusal: its classification, HTTP status, and whether the
/// response carries a Basic challenge. Refusal messages are diagnostics and
/// stay out of the protocol's decisions.
#[derive(Clone, Copy, Debug, PartialEq, Eq, Structural)]
pub struct Rejection {
    pub kind: ErrorKind,
    pub status: u16,
    pub challenge: bool,
}

/// Whether `e` is a refusal of shape `rj`.
pub open spec fn rejects(e: AppError, rj: Rejection) -> bool {
    e.kind == rj.kind && e.status == rj.status && e.challenge == rj.challenge
}

/// The characters of an optional header value.
pub open spec fn opt_chars(s: Option<&str>) -> Option<Seq<char>> {
    match s {
        Some(x) => Some(x@),
        None => None,
    }
}

/// What gzip inflation of a complete stream `b` yields; `None` where `b` is
/// not a well-formed gzip stream.
pub uninterp spec fn gunzip_of(b: Seq<u8>) -> Option<Seq<u8>>;

/// Relies on flate2's GzDecoder: inflates one complete gzip stream, a
/// function of the bytes alone.
#[verifier::external_body]
fn gzip_decode(body: &[u8]) -> (r: Option<Vec<u8>>)
    ensures
        match r {
            Some(v) => gunzip_of(body@) == Some(v@),
            None => gunzip_of(body@) is None,
        },
{
    let mut decoder = flate2::read::GzDecoder::new(body);
    let mut out: Vec<u8> = Vec::new();
    match decoder.read_to_end(&mut out) {
        Ok(_) => Some(out),
        Err(_) => None,
    }
}

/// Whether the declared content encodings name gzip.
pub fn has_gzip_encoding(encodings: &Vec<String>) -> (r: bool)
    ensures
        r == (exists|i: int| 0 <= i < encodings@.len() && encodings@[i]@ == "gzip"@),
{
    let mut i: usize = 0;
    while i < encodings.len()
        invariant
            i <= encodings@.len(),
            forall|j: int| 0 <= j < i ==> encodings@[j]@ != "gzip"@,
        decreases encodings@.len() - i,
    {
        if str_eq(encodings[i].as_str(), "gzip") {
            return true;
        }
        i += 1;
    }
    false
}

/// Hands the request body on to the subprocess, inflating it first when the
/// request declared gzip content encoding.
pub fn decode_rpc_body(body: Vec<u8>, gzip: bool) -> (r: Result<Vec<u8>, AppError>)
    ensures
        !gzip ==> (r matches Ok(v) && v@ == body@),
        gzip ==> match gunzip_of(body@) {
            Some(d) => (r matches Ok(v) && v@ == d),
            None => (r matches Err(e) && e.kind == ErrorKind::UpstreamFailure && e.status == 500
                && !e.challenge),
        },
{
    if !gzip {
        return Ok(body);
    }
    match gzip_decode(body.as_slice()) {
        Some(d) => Ok(d),
        None => Err(AppError::upstream("the request body is not a well-formed gzip stream".to_owned())),
    }
}

/// Requires the request to declare exactly the media type of an RPC request
/// for `service`; anything else is refused as unauthorized.
pub fn check_rpc_content_type(header: Option<&str>, service: GitService) -> (r: Result<
    (),
    AppError,
>)
    ensures
        match header {
            Some(h) => if h@ == request_media_type(service) {
                r is Ok
            } else {
                (r matches Err(e) && e.kind == ErrorKind::Unauthorized && e.status == 401
                    && !e.challenge)
            },
            None => (r matches Err(e) && e.kind == ErrorKind::Unauthorized && e.status == 401
                && !e.challenge),
        },
{
    match header {
        Some(h) => {
            let expected = request_media_type_string(service);
            if str_eq(h, expected.as_str()) {
                Ok(())
            } else {
                Err(AppError::unauthorized("unexpected content type", false))
            }
        },
        None => Err(AppError::unauthorized("unexpected content type", false)),
    }
}

fn flush_frame_bytes() -> (r: Vec<u8>)
    ensures
        r@ == flush_frame(),
{
    let mut v: Vec<u8> = Vec::new();
    v.push(48);
    v.push(48);
    v.push(48);
    v.push(48);
    proof {
        assert(v@ =~= flush_frame());
    }
    v
}

/// The body of an advertisement response: the framed service announcement,
/// the flush frame, then the raw advertised refs.
pub fn info_refs_body(service: GitService, refs: Vec<u8>) -> (r: Vec<u8>)
    ensures
        r@ == pkt_encoded(service_announcement(service)) + flush_frame() + refs@,
{
    let ann = service_announcement_bytes(service);
    let mut body = match packet_write(ann.as_slice()) {
        Ok(b) => b,
        Err(_) => {
            proof {
                assert(false);
            }
            Vec::new()
        },
    };
    let mut flush = flush_frame_bytes();
    body.append(&mut flush);
    let mut tail = refs;
    body.append(&mut tail);
    proof {
        assert(body@ =~= pkt_encoded(service_announcement(service)) + flush_frame() + refs@);
    }
    body
}

/// An advertisement response body opens with the framed announcement
/// followed by the flush frame, whatever the advertised refs are.
pub proof fn lemma_advertisement_prefix(service: GitService, refs: Seq<u8>)
    ensures
        (pkt_encoded(service_announcement(service)) + flush_frame() + refs).take(
            pkt_encoded(service_announcement(service)).len() + 4 as int,
        ) == pkt_encoded(service_announcement(service)) + flush_frame(),
{
    assert((pkt_encoded(service_announcement(service)) + flush_frame() + refs).take(
        pkt_encoded(service_announcement(service)).len() + 4 as int,
    ) =~= pkt_encoded(service_announcement(service)) + flush_frame());
}

/// The successful advertisement response: status 200, the advertisement
/// media type, the no-cache directive, and the announced body.
pub fn advertisement_reply(service: GitService, refs: Vec<u8>) -> (r: HttpReply)
    ensures
        r.status == 200,
        (r.content_type matches Some(ct) && ct@ == advertisement_media_type(service)),
        r.no_cache,
        r.www_authenticate is None,
        r.body@ == pkt_encoded(service_announcement(service)) + flush_frame() + refs@,
{
    HttpReply {
        status: 200,
        content_type: Some(advertisement_media_type_string(service)),
        no_cache: true,
        www_authenticate: None,
        body: info_refs_body(service, refs),
    }
}

/// The successful RPC response: status 200, the result media type, and the
/// subprocess output passed through unchanged.
pub fn rpc_result_reply(service: GitService, output: Vec<u8>) -> (r: HttpReply)
    ensures
        r.status == 200,
        (r.content_type matches Some(ct) && ct@ == result_media_type(service)),
        !r.no_cache,
        r.www_authenticate is None,
        r.body@ == output@,
{
    HttpReply {
        status: 200,
        content_type: Some(result_media_type_string(service)),
        no_cache: false,
        www_authenticate: None,
        body: output,
    }
}

/// The response a refusal maps to: its status, its reason as the body, and
/// the Basic challenge where the refusal asks for one.
pub fn error_reply(e: AppError) -> (r: HttpReply)
    ensures
        r.status == e.status,
        r.content_type is None,
        !r.no_cache,
        e.challenge ==> (r.www_authenticate matches Some(w) && w@ == "Basic realm=\"main\""@),
        !e.challenge ==> r.www_authenticate is None,
        r.body@ == chars_as_bytes(e.message@),
{
    HttpReply {
        status: e.status,
        content_type: None,
        no_cache: false,
        www_authenticate: if e.challenge {
            Some("Basic realm=\"main\"".to_owned())
        } else {
            None
        },
        body: str_to_bytes(e.message.as_str()),
    }
}

/// What the `service` query parameter resolves to.
pub open spec fn spec_service(param: Option<Seq<char>>) -> Result<GitService, Rejection> {
    match param {
        Some(p) => if p == "git-upload-pack"@ {
            Ok(GitService::UploadPack)
        } else if p == "git-receive-pack"@ {
            Ok(GitService::ReceivePack)
        } else {
            Err(Rejection { kind: ErrorKind::InvalidRequest, status: 403, challenge: false })
        },
        None => Err(Rejection { kind: ErrorKind::InvalidRequest, status: 403, challenge: false }),
    }
}

/// What identity resolution decides.
pub open spec fn spec_resolve(lookup: Option<Project>, path_is_dir: bool) -> Result<
    Project,
    Rejection,
> {
    match lookup {
        None => Err(Rejection { kind: ErrorKind::NotFound, status: 404, challenge: false }),
        Some(p) => if path_is_dir {
            Ok(p)
        } else {
            Err(Rejection { kind: ErrorKind::NotFound, status: 404, challenge: false })
        },
    }
}

/// Negotiates the service straight from the raw query string of an
/// advertisement request: the last `service` parameter decides, and only the
/// two `git-` service names are accepted.
pub fn service_from_query(query: &[u8]) -> (r: Result<GitService, AppError>)
    ensures
        match spec_service(last_param_of(form_pairs_of(query@), "service"@)) {
            Ok(s) => r == Ok::<GitService, AppError>(s),
            Err(rj) => (r matches Err(e) && rejects(e, rj)),
        },
{
    let pairs = parse_form_pairs(query);
    let found = last_param(&pairs, "service");
    match &found {
        Some(v) => crate::service::get_service_name(Some(v.as_str())),
        None => crate::service::get_service_name(None),
    }
}

/// What reading Basic credentials out of the `Authorization` header decides.
pub open spec fn spec_credentials(header: Option<Seq<char>>) -> Result<
    (Seq<u8>, Seq<u8>),
    Rejection,
> {
    match header {
        None => Err(Rejection { kind: ErrorKind::Unauthorized, status: 401, challenge: true }),
        Some(h) => if h.len() < 6 || h.subrange(0, 6) != "Basic "@ {
            Err(Rejection { kind: ErrorKind::Unauthorized, status: 401, challenge: true })
        } else {
            match base64_decode_of(h.subrange(6, h.len() as int)) {
                None => Err(
                    Rejection { kind: ErrorKind::Unauthorized, status: 401, challenge: true },
                ),
                Some(decoded) => match split_credentials(decoded) {
                    Some(parts) => Ok(parts),
                    None => Err(
                        Rejection { kind: ErrorKind::Unauthorized, status: 401, challenge: false },
                    ),
                },
            }
        },
    }
}

/// Who the offered password authenticates, given the user row the store
/// returned for the claimed name.
pub open spec fn spec_authenticate(user_lookup: Option<User>, password: Seq<u8>) -> Option<User> {
    match user_lookup {
        Some(u) => if bcrypt_matches(password, u.bcrypt_hash@) {
            Some(u)
        } else {
            None
        },
        None => None,
    }
}

/// What the access gate decides for one request: fetch is public; push
/// demands credentials that authenticate the project's owner.
pub open spec fn spec_scope(
    service: GitService,
    project: Project,
    header: Option<Seq<char>>,
    user_lookup: Option<User>,
) -> Result<(), Rejection> {
    match service {
        GitService::UploadPack => Ok(()),
        GitService::ReceivePack => match spec_credentials(header) {
            Err(rj) => Err(rj),
            Ok(parts) => match spec_authenticate(user_lookup, parts.1) {
                None => Err(
                    Rejection { kind: ErrorKind::Unauthorized, status: 401, challenge: false },
                ),
                Some(user) => if user.id == project.user_id {
                    Ok(())
                } else {
                    Err(Rejection { kind: ErrorKind::Forbidden, status: 403, challenge: false })
                },
            },
        },
    }
}

/// What the advertisement route decides, given the environment's answers:
/// which service to advertise over which project, or the refusal.
pub open spec fn spec_info_refs(
    param: Option<Seq<char>>,
    lookup: Option<Project>,
    path_is_dir: bool,
    header: Option<Seq<char>>,
    user_lookup: Option<User>,
) -> Result<(GitService, Project), Rejection> {
    match spec_service(param) {
        Err(rj) => Err(rj),
        Ok(service) => match spec_resolve(lookup, path_is_dir) {
            Err(rj) => Err(rj),
            Ok(project) => match spec_scope(service, project, header, user_lookup) {
                Err(rj) => Err(rj),
                Ok(_) => Ok((service, project)),
            },
        },
    }
}

/// What an RPC route decides, given the environment's answers: the resolved
/// project and the body to stream into the subprocess, or the refusal.
pub open spec fn spec_service_rpc(
    service: GitService,
    lookup: Option<Project>,
    path_is_dir: bool,
    header: Option<Seq<char>>,
    user_lookup: Option<User>,
    content_type: Option<Seq<char>>,
    gzip: bool,
    body: Seq<u8>,
) -> Result<(Project, Seq<u8>), Rejection> {
    match spec_resolve(lookup, path_is_dir) {
        Err(rj) => Err(rj),
        Ok(project) => match spec_scope(service, project, header, user_lookup) {
            Err(rj) => Err(rj),
            Ok(_) => match content_type {
                None => Err(
                    Rejection { kind: ErrorKind::Unauthorized, status: 401, challenge: false },
                ),
                Some(ct) => if ct != request_media_type(service) {
                    Err(Rejection { kind: ErrorKind::Unauthorized, status: 401, challenge: false })
                } else if gzip {
                    match gunzip_of(body) {
                        Some(d) => Ok((project, d)),
                        None => Err(
                            Rejection {
                                kind: ErrorKind::UpstreamFailure,
                                status: 500,
                                challenge: false,
                            },
                        ),
                    }
                } else {
                    Ok((project, body))
                },
            },
        },
    }
}

fn run_scope_check(
    service: GitService,
    project: &Project,
    auth_header: Option<&str>,
    user_lookup: Option<User>,
) -> (r: Result<(), AppError>)
    ensures
        match spec_scope(service, *project, opt_chars(auth_header), user_lookup) {
            Ok(_) => r is Ok,
            Err(rj) => (r matches Err(e) && rejects(e, rj)),
        },
{
    match service {
        GitService::UploadPack => Ok(()),
        GitService::ReceivePack => {
            let creds = match get_basic_auth_param(auth_header) {
                Ok(c) => c,
                Err(e) => {
                    return Err(e);
                },
            };
            let auth = authenticate_user(user_lookup, creds.password.as_slice());
            check_scope(service, project, auth.as_ref())
        },
    }
}

/// Drives the advertisement route over the environment's answers: the raw
/// query string, the project row the resolver found, whether the derived
/// path is a directory, the `Authorization` header, and the user row the
/// store returned for the claimed name. Hands back the service to advertise
/// with the resolved project, or the refusal to send.
pub fn handle_info_refs(
    query: &[u8],
    lookup: Option<Project>,
    path_is_dir: bool,
    auth_header: Option<&str>,
    user_lookup: Option<User>,
) -> (r: Result<(GitService, Project), AppError>)
    ensures
        match spec_info_refs(
            last_param_of(form_pairs_of(query@), "service"@),
            lookup,
            path_is_dir,
            opt_chars(auth_header),
            user_lookup,
        ) {
            Ok(sp) => (r matches Ok(t) && t == sp),
            Err(rj) => (r matches Err(e) && rejects(e, rj)),
        },
{
    let service = match service_from_query(query) {
        Ok(s) => s,
        Err(e) => {
            return Err(e);
        },
    };
    let project = match resolve_project(lookup, path_is_dir) {
        Ok(p) => p,
        Err(e) => {
            return Err(e);
        },
    };
    match run_scope_check(service, &project, auth_header, user_lookup) {
        Ok(_) => Ok((service, project)),
        Err(e) => Err(e),
    }
}

/// Drives one RPC route over the environment's answers. On success hands
/// back the resolved project and the request body ready for the subprocess,
/// inflated when the request declared gzip encoding.
pub fn handle_service_rpc(
    service: GitService,
    lookup: Option<Project>,
    path_is_dir: bool,
    auth_header: Option<&str>,
    user_lookup: Option<User>,
    content_type: Option<&str>,
    gzip: bool,
    body: Vec<u8>,
) -> (r: Result<(Project, Vec<u8>), AppError>)
    ensures
        match spec_service_rpc(
            service,
            lookup,
            path_is_dir,
            opt_chars(auth_header),
            user_lookup,
            opt_chars(content_type),
            gzip,
            body@,
        ) {
            Ok(pb) => (r matches Ok(t) && t.0 == pb.0 && t.1@ == pb.1),
            Err(rj) => (r matches Err(e) && rejects(e, rj)),
        },
{
    let project = match resolve_project(lookup, path_is_dir) {
        Ok(p) => p,
        Err(e) => {
            return Err(e);
        },
    };
    match run_scope_check(service, &project, auth_header, user_lookup) {
        Ok(_) => (),
        Err(e) => {
            return Err(e);
        },
    }
    match check_rpc_content_type(content_type, service) {
        Ok(_) => (),
        Err(e) => {
            return Err(e);
        },
    }
    match decode_rpc_body(body, gzip) {
        Ok(decoded) => Ok((project, decoded)),
        Err(e) => Err(e),
    }
}

/// Fetch needs no credentials: every `upload-pack` request on a resolved
/// identity passes the access check.
pub proof fn lemma_fetch_is_public(
    project: Project,
    header: Option<Seq<char>>,
    user_lookup: Option<User>,
)
    ensures
        spec_scope(GitService::UploadPack, project, header, user_lookup) is Ok,
{
}

/// Push without credentials is refused with a Basic challenge, for
/// every project and whatever the user store answered.
pub proof fn lemma_push_needs_credentials(project: Project, user_lookup: Option<User>)
    ensures
        spec_scope(GitService::ReceivePack, project, None, user_lookup) == Err::<(), Rejection>(
            Rejection { kind: ErrorKind::Unauthorized, status: 401, challenge: true },
        ),
{
}

/// A push whose credentials authenticate a user other than the
/// project's owner is forbidden, not merely unauthorized: the client proved
/// an identity but lacks rights.
pub proof fn lemma_push_by_non_owner_forbidden(
    project: Project,
    header: Option<Seq<char>>,
    user_lookup: Option<User>,
    parts: (Seq<u8>, Seq<u8>),
    user: User,
)
    requires
        spec_credentials(header) == Ok::<(Seq<u8>, Seq<u8>), Rejection>(parts),
        spec_authenticate(user_lookup, parts.1) == Some(user),
        user.id != project.user_id,
    ensures
        spec_scope(GitService::ReceivePack, project, header, user_lookup) == Err::<(), Rejection>(
            Rejection { kind: ErrorKind::Forbidden, status: 403, challenge: false },
        ),
{
}

/// A push whose credentials authenticate nobody — the claimed user does
/// not exist or the password does not match the stored hash — is refused
/// without a challenge.
pub proof fn lemma_push_with_wrong_password_refused(
    project: Project,
    header: Option<Seq<char>>,
    user_lookup: Option<User>,
    parts: (Seq<u8>, Seq<u8>),
)
    requires
        spec_credentials(header) == Ok::<(Seq<u8>, Seq<u8>), Rejection>(parts),
        spec_authenticate(user_lookup, parts.1) is None,
    ensures
        spec_scope(GitService::ReceivePack, project, header, user_lookup) == Err::<(), Rejection>(
            Rejection { kind: ErrorKind::Unauthorized, status: 401, challenge: false },
        ),
{
}

/// An advertisement request for a project the resolver cannot find is
/// not found, whatever service it asks for and whatever credentials it
/// carries.
pub proof fn lemma_unresolved_identity_is_not_found(
    param: Option<Seq<char>>,
    header: Option<Seq<char>>,
    user_lookup: Option<User>,
)
    requires
        spec_service(param) is Ok,
    ensures
        spec_info_refs(param, None, false, header, user_lookup) == Err::<
            (GitService, Project),
            Rejection,
        >(Rejection { kind: ErrorKind::NotFound, status: 404, challenge: false }),
{
}

} // verus!
