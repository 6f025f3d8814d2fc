use vstd::prelude::*;
use vstd::string::StringExecFns;

use crate::error::{AppError, ErrorKind};
use crate::strutil::{chars_as_bytes, str_eq, str_to_bytes};

verus! {

/// The two Git services the Smart HTTP transport supports.
#[derive(Clone, Copy, Debug, PartialEq, Eq, Structural)]
pub enum GitService {
    /// Fetch and clone.
    UploadPack,
    /// Push.
    ReceivePack,
}

/// The service's name as the `git` executable knows it.
pub open spec fn service_name(s: GitService) -> Seq<char> {
    match s {
        GitService::UploadPack => "upload-pack"@,
        GitService::ReceivePack => "receive-pack"@,
    }
}

/// The service's name as the `git` executable knows it.
pub fn service_name_str(s: GitService) -> (r: &'static str)
    ensures
        r@ == service_name(s),
{
    match s {
        GitService::UploadPack => "upload-pack",
        GitService::ReceivePack => "receive-pack",
    }
}

/// Maps the `service` query parameter of an advertisement request to the
/// service it names. Only the two literal `git-` names are capabilities this
/// endpoint advertises; anything else is refused outright.
pub fn get_service_name(param: Option<&str>) -> (r: Result<GitService, AppError>)
    ensures
        match param {
            Some(p) => if p@ == "git-upload-pack"@ {
                r == Ok::<GitService, AppError>(GitService::UploadPack)
            } else if p@ == "git-receive-pack"@ {
                r == Ok::<GitService, AppError>(GitService::ReceivePack)
            } else {
                (r matches Err(e) && e.kind == ErrorKind::InvalidRequest && e.status == 403
                    && !e.challenge)
            },
            None => (r matches Err(e) && e.kind == ErrorKind::InvalidRequest && e.status == 403
                && !e.challenge && e.message@ == "Requires service name"@),
        },
{
    match param {
        Some(p) => {
            if str_eq(p, "git-upload-pack") {
                Ok(GitService::UploadPack)
            } else if str_eq(p, "git-receive-pack") {
                Ok(GitService::ReceivePack)
            } else {
                Err(AppError::invalid_request(403, "Invalid service name"))
            }
        },
        None => Err(AppError::invalid_request(403, "Requires service name")),
    }
}

/// The media type of an advertisement response for `s`.
pub open spec fn advertisement_media_type(s: GitService) -> Seq<char> {
    "application/x-git-"@ + service_name(s) + "-advertisement"@
}

/// The media type an RPC request for `s` must declare.
pub open spec fn request_media_type(s: GitService) -> Seq<char> {
    "application/x-git-"@ + service_name(s) + "-request"@
}

/// The media type of an RPC response for `s`.
pub open spec fn result_media_type(s: GitService) -> Seq<char> {
    "application/x-git-"@ + service_name(s) + "-result"@
}

/// The media type of an advertisement response for `s`.
pub fn advertisement_media_type_string(s: GitService) -> (r: String)
    ensures
        r@ == advertisement_media_type(s),
{
    let mut out = "application/x-git-".to_owned();
    out.append(service_name_str(s));
    out.append("-advertisement");
    out
}

/// The media type an RPC request for `s` must declare.
pub fn request_media_type_string(s: GitService) -> (r: String)
    ensures
        r@ == request_media_type(s),
{
    let mut out = "application/x-git-".to_owned();
    out.append(service_name_str(s));
    out.append("-request");
    out
}

/// The media type of an RPC response for `s`.
pub fn result_media_type_string(s: GitService) -> (r: String)
    ensures
        r@ == result_media_type(s),
{
    let mut out = "application/x-git-".to_owned();
    out.append(service_name_str(s));
    out.append("-result");
    out
}

/// The announcement line an advertisement response opens with.
pub open spec fn service_announcement(s: GitService) -> Seq<u8> {
    chars_as_bytes("# service=git-"@ + service_name(s) + "\n"@)
}

/// The announcement line an advertisement response opens with.
pub fn service_announcement_bytes(s: GitService) -> (r: Vec<u8>)
    ensures
        r@ == service_announcement(s),
        r@.len() <= 27,
{
    let mut line = "# service=git-".to_owned();
    line.append(service_name_str(s));
    line.append("\n");
    proof {
        reveal_strlit("# service=git-");
        reveal_strlit("upload-pack");
        reveal_strlit("receive-pack");
        reveal_strlit("\n");
    }
    str_to_bytes(line.as_str())
}

} // verus!
