use base64::Engine;
use flate2::write::GzEncoder;
use flate2::Compression;
use std::io::Write;

use gallium::error::ErrorKind;
use gallium::handler::{
    advertisement_reply, check_rpc_content_type, decode_rpc_body, error_reply, handle_info_refs,
    handle_service_rpc, has_gzip_encoding, info_refs_body, rpc_result_reply, service_from_query,
};
use gallium::identity::{check_repo_identifier, resolve_project, Project, User};
use gallium::service::{
    advertisement_media_type_string, get_service_name, request_media_type_string,
    result_media_type_string, service_announcement_bytes, service_name_str, GitService,
};

fn project() -> Project {
    Project {
        id: 7,
        user_id: 42,
        name: "hello".to_string(),
        description: None,
        created_at: 0,
    }
}

fn owner(hash: &str) -> User {
    User {
        id: 42,
        name: "alice".to_string(),
        bcrypt_hash: hash.to_string(),
        created_at: 0,
    }
}

#[test]
fn service_names_match_the_git_executable() {
    assert_eq!(service_name_str(GitService::UploadPack), "upload-pack");
    assert_eq!(service_name_str(GitService::ReceivePack), "receive-pack");
}

#[test]
fn service_parameter_maps_to_the_two_services() {
    assert!(matches!(
        get_service_name(Some("git-upload-pack")),
        Ok(GitService::UploadPack)
    ));
    assert!(matches!(
        get_service_name(Some("git-receive-pack")),
        Ok(GitService::ReceivePack)
    ));
}

#[test]
fn unknown_service_parameter_is_forbidden() {
    let err = get_service_name(Some("git-anything-else")).unwrap_err();
    assert_eq!(err.status, 403);
    assert_eq!(err.kind, ErrorKind::InvalidRequest);
}

#[test]
fn missing_service_parameter_is_forbidden() {
    let err = get_service_name(None).unwrap_err();
    assert_eq!(err.status, 403);
    assert_eq!(err.message, "Requires service name");
}

#[test]
fn the_last_service_parameter_decides() {
    assert!(matches!(
        service_from_query(b"a=b&service=git-upload-pack"),
        Ok(GitService::UploadPack)
    ));
    assert!(matches!(
        service_from_query(b"service=nonsense&service=git-receive-pack"),
        Ok(GitService::ReceivePack)
    ));
}

#[test]
fn queries_are_percent_decoded() {
    assert!(matches!(
        service_from_query(b"service=git%2Dupload%2Dpack"),
        Ok(GitService::UploadPack)
    ));
}

#[test]
fn a_query_without_a_service_is_forbidden() {
    let err = service_from_query(b"ref=main").unwrap_err();
    assert_eq!(err.status, 403);
    let err = service_from_query(b"service=git-frobnicate").unwrap_err();
    assert_eq!(err.status, 403);
}

#[test]
fn media_types_carry_the_service_name() {
    assert_eq!(
        advertisement_media_type_string(GitService::UploadPack),
        "application/x-git-upload-pack-advertisement"
    );
    assert_eq!(
        request_media_type_string(GitService::ReceivePack),
        "application/x-git-receive-pack-request"
    );
    assert_eq!(
        result_media_type_string(GitService::UploadPack),
        "application/x-git-upload-pack-result"
    );
}

#[test]
fn announcement_line_names_the_service() {
    assert_eq!(
        service_announcement_bytes(GitService::UploadPack),
        b"# service=git-upload-pack\n".to_vec()
    );
}

#[test]
fn identifier_requires_the_git_suffix() {
    let (owner, name) = check_repo_identifier("alice", "hello.git").unwrap();
    assert_eq!(owner, "alice");
    assert_eq!(name, "hello");
}

#[test]
fn identifier_trims_one_trailing_slash() {
    let (_, name) = check_repo_identifier("alice", "hello.git/").unwrap();
    assert_eq!(name, "hello");
}

#[test]
fn identifier_without_suffix_is_not_found() {
    let err = check_repo_identifier("alice", "hello").unwrap_err();
    assert_eq!(err.status, 404);
    assert_eq!(err.message, "The repository URL should be end with '.git'");
}

#[test]
fn identifier_with_empty_name_is_not_found() {
    assert!(check_repo_identifier("alice", ".git").is_err());
}

#[test]
fn resolver_misses_unknown_projects() {
    let err = resolve_project(None, true).unwrap_err();
    assert_eq!(err.status, 404);
    assert_eq!(err.kind, ErrorKind::NotFound);
}

#[test]
fn resolver_reports_missing_directories_as_not_found() {
    let err = resolve_project(Some(project()), false).unwrap_err();
    assert_eq!(err.status, 404);
    assert_eq!(err.message, "repository directory is missing on disk");
}

#[test]
fn resolver_hands_the_project_through() {
    let p = resolve_project(Some(project()), true).unwrap();
    assert_eq!(p.id, 7);
    assert_eq!(p.name, "hello");
}

#[test]
fn advertisement_body_opens_with_announcement_and_flush() {
    let body = info_refs_body(GitService::UploadPack, b"refsdata".to_vec());
    let expected_prefix = b"001e# service=git-upload-pack\n0000";
    assert_eq!(&body[..expected_prefix.len()], &expected_prefix[..]);
    assert_eq!(&body[expected_prefix.len()..], b"refsdata");
}

#[test]
fn advertisement_reply_sets_protocol_headers() {
    let reply = advertisement_reply(GitService::UploadPack, Vec::new());
    assert_eq!(reply.status, 200);
    assert_eq!(
        reply.content_type.as_deref(),
        Some("application/x-git-upload-pack-advertisement")
    );
    assert!(reply.no_cache);
    assert!(reply.www_authenticate.is_none());
    assert_eq!(reply.body, b"001e# service=git-upload-pack\n0000".to_vec());
}

#[test]
fn rpc_reply_passes_the_output_through() {
    let reply = rpc_result_reply(GitService::ReceivePack, b"PACK".to_vec());
    assert_eq!(reply.status, 200);
    assert_eq!(
        reply.content_type.as_deref(),
        Some("application/x-git-receive-pack-result")
    );
    assert!(!reply.no_cache);
    assert_eq!(reply.body, b"PACK".to_vec());
}

#[test]
fn content_type_must_match_the_service() {
    assert!(check_rpc_content_type(
        Some("application/x-git-upload-pack-request"),
        GitService::UploadPack
    )
    .is_ok());
    let err = check_rpc_content_type(
        Some("application/x-git-upload-pack-request"),
        GitService::ReceivePack,
    )
    .unwrap_err();
    assert_eq!(err.status, 401);
    assert!(check_rpc_content_type(None, GitService::UploadPack).is_err());
}

#[test]
fn gzip_bodies_are_inflated_before_the_subprocess() {
    let raw = b"0032want 0123456789012345678901234567890123456789\n00000009done\n".to_vec();
    let mut encoder = GzEncoder::new(Vec::new(), Compression::default());
    encoder.write_all(&raw).unwrap();
    let compressed = encoder.finish().unwrap();
    assert_ne!(compressed, raw);
    let inflated = decode_rpc_body(compressed, true).unwrap();
    assert_eq!(inflated, raw);
}

#[test]
fn plain_bodies_pass_through_unchanged() {
    let raw = b"0009done\n".to_vec();
    assert_eq!(decode_rpc_body(raw.clone(), false).unwrap(), raw);
}

#[test]
fn garbage_gzip_bodies_are_an_upstream_failure() {
    let err = decode_rpc_body(b"not gzip at all".to_vec(), true).unwrap_err();
    assert_eq!(err.status, 500);
    assert_eq!(err.kind, ErrorKind::UpstreamFailure);
}

#[test]
fn gzip_detection_scans_the_encoding_list() {
    assert!(has_gzip_encoding(&vec![
        "chunked".to_string(),
        "gzip".to_string()
    ]));
    assert!(!has_gzip_encoding(&vec!["identity".to_string()]));
    assert!(!has_gzip_encoding(&Vec::new()));
}

#[test]
fn error_reply_carries_the_challenge() {
    let err = gallium::error::AppError::unauthorized("", true);
    let reply = error_reply(err);
    assert_eq!(reply.status, 401);
    assert_eq!(reply.www_authenticate.as_deref(), Some("Basic realm=\"main\""));
}

#[test]
fn error_reply_without_challenge_has_no_header() {
    let err = gallium::error::AppError::not_found("nope");
    let reply = error_reply(err);
    assert_eq!(reply.status, 404);
    assert!(reply.www_authenticate.is_none());
    assert_eq!(reply.body, b"nope".to_vec());
}

#[test]
fn fetch_succeeds_without_credentials() {
    let result = handle_info_refs(
        b"service=git-upload-pack",
        Some(project()),
        true,
        None,
        None,
    );
    let (service, p) = result.unwrap();
    assert!(matches!(service, GitService::UploadPack));
    assert_eq!(p.id, 7);
}

#[test]
fn fetch_of_unknown_project_is_not_found() {
    let err = handle_info_refs(b"service=git-upload-pack", None, false, None, None).unwrap_err();
    assert_eq!(err.status, 404);
}

#[test]
fn push_advertisement_without_credentials_is_challenged() {
    let err = handle_info_refs(
        b"service=git-receive-pack",
        Some(project()),
        true,
        None,
        None,
    )
    .unwrap_err();
    assert_eq!(err.status, 401);
    assert!(err.challenge);
}

fn basic_header(user: &str, pass: &str) -> String {
    let encoded =
        base64::engine::general_purpose::STANDARD.encode(format!("{}:{}", user, pass));
    format!("Basic {}", encoded)
}

#[test]
fn push_by_the_owner_reaches_the_subprocess() {
    let hash = bcrypt::hash("sekrit", 4).unwrap();
    let header = basic_header("alice", "sekrit");
    let (p, body) = handle_service_rpc(
        GitService::ReceivePack,
        Some(project()),
        true,
        Some(&header),
        Some(owner(&hash)),
        Some("application/x-git-receive-pack-request"),
        false,
        b"PACK".to_vec(),
    )
    .unwrap();
    assert_eq!(p.user_id, 42);
    assert_eq!(body, b"PACK".to_vec());
}

#[test]
fn push_with_wrong_password_is_unauthorized() {
    let hash = bcrypt::hash("sekrit", 4).unwrap();
    let header = basic_header("alice", "wrong");
    let err = handle_service_rpc(
        GitService::ReceivePack,
        Some(project()),
        true,
        Some(&header),
        Some(owner(&hash)),
        Some("application/x-git-receive-pack-request"),
        false,
        Vec::new(),
    )
    .unwrap_err();
    assert_eq!(err.status, 401);
    assert!(!err.challenge);
}

#[test]
fn push_by_a_non_owner_is_forbidden() {
    let hash = bcrypt::hash("sekrit", 4).unwrap();
    let header = basic_header("mallory", "sekrit");
    let mut intruder = owner(&hash);
    intruder.id = 43;
    let err = handle_service_rpc(
        GitService::ReceivePack,
        Some(project()),
        true,
        Some(&header),
        Some(intruder),
        Some("application/x-git-receive-pack-request"),
        false,
        Vec::new(),
    )
    .unwrap_err();
    assert_eq!(err.status, 403);
    assert_eq!(err.kind, ErrorKind::Forbidden);
}

#[test]
fn push_without_credentials_is_challenged() {
    let err = handle_service_rpc(
        GitService::ReceivePack,
        Some(project()),
        true,
        None,
        None,
        Some("application/x-git-receive-pack-request"),
        false,
        Vec::new(),
    )
    .unwrap_err();
    assert_eq!(err.status, 401);
    assert!(err.challenge);
}

#[test]
fn rpc_with_wrong_content_type_is_unauthorized() {
    let err = handle_service_rpc(
        GitService::UploadPack,
        Some(project()),
        true,
        None,
        None,
        Some("text/plain"),
        false,
        Vec::new(),
    )
    .unwrap_err();
    assert_eq!(err.status, 401);
    assert!(!err.challenge);
}
