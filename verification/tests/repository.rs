use gallium::error::ErrorKind;
use gallium::repository::{
    git_init_args, interpret_rpc_outcome, rpc_command_args, CreateAction, Repository,
};
use gallium::service::GitService;

#[test]
fn creation_runs_mkdir_then_init_then_opens() {
    let (mut creation, first) = Repository::create("root/alice/demo".to_string());
    assert_eq!(first, CreateAction::MakeDirs);
    let second = creation.advance(true);
    assert_eq!(second, Some(CreateAction::GitInit));
    let third = creation.advance(true);
    assert!(third.is_none());
    let handle = creation.finish().unwrap();
    assert_eq!(handle.path, "root/alice/demo");

    let reopened = Repository::open("root/alice/demo".to_string(), true).unwrap();
    assert_eq!(reopened.path, handle.path);
}

#[test]
fn a_failed_directory_step_aborts_the_creation() {
    let (mut creation, _) = Repository::create("root/alice/demo".to_string());
    assert!(creation.advance(false).is_none());
    let err = creation.finish().unwrap_err();
    assert_eq!(err.status, 500);
    assert_eq!(err.kind, ErrorKind::FilesystemFailure);
}

#[test]
fn a_failed_init_step_aborts_the_creation() {
    let (mut creation, _) = Repository::create("root/alice/demo".to_string());
    creation.advance(true);
    assert!(creation.advance(false).is_none());
    assert!(creation.finish().is_err());
}

#[test]
fn open_refuses_paths_without_a_repository() {
    let err = Repository::open("root/alice/missing".to_string(), false).unwrap_err();
    assert_eq!(err.status, 500);
    assert_eq!(err.kind, ErrorKind::FilesystemFailure);
}

#[test]
fn init_is_always_bare() {
    assert_eq!(git_init_args(), vec!["init".to_string(), "--bare".to_string()]);
}

#[test]
fn removal_hands_the_handle_back_on_failure() {
    let handle = Repository { path: "root/alice/demo".to_string() };
    let (returned, err) = handle.remove(false).unwrap_err();
    assert_eq!(returned.path, "root/alice/demo");
    assert_eq!(err.kind, ErrorKind::FilesystemFailure);
}

#[test]
fn removal_succeeds_when_the_directory_is_gone() {
    let handle = Repository { path: "root/alice/demo".to_string() };
    assert!(handle.remove(true).is_ok());
}

#[test]
fn rpc_arguments_with_a_body() {
    assert_eq!(
        rpc_command_args(GitService::ReceivePack, true),
        vec![
            "receive-pack".to_string(),
            "--stateless-rpc".to_string(),
            ".".to_string()
        ]
    );
}

#[test]
fn rpc_arguments_without_a_body_advertise_refs() {
    assert_eq!(
        rpc_command_args(GitService::UploadPack, false),
        vec![
            "upload-pack".to_string(),
            "--stateless-rpc".to_string(),
            "--advertise-refs".to_string(),
            ".".to_string()
        ]
    );
}

#[test]
fn successful_rpc_output_passes_through() {
    let out = interpret_rpc_outcome(GitService::UploadPack, true, b"PACKdata".to_vec(), "").unwrap();
    assert_eq!(out, b"PACKdata".to_vec());
}

#[test]
fn failed_rpc_reports_the_service_and_stderr() {
    let err = interpret_rpc_outcome(
        GitService::UploadPack,
        false,
        Vec::new(),
        "fatal: not a git repository",
    )
    .unwrap_err();
    assert_eq!(err.status, 500);
    assert_eq!(err.kind, ErrorKind::UpstreamFailure);
    assert_eq!(
        err.message,
        "`git upload-pack` exited with a non-zero status: fatal: not a git repository"
    );
}
