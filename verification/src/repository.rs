use vstd::prelude::*;
use vstd::string::StringExecFns;

use crate::error::{AppError, ErrorKind};
use crate::service::{service_name, service_name_str, GitService};

verus! {

/// An open handle to a bare repository directory, valid for one request.
/// The path is derived purely from the owner and project names; the handle
/// holds no other state.
#[derive(Debug)]
pub struct Repository {
    pub path: String,
}

/// The privileged filesystem step a repository creation asks its caller to
/// perform next. Both steps run under the dedicated low-privilege service
/// identity, never as the server itself.
#[derive(Clone, Copy, Debug, PartialEq, Eq, Structural)]
pub enum CreateAction {
    /// Create the destination directory tree, owned by the service identity.
    MakeDirs,
    /// Run `git init --bare` in the directory, as the service identity.
    GitInit,
}

/// Where a repository creation stands.
#[derive(Clone, Copy, Debug, PartialEq, Eq, Structural)]
pub enum CreateState {
    /// The directory tree is being created.
    MakingDirs,
    /// The bare repository is being initialized.
    InitializingRepository,
    /// Both steps succeeded.
    Done,
    /// A step failed; the creation is fatal and must not be retried.
    Failed,
}

/// A repository creation in progress: the caller performs each action it is
/// handed and reports whether the action succeeded. Any failure is final;
/// a half-initialized repository is never handed out as usable.
#[derive(Debug)]
pub struct RepositoryCreation {
    pub path: String,
    pub state: CreateState,
}

impl RepositoryCreation {
    /// Whether the creation still waits for a step's outcome.
    pub open spec fn in_progress(&self) -> bool {
        self.state == CreateState::MakingDirs || self.state == CreateState::InitializingRepository
    }

    /// Records the outcome of the step last handed out and returns the next
    /// action, if one remains. A failed step aborts the whole creation.
    pub fn advance(&mut self, succeeded: bool) -> (next: Option<CreateAction>)
        requires
            old(self).in_progress(),
        ensures
            final(self).path == old(self).path,
            !succeeded ==> final(self).state == CreateState::Failed && next is None,
            succeeded && old(self).state == CreateState::MakingDirs ==> final(self).state
                == CreateState::InitializingRepository && next == Some(CreateAction::GitInit),
            succeeded && old(self).state == CreateState::InitializingRepository ==> (final(self).state == CreateState::Done && next is None),
    {
        if !succeeded {
            self.state = CreateState::Failed;
            return None;
        }
        match self.state {
            CreateState::MakingDirs => {
                self.state = CreateState::InitializingRepository;
                Some(CreateAction::GitInit)
            },
            _ => {
                self.state = CreateState::Done;
                None
            },
        }
    }

    /// Closes the creation: a handle when every step succeeded, a fatal
    /// filesystem error otherwise.
    pub fn finish(self) -> (r: Result<Repository, AppError>)
        requires
            !self.in_progress(),
        ensures
            self.state == CreateState::Done ==> (r matches Ok(h) && h.path == self.path),
            self.state == CreateState::Failed ==> (r matches Err(e) && e.kind
                == ErrorKind::FilesystemFailure && e.status == 500),
    {
        match self.state {
            CreateState::Done => Ok(Repository { path: self.path }),
            _ => Err(
                AppError::filesystem(
                    "repository creation failed; the path must not be used".to_owned(),
                ),
            ),
        }
    }
}

/// The arguments of the `git init` step of a creation: the repository is
/// always initialized bare.
pub fn git_init_args() -> (r: Vec<String>)
    ensures
        r@.len() == 2,
        r@[0]@ == "init"@,
        r@[1]@ == "--bare"@,
{
    let mut args: Vec<String> = Vec::new();
    args.push("init".to_owned());
    args.push("--bare".to_owned());
    args
}

impl Repository {
    /// Begins creating a bare repository at `path`: hands back the creation
    /// protocol and its first privileged step.
    pub fn create(path: String) -> (r: (RepositoryCreation, CreateAction))
        ensures
            r.0.path == path,
            r.0.state == CreateState::MakingDirs,
            r.0.in_progress(),
            r.1 == CreateAction::MakeDirs,
    {
        (RepositoryCreation { path, state: CreateState::MakingDirs }, CreateAction::MakeDirs)
    }

    /// Opens the repository at `path`; `is_repository` reports whether the
    /// path holds a valid bare repository on disk.
    pub fn open(path: String, is_repository: bool) -> (r: Result<Repository, AppError>)
        ensures
            is_repository ==> (r matches Ok(h) && h.path == path),
            !is_repository ==> (r matches Err(e) && e.kind == ErrorKind::FilesystemFailure
                && e.status == 500),
    {
        if is_repository {
            Ok(Repository { path })
        } else {
            Err(AppError::filesystem("the path does not hold a bare repository".to_owned()))
        }
    }

    /// Settles a recursive removal of the repository directory. On failure
    /// the handle travels back with the error, so the caller can abort a
    /// paired database delete instead of letting disk and database diverge.
    pub fn remove(self, fs_removed: bool) -> (r: Result<(), (Repository, AppError)>)
        ensures
            fs_removed ==> r is Ok,
            !fs_removed ==> (r matches Err(p) && p.0 == self && p.1.kind
                == ErrorKind::FilesystemFailure && p.1.status == 500),
    {
        if fs_removed {
            Ok(())
        } else {
            Err((self, AppError::filesystem("failed to remove the repository directory".to_owned())))
        }
    }
}

/// The arguments the stateless-RPC `git` subprocess is spawned with. The
/// advertisement form (no request body) adds `--advertise-refs`; the working
/// directory is the repository itself, hence the final `"."`.
pub fn rpc_command_args(service: GitService, has_body: bool) -> (r: Vec<String>)
    ensures
        has_body ==> r@.len() == 3 && r@[0]@ == service_name(service) && r@[1]@
            == "--stateless-rpc"@ && r@[2]@ == "."@,
        !has_body ==> r@.len() == 4 && r@[0]@ == service_name(service) && r@[1]@
            == "--stateless-rpc"@ && r@[2]@ == "--advertise-refs"@ && r@[3]@ == "."@,
{
    let mut args: Vec<String> = Vec::new();
    args.push(service_name_str(service).to_owned());
    args.push("--stateless-rpc".to_owned());
    if !has_body {
        args.push("--advertise-refs".to_owned());
    }
    args.push(".".to_owned());
    args
}

/// The diagnostic a failed RPC subprocess surfaces: the service it ran and
/// what the subprocess wrote to its standard error.
pub open spec fn rpc_failure_message(service: GitService, stderr: Seq<char>) -> Seq<char> {
    "`git "@ + service_name(service) + "` exited with a non-zero status: "@ + stderr
}

/// Settles one run of the RPC subprocess: a successful exit hands the
/// captured output through unchanged, a non-zero exit becomes an upstream
/// failure carrying the subprocess's standard-error text.
pub fn interpret_rpc_outcome(
    service: GitService,
    exit_success: bool,
    stdout: Vec<u8>,
    stderr: &str,
) -> (r: Result<Vec<u8>, AppError>)
    ensures
        exit_success ==> (r matches Ok(v) && v@ == stdout@),
        !exit_success ==> (r matches Err(e) && e.kind == ErrorKind::UpstreamFailure && e.status
            == 500 && !e.challenge && e.message@ == rpc_failure_message(service, stderr@)),
{
    if exit_success {
        Ok(stdout)
    } else {
        let mut message = "`git ".to_owned();
        message.append(service_name_str(service));
        message.append("` exited with a non-zero status: ");
        message.append(stderr);
        Err(AppError::upstream(message))
    }
}

} // verus!
