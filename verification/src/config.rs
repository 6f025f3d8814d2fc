use vstd::prelude::*;
use vstd::string::StringExecFns;

verus! {

/// Process-wide configuration, read once at startup and shared read-only:
/// where the persistence layer lives, where the repositories live, and the
/// secret of the token subsystem.
pub struct Config {
    pub database_url: String,
    pub repository_root: String,
    pub jwt_secret: String,
}

impl Config {
    /// The on-disk location of one project's bare repository: one
    /// subdirectory per owner name, one `<project>.git` subdirectory per
    /// project. This layout is part of the external contract — tooling
    /// addresses repositories by it — and the path depends on the two names
    /// alone; nothing else is persisted.
    pub fn repository_path(&self, user: &str, project: &str) -> (r: String)
        ensures
            r@ == self.repository_root@ + "/"@ + user@ + "/"@ + project@ + ".git"@,
    {
        let mut out = self.repository_root.clone();
        out.append("/");
        out.append(user);
        out.append("/");
        out.append(project);
        out.append(".git");
        out
    }
}

/// Carries the shared configuration to each request handler.
pub struct ConfigMiddleware(pub Config);

impl ConfigMiddleware {
    /// Wraps the configuration for per-request injection.
    pub fn new(config: Config) -> (r: Self)
        ensures
            r.0 == config,
    {
        ConfigMiddleware(config)
    }
}

} // verus!
