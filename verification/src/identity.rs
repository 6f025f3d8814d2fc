use vstd::prelude::*;
use vstd::string::StrSliceExecFns;

use crate::error::{AppError, ErrorKind};
use crate::strutil::str_eq;

verus! {

/// A registered user: an opaque identity, a unique name, the bcrypt hash of
/// the password, and the creation time as a Unix timestamp.
#[derive(Debug)]
pub struct User {
    pub id: i32,
    pub name: String,
    pub bcrypt_hash: String,
    pub created_at: i64,
}

/// A hosted project. Its on-disk bare repository lives at a path derived
/// purely from the owner's name and the project's name. The stored name
/// never carries the `.git` URL suffix.
#[derive(Debug)]
pub struct Project {
    pub id: i32,
    pub user_id: i32,
    pub name: String,
    pub description: Option<String>,
    pub created_at: i64,
}

impl User {
    /// A field-for-field copy.
    pub fn duplicate(&self) -> (r: User)
        ensures
            r == *self,
    {
        User {
            id: self.id,
            name: self.name.clone(),
            bcrypt_hash: self.bcrypt_hash.clone(),
            created_at: self.created_at,
        }
    }
}

impl Project {
    /// A field-for-field copy.
    pub fn duplicate(&self) -> (r: Project)
        ensures
            r == *self,
    {
        Project {
            id: self.id,
            user_id: self.user_id,
            name: self.name.clone(),
            description: match &self.description {
                Some(d) => Some(d.clone()),
                None => None,
            },
            created_at: self.created_at,
        }
    }
}

/// `raw` with one trailing slash removed, if it carries one.
pub open spec fn trim_one_slash(raw: Seq<char>) -> Seq<char> {
    if raw.len() > 0 && raw.last() == '/' {
        raw.drop_last()
    } else {
        raw
    }
}

/// The canonical project name of a URL path segment: after trimming one
/// optional trailing slash the segment must end in `.git`, and what precedes
/// the suffix must be non-empty; that prefix is the stored name.
pub open spec fn canonical_project_name(raw: Seq<char>) -> Option<Seq<char>> {
    let t = trim_one_slash(raw);
    if t.len() > 4 && t.subrange(t.len() - 4, t.len() as int) == ".git"@ {
        Some(t.subrange(0, t.len() - 4))
    } else {
        None
    }
}

/// Checks the `(owner, project)` URL pair and strips the `.git` convention
/// from the project segment, rejecting segments that do not carry it.
pub fn check_repo_identifier<'a>(owner: &'a str, project: &str) -> (r: Result<
    (&'a str, String),
    AppError,
>)
    ensures
        match canonical_project_name(project@) {
            Some(name) => (r matches Ok(p) && p.0@ == owner@ && p.1@ == name),
            None => (r matches Err(e) && e.kind == ErrorKind::NotFound && e.status == 404
                && !e.challenge && e.message@ == "The repository URL should be end with '.git'"@),
        },
{
    let n = project.unicode_len();
    let trimmed: &str = if n > 0 && project.get_char(n - 1) == '/' {
        project.substring_char(0, n - 1)
    } else {
        project
    };
    let m = trimmed.unicode_len();
    if m > 4 {
        let suffix = trimmed.substring_char(m - 4, m);
        if str_eq(suffix, ".git") {
            let name = trimmed.substring_char(0, m - 4);
            return Ok((owner, name.to_owned()));
        }
    }
    Err(AppError::not_found("The repository URL should be end with '.git'"))
}

/// Settles an identity lookup: the resolver found a project row (or not),
/// and the filesystem path derived from the names is a directory (or not).
/// A row whose directory is missing means database and disk disagree; the
/// client sees not-found either way, with a distinguishable reason.
pub fn resolve_project(lookup: Option<Project>, path_is_dir: bool) -> (r: Result<Project, AppError>)
    ensures
        match lookup {
            None => (r matches Err(e) && e.kind == ErrorKind::NotFound && e.status == 404
                && !e.challenge && e.message@ == "project not found"@),
            Some(p) => if path_is_dir {
                r == Ok::<Project, AppError>(p)
            } else {
                (r matches Err(e) && e.kind == ErrorKind::NotFound && e.status == 404
                    && !e.challenge && e.message@ == "repository directory is missing on disk"@)
            },
        },
{
    match lookup {
        None => Err(AppError::not_found("project not found")),
        Some(p) => {
            if path_is_dir {
                Ok(p)
            } else {
                Err(AppError::not_found("repository directory is missing on disk"))
            }
        },
    }
}

} // verus!
