use vstd::prelude::*;
use vstd::string::StrSliceExecFns;
use vstd::string::StringExecFns;

use crate::error::{AppError, ErrorKind};
use crate::identity::Project;
use crate::repository::Repository;

verus! {

/// What the caller must do with the open database transaction after the
/// repository-side step of a project creation.
#[derive(Clone, Copy, Debug, PartialEq, Eq, Structural)]
pub enum TxAction {
    /// Keep the inserted row: row and repository both exist.
    Commit,
    /// Undo the inserted row: the repository was not created, so nothing may
    /// stay usable.
    RollBack,
}

/// Settles the transactional creation of a project. The row insert and the
/// on-disk repository initialization must both succeed, or the transaction
/// rolls back and the failure surfaces as a server error: the database and
/// the filesystem never diverge silently.
pub fn settle_project_creation(
    inserted: Result<Project, AppError>,
    repo_init: Option<Result<Repository, AppError>>,
) -> (r: (Result<(Project, Repository), AppError>, TxAction))
    requires
        (inserted is Ok) <==> (repo_init is Some),
    ensures
        match (inserted, repo_init) {
            (Ok(p), Some(Ok(h))) => (r.0 matches Ok(t) && t.0 == p && t.1 == h && r.1
                == TxAction::Commit),
            (Ok(_), Some(Err(e))) => r.0 == Err::<(Project, Repository), AppError>(e) && r.1
                == TxAction::RollBack,
            (Err(e), _) => r.0 == Err::<(Project, Repository), AppError>(e) && r.1
                == TxAction::RollBack,
            (Ok(_), None) => true,
        },
{
    match (inserted, repo_init) {
        (Ok(p), Some(Ok(h))) => (Ok((p, h)), TxAction::Commit),
        (Ok(_), Some(Err(e))) => (Err(e), TxAction::RollBack),
        (Err(e), _) => (Err(e), TxAction::RollBack),
        (Ok(_), None) => {
            proof {
                assert(false);
            }
            (Err(AppError::persistence(String::new())), TxAction::RollBack)
        },
    }
}

/// What a project deletion does to the database row once the disk step has
/// run.
#[derive(Clone, Copy, Debug, PartialEq, Eq, Structural)]
pub enum RowAction {
    /// The directory is gone; delete the row.
    DeleteRow,
    /// The directory could not be removed; the row stays, so the two sides
    /// never diverge permanently.
    KeepRow,
}

/// Settles a project deletion after the attempt to remove the repository
/// directory: the database row is deleted exactly when the removal
/// succeeded. A failed removal hands the repository handle back with the
/// error, and the row is left intact for a later, deliberate retry.
pub fn settle_project_removal(removal: Result<(), (Repository, AppError)>) -> (r: (
    RowAction,
    Option<(Repository, AppError)>,
))
    ensures
        match removal {
            Ok(_) => r.0 == RowAction::DeleteRow && r.1 is None,
            Err(p) => r.0 == RowAction::KeepRow && r.1 == Some(p),
        },
{
    match removal {
        Ok(_) => (RowAction::DeleteRow, None),
        Err(p) => (RowAction::KeepRow, Some(p)),
    }
}

/// The row of a project outlives every failed removal of its repository
/// directory: the deletion plan deletes the row only when the directory is
/// gone.
pub proof fn lemma_failed_removal_keeps_row(
    removal: Result<(), (Repository, AppError)>,
    outcome: (RowAction, Option<(Repository, AppError)>),
)
    requires
        removal is Err,
        match removal {
            Ok(_) => outcome.0 == RowAction::DeleteRow && outcome.1 is None,
            Err(p) => outcome.0 == RowAction::KeepRow && outcome.1 == Some(p),
        },
    ensures
        outcome.0 == RowAction::KeepRow,
        (outcome.1 matches Some(q) && q.0 == removal->Err_0.0),
{
}

/// Refuses to create a project whose repository path is already taken on
/// disk: the row and the directory must come into being together.
pub fn check_creation_conflict(path_resolves: bool) -> (r: Result<(), AppError>)
    ensures
        !path_resolves ==> r is Ok,
        path_resolves ==> (r matches Err(e) && e.kind == ErrorKind::InvalidRequest && e.status
            == 409 && !e.challenge),
{
    if path_resolves {
        Err(AppError::invalid_request(409, "a repository already exists at the project's path"))
    } else {
        Ok(())
    }
}

/// `s` with every single quote doubled, the escaping of SQL string literals.
pub open spec fn sql_escaped(s: Seq<char>) -> Seq<char>
    decreases s.len(),
{
    if s.len() == 0 {
        Seq::empty()
    } else {
        sql_escaped(s.drop_last()) + (if s.last() == '\'' {
            seq!['\'', '\'']
        } else {
            seq![s.last()]
        })
    }
}

/// `s` as a SQL string literal: quotes doubled, the whole wrapped in quotes.
pub open spec fn sql_quoted(s: Seq<char>) -> Seq<char> {
    seq!['\''] + sql_escaped(s) + seq!['\'']
}

/// Writes `s` as a SQL string literal, doubling every quote inside it.
#[verifier::loop_isolation(false)]
pub fn escape_str(s: &str) -> (r: String)
    ensures
        r@ == sql_quoted(s@),
{
    proof {
        reveal_strlit("'");
        reveal_strlit("''");
    }
    let n = s.unicode_len();
    let mut out = "'".to_owned();
    let mut i: usize = 0;
    while i < n
        invariant
            i <= n,
            out@ == seq!['\''] + sql_escaped(s@.subrange(0, i as int)),
        decreases n - i,
    {
        let ghost longer = s@.subrange(0, i + 1);
        proof {
            assert(longer.drop_last() =~= s@.subrange(0, i as int));
            assert(longer.last() == s@[i as int]);
        }
        let c = s.get_char(i);
        if c == '\'' {
            out.append("''");
        } else {
            out.append(s.substring_char(i, i + 1));
        }
        i += 1;
        proof {
            assert(out@ =~= seq!['\''] + sql_escaped(s@.subrange(0, i as int)));
        }
    }
    out.append("'");
    proof {
        assert(s@.subrange(0, n as int) =~= s@);
        assert(out@ =~= sql_quoted(s@));
    }
    out
}

/// The insertion statement for a new project: the owner is resolved by name
/// inside the statement, and every interpolated value travels as a quoted
/// SQL literal.
pub open spec fn insert_project_statement(
    user: Seq<char>,
    name: Seq<char>,
    description: Option<Seq<char>>,
) -> Seq<char> {
    "INSERT INTO projects (user_id, name, description) SELECT id, "@ + sql_quoted(name) + ", "@ + (
    match description {
        Some(d) => sql_quoted(d),
        None => "NULL"@,
    }) + " FROM users WHERE users.name = "@ + sql_quoted(user)
        + " LIMIT 1 RETURNING *"@
}

/// Writes the insertion statement for a new project.
pub fn insert_project_sql(user: &str, name: &str, description: Option<&str>) -> (r: String)
    ensures
        r@ == insert_project_statement(
            user@,
            name@,
            match description {
                Some(d) => Some(d@),
                None => None,
            },
        ),
{
    let mut out = "INSERT INTO projects (user_id, name, description) SELECT id, ".to_owned();
    out.append(escape_str(name).as_str());
    out.append(", ");
    match description {
        Some(d) => {
            out.append(escape_str(d).as_str());
        },
        None => {
            out.append("NULL");
        },
    }
    out.append(" FROM users WHERE users.name = ");
    out.append(escape_str(user).as_str());
    out.append(" LIMIT 1 RETURNING *");
    out
}

} // verus!
