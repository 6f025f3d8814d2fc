use base64::Engine;
use vstd::prelude::*;
use vstd::string::StrSliceExecFns;
use vstd::string::StringExecFns;

use crate::error::{AppError, ErrorKind};
use crate::repository::Repository;
use crate::strutil::{seg_views, split_on, split_str};

verus! {

/// What a tree entry points at.
#[derive(Debug)]
pub enum TreeItem {
    /// File contents.
    Blob,
    /// A nested tree, carried with its entries.
    Subtree(Tree),
    /// An object kind the inspection API does not support; walking over one
    /// is an error, never a silent skip.
    Unsupported,
}

/// One entry of a tree: the object id, the entry name, the filemode as the
/// raw mode bits, and the object itself.
#[derive(Debug)]
pub struct TreeEntry {
    pub id: String,
    pub name: String,
    pub filemode: u32,
    pub item: TreeItem,
}

/// A tree of a commit, in walk order.
#[derive(Debug)]
pub struct Tree {
    pub entries: Vec<TreeEntry>,
}

/// A flattened tree entry as the inspection API reports it.
#[derive(Debug)]
pub struct TreeObject {
    pub id: String,
    pub kind: String,
    pub name: String,
    pub path: String,
    pub filemode: String,
}

/// The mathematical image of a reported tree entry.
pub struct TreeObjectV {
    pub id: Seq<char>,
    pub kind: Seq<char>,
    pub name: Seq<char>,
    pub path: Seq<char>,
    pub filemode: Seq<char>,
}

impl View for TreeObject {
    type V = TreeObjectV;

    open spec fn view(&self) -> TreeObjectV {
        TreeObjectV {
            id: self.id@,
            kind: self.kind@,
            name: self.name@,
            path: self.path@,
            filemode: self.filemode@,
        }
    }
}

/// The character of one octal digit.
pub open spec fn octal_digit_char(d: nat) -> char
    recommends
        d < 8,
{
    ((48 + d) as u8) as char
}

/// The octal digits of `m`, most significant first, without padding.
pub open spec fn octal_digits(m: nat) -> Seq<char>
    decreases m,
{
    if m < 8 {
        seq![octal_digit_char(m)]
    } else {
        octal_digits((m / 8) as nat).push(octal_digit_char((m % 8) as nat))
    }
}

/// `s` left-padded with `'0'` to at least six characters.
pub open spec fn zero_pad6(s: Seq<char>) -> Seq<char> {
    if s.len() >= 6 {
        s
    } else {
        Seq::new((6 - s.len()) as nat, |i: int| '0') + s
    }
}

/// The filemode notation of the inspection API: octal, zero-padded to six
/// digits.
pub open spec fn octal6(m: nat) -> Seq<char> {
    zero_pad6(octal_digits(m))
}

fn octal_digit_str(d: u32) -> (r: &'static str)
    requires
        d < 8,
    ensures
        r@ == seq![octal_digit_char(d as nat)],
{
    proof {
        reveal_strlit("0");
        reveal_strlit("1");
        reveal_strlit("2");
        reveal_strlit("3");
        reveal_strlit("4");
        reveal_strlit("5");
        reveal_strlit("6");
        reveal_strlit("7");
    }
    let r = match d {
        0 => "0",
        1 => "1",
        2 => "2",
        3 => "3",
        4 => "4",
        5 => "5",
        6 => "6",
        _ => "7",
    };
    proof {
        assert(r@ =~= seq![octal_digit_char(d as nat)]);
    }
    r
}

fn octal_digits_string(m: u32) -> (s: String)
    ensures
        s@ == octal_digits(m as nat),
    decreases m,
{
    if m < 8 {
        octal_digit_str(m).to_owned()
    } else {
        let mut s = octal_digits_string(m / 8);
        s.append(octal_digit_str(m % 8));
        proof {
            assert(s@ =~= octal_digits(m as nat));
        }
        s
    }
}

/// Writes `mode` the way the inspection API reports filemodes: octal,
/// zero-padded to six digits.
#[verifier::loop_isolation(false)]
pub fn octal_mode_string(mode: u32) -> (s: String)
    ensures
        s@ == octal6(mode as nat),
{
    let digits = octal_digits_string(mode);
    let n = digits.as_str().unicode_len();
    let mut out = String::new();
    let mut k: usize = n;
    while k < 6
        invariant
            n <= k,
            k <= 6 || k == n,
            out@ == Seq::new((k - n) as nat, |i: int| '0'),
        decreases 6 - k,
    {
        out.append("0");
        k += 1;
        proof {
            reveal_strlit("0");
            assert(out@ =~= Seq::new((k - n) as nat, |i: int| '0'));
        }
    }
    out.append(digits.as_str());
    proof {
        assert(out@ =~= octal6(mode as nat));
    }
    out
}

/// The path of an entry named `name` under `prefix`: path segments join
/// with `'/'`, and the root prefix is empty.
pub open spec fn entry_path(prefix: Seq<char>, name: Seq<char>) -> Seq<char> {
    if prefix.len() == 0 {
        name
    } else {
        prefix + "/"@ + name
    }
}

/// The path of an entry named `name` under `prefix`.
pub fn entry_path_string(prefix: &str, name: &str) -> (r: String)
    ensures
        r@ == entry_path(prefix@, name@),
{
    if prefix.is_empty() {
        name.to_owned()
    } else {
        let mut out = prefix.to_owned();
        out.append("/");
        out.append(name);
        out
    }
}

/// The object reported for a blob entry.
pub open spec fn blob_object(e: TreeEntry, prefix: Seq<char>) -> TreeObjectV {
    TreeObjectV {
        id: e.id@,
        kind: "blob"@,
        name: e.name@,
        path: entry_path(prefix, e.name@),
        filemode: octal6(e.filemode as nat),
    }
}

/// The object reported for a subtree entry when the walk stays shallow.
pub open spec fn tree_object(e: TreeEntry, prefix: Seq<char>) -> TreeObjectV {
    TreeObjectV {
        id: e.id@,
        kind: "tree"@,
        name: e.name@,
        path: entry_path(prefix, e.name@),
        filemode: octal6(e.filemode as nat),
    }
}

/// The walk over a sequence of entries. A shallow walk reports subtrees as
/// single entries of kind `tree`; a recursive walk descends instead, so only
/// blobs reach the result, each with its full relative path. An unsupported
/// object kind anywhere in the walk makes the whole walk fail (`None`).
pub open spec fn walk_entries_spec(
    entries: Seq<TreeEntry>,
    prefix: Seq<char>,
    recursive: bool,
) -> Option<Seq<TreeObjectV>>
    decreases entries,
{
    if entries.len() == 0 {
        Some(Seq::empty())
    } else {
        let e = entries[0];
        let head = match e.item {
            TreeItem::Blob => Some(seq![blob_object(e, prefix)]),
            TreeItem::Subtree(sub) => if recursive {
                walk_entries_spec(sub.entries@, entry_path(prefix, e.name@), recursive)
            } else {
                Some(seq![tree_object(e, prefix)])
            },
            TreeItem::Unsupported => None,
        };
        let rest = walk_entries_spec(entries.drop_first(), prefix, recursive);
        match (head, rest) {
            (Some(h), Some(r)) => Some(h + r),
            _ => None,
        }
    }
}

fn walk_entries(entries: &Vec<TreeEntry>, idx: usize, prefix: &str, recursive: bool) -> (r: Result<
    Vec<TreeObject>,
    AppError,
>)
    requires
        idx <= entries@.len(),
    ensures
        match walk_entries_spec(
            entries@.subrange(idx as int, entries@.len() as int),
            prefix@,
            recursive,
        ) {
            Some(objs) => (r matches Ok(v) && v@.len() == objs.len() && (forall|i: int|
                0 <= i < objs.len() ==> v@[i]@ == objs[i])),
            None => (r matches Err(e) && e.kind == ErrorKind::UpstreamFailure && e.status == 500
                && !e.challenge),
        },
    decreases entries@.subrange(idx as int, entries@.len() as int),
{
    let ghost rem = entries@.subrange(idx as int, entries@.len() as int);
    if idx == entries.len() {
        assert(rem.len() == 0);
        return Ok(Vec::new());
    }
    let e = &entries[idx];
    assert(rem[0] == entries@[idx as int]);
    let mut head: Vec<TreeObject> = match &e.item {
        TreeItem::Blob => {
            let mut one: Vec<TreeObject> = Vec::new();
            one.push(
                TreeObject {
                    id: e.id.clone(),
                    kind: "blob".to_owned(),
                    name: e.name.clone(),
                    path: entry_path_string(prefix, e.name.as_str()),
                    filemode: octal_mode_string(e.filemode),
                },
            );
            one
        },
        TreeItem::Subtree(sub) => {
            if recursive {
                proof {
                    assert(sub.entries@.subrange(0, sub.entries@.len() as int) =~= sub.entries@);
                    assert(decreases_to!(rem => rem[0]));
                    assert(decreases_to!(rem[0] => rem[0].item));
                    assert(decreases_to!(rem[0].item => rem[0].item->Subtree_0));
                    assert(decreases_to!(rem[0].item->Subtree_0 => rem[0].item->Subtree_0.entries));
                    assert(decreases_to!(rem[0].item->Subtree_0.entries => rem[0].item->Subtree_0.entries@));
                }
                let deeper = entry_path_string(prefix, e.name.as_str());
                match walk_entries(&sub.entries, 0, deeper.as_str(), recursive) {
                    Ok(v) => v,
                    Err(err) => {
                        return Err(err);
                    },
                }
            } else {
                let mut one: Vec<TreeObject> = Vec::new();
                one.push(
                    TreeObject {
                        id: e.id.clone(),
                        kind: "tree".to_owned(),
                        name: e.name.clone(),
                        path: entry_path_string(prefix, e.name.as_str()),
                        filemode: octal_mode_string(e.filemode),
                    },
                );
                one
            }
        },
        TreeItem::Unsupported => {
            return Err(AppError::upstream("Invalid kind".to_owned()));
        },
    };
    proof {
        assert(rem.subrange(1, rem.len() as int) =~= entries@.subrange(
            idx + 1,
            entries@.len() as int,
        ));
        assert(decreases_to!(rem => rem.subrange(1, rem.len() as int)));
    }
    let mut rest = match walk_entries(entries, idx + 1, prefix, recursive) {
        Ok(v) => v,
        Err(err) => {
            return Err(err);
        },
    };
    proof {
        assert(rem.drop_first() =~= entries@.subrange(idx + 1, entries@.len() as int));
    }
    head.append(&mut rest);
    Ok(head)
}

/// Splits a path filter into its segments: the non-empty runs between
/// slashes.
pub fn split_path(s: &str) -> (r: Vec<String>)
    ensures
        seg_views(r@) == split_on(s@, '/'),
{
    split_str(s, '/')
}

/// The first entry of `entries` named `name`, if any.
pub open spec fn find_entry(entries: Seq<TreeEntry>, name: Seq<char>) -> Option<TreeEntry>
    decreases entries.len(),
{
    if entries.len() == 0 {
        None
    } else if entries[0].name@ == name {
        Some(entries[0])
    } else {
        find_entry(entries.drop_first(), name)
    }
}

/// The subtree reached from `t` by following `segs`: each segment must name
/// an entry that is itself a tree.
pub open spec fn subtree_at(t: Tree, segs: Seq<Seq<char>>) -> Option<Tree>
    decreases segs.len(),
{
    if segs.len() == 0 {
        Some(t)
    } else {
        match find_entry(t.entries@, segs[0]) {
            Some(e) => match e.item {
                TreeItem::Subtree(sub) => subtree_at(sub, segs.drop_first()),
                _ => None,
            },
            None => None,
        }
    }
}

fn find_entry_exec<'a>(entries: &'a Vec<TreeEntry>, idx: usize, name: &str) -> (r: Option<
    &'a TreeEntry,
>)
    requires
        idx <= entries@.len(),
    ensures
        match find_entry(entries@.subrange(idx as int, entries@.len() as int), name@) {
            Some(e) => (r matches Some(p) && *p == e),
            None => r is None,
        },
    decreases entries@.len() - idx,
{
    let ghost rem = entries@.subrange(idx as int, entries@.len() as int);
    if idx == entries.len() {
        assert(rem.len() == 0);
        return None;
    }
    assert(rem[0] == entries@[idx as int]);
    let e = &entries[idx];
    if crate::strutil::str_eq(e.name.as_str(), name) {
        Some(e)
    } else {
        proof {
            assert(rem.drop_first() =~= entries@.subrange(idx + 1, entries@.len() as int));
        }
        find_entry_exec(entries, idx + 1, name)
    }
}

fn subtree_at_exec<'a>(t: &'a Tree, segs: &Vec<String>, idx: usize) -> (r: Option<&'a Tree>)
    requires
        idx <= segs@.len(),
    ensures
        match subtree_at(*t, seg_views(segs@.subrange(idx as int, segs@.len() as int))) {
            Some(sub) => (r matches Some(p) && *p == sub),
            None => r is None,
        },
    decreases segs@.len() - idx,
{
    let ghost names = seg_views(segs@.subrange(idx as int, segs@.len() as int));
    if idx == segs.len() {
        assert(names.len() == 0);
        return Some(t);
    }
    assert(names[0] == segs@[idx as int]@);
    proof {
        assert(t.entries@.subrange(0, t.entries@.len() as int) =~= t.entries@);
    }
    match find_entry_exec(&t.entries, 0, segs[idx].as_str()) {
        Some(e) => {
            proof {
                let fe = find_entry(t.entries@, names[0]).unwrap();
                assert(fe == *e);
            }
            match &e.item {
                TreeItem::Subtree(sub) => {
                    proof {
                        assert(e.item == TreeItem::Subtree(*sub));
                        assert(seg_views(segs@.subrange(idx + 1, segs@.len() as int))
                            =~= names.drop_first());
                        assert(subtree_at(*t, names) == subtree_at(*sub, names.drop_first()));
                    }
                    subtree_at_exec(sub, segs, idx + 1)
                },
                TreeItem::Blob => {
                    assert(subtree_at(*t, names) is None);
                    None
                },
                TreeItem::Unsupported => {
                    assert(subtree_at(*t, names) is None);
                    None
                },
            }
        },
        None => None,
    }
}

/// The prefix the filtered walk reports paths under: the filter's segments
/// joined back with `'/'`.
pub open spec fn joined_path(segs: Seq<Seq<char>>) -> Seq<char>
    decreases segs.len(),
{
    if segs.len() == 0 {
        Seq::empty()
    } else {
        entry_path(joined_path(segs.drop_last()), segs.last())
    }
}

#[verifier::loop_isolation(false)]
fn joined_path_string(segs: &Vec<String>) -> (r: String)
    ensures
        r@ == joined_path(seg_views(segs@)),
{
    let ghost names = seg_views(segs@);
    let mut out = String::new();
    let mut i: usize = 0;
    while i < segs.len()
        invariant
            i <= segs@.len(),
            out@ == joined_path(names.subrange(0, i as int)),
        decreases segs@.len() - i,
    {
        proof {
            assert(names.subrange(0, i + 1).drop_last() =~= names.subrange(0, i as int));
        }
        let piece = entry_path_string(out.as_str(), segs[i].as_str());
        out = piece;
        i += 1;
    }
    proof {
        assert(names.subrange(0, names.len() as int) =~= names);
    }
    out
}

/// The segments a filter contributes: none when there is no filter.
pub open spec fn filter_segments(filter: Option<Seq<char>>) -> Seq<Seq<char>> {
    match filter {
        Some(f) => split_on(f, '/'),
        None => Seq::empty(),
    }
}

impl Repository {
    /// Walks the tree of a resolved commit. With a path filter, only the
    /// level under the filter is walked, and reported paths stay relative to
    /// the tree root. A filter that names no subtree is not found; an
    /// unsupported object kind in the walk is an upstream failure.
    pub fn list_tree(&self, tree: &Tree, path_filter: Option<&str>, recursive: bool) -> (r: Result<
        Vec<TreeObject>,
        AppError,
    >)
        ensures
            ({
                let segs = filter_segments(
                    match path_filter {
                        Some(f) => Some(f@),
                        None => None,
                    },
                );
                match subtree_at(*tree, segs) {
                    None => (r matches Err(e) && e.kind == ErrorKind::NotFound && e.status == 404
                        && !e.challenge),
                    Some(sub) => match walk_entries_spec(sub.entries@, joined_path(segs), recursive) {
                        Some(objs) => (r matches Ok(v) && v@.len() == objs.len() && (forall|i: int|
                            0 <= i < objs.len() ==> v@[i]@ == objs[i])),
                        None => (r matches Err(e) && e.kind == ErrorKind::UpstreamFailure
                            && e.status == 500 && !e.challenge),
                    },
                }
            }),
    {
        let segs: Vec<String> = match path_filter {
            Some(f) => split_path(f),
            None => Vec::new(),
        };
        proof {
            assert(segs@.subrange(0, segs@.len() as int) =~= segs@);
            assert(seg_views(segs@) =~= filter_segments(
                match path_filter {
                    Some(f) => Some(f@),
                    None => None,
                },
            ));
        }
        let sub = match subtree_at_exec(tree, &segs, 0) {
            Some(sub) => sub,
            None => {
                return Err(AppError::not_found("no tree exists under the requested path"));
            },
        };
        let prefix = joined_path_string(&segs);
        proof {
            assert(sub.entries@.subrange(0, sub.entries@.len() as int) =~= sub.entries@);
        }
        walk_entries(&sub.entries, 0, prefix.as_str(), recursive)
    }
}

/// What base64 encoding of `b` under the standard padded alphabet yields.
pub uninterp spec fn base64_encode_of(b: Seq<u8>) -> Seq<char>;

/// Relies on base64's STANDARD engine: encodes under the standard padded
/// alphabet, a function of the input alone.
#[verifier::external_body]
fn base64_encode(b: &[u8]) -> (r: String)
    ensures
        r@ == base64_encode_of(b@),
{
    base64::engine::general_purpose::STANDARD.encode(b)
}

/// A blob as the inspection API reports it: the object id it was asked for,
/// the transfer encoding, the encoded content, and the encoded length.
#[derive(Debug)]
pub struct BlobRecord {
    pub sha: String,
    pub encoding: String,
    pub content: String,
    pub size: usize,
}

impl Repository {
    /// Builds the report for a blob lookup: the raw bytes the object store
    /// returned (or their absence) become a base64 record or a not-found.
    pub fn encode_blob(&self, sha: &str, content: Option<Vec<u8>>) -> (r: Result<
        BlobRecord,
        AppError,
    >)
        ensures
            match content {
                Some(b) => (r matches Ok(rec) && rec.sha@ == sha@ && rec.encoding@ == "base64"@
                    && rec.content@ == base64_encode_of(b@) && rec.size == base64_encode_of(
                    b@,
                ).len()),
                None => (r matches Err(e) && e.kind == ErrorKind::NotFound && e.status == 404
                    && !e.challenge),
            },
    {
        match content {
            Some(b) => {
                let encoded = base64_encode(b.as_slice());
                let size = encoded.as_str().unicode_len();
                Ok(BlobRecord { sha: sha.to_owned(), encoding: "base64".to_owned(), content: encoded, size })
            },
            None => Err(AppError::not_found("no blob carries the requested id")),
        }
    }
}

} // verus!
