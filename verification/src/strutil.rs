use vstd::prelude::*;
use vstd::string::StrSliceExecFns;
use vstd::string::StringExecFns;

verus! {

/// The views of a vector of string pieces.
pub open spec fn seg_views(segs: Seq<String>) -> Seq<Seq<char>> {
    segs.map_values(|x: String| x@)
}

/// The characters of an optional string.
pub open spec fn opt_string_chars(s: Option<String>) -> Option<Seq<char>> {
    match s {
        Some(v) => Some(v@),
        None => None,
    }
}

/// The pieces of `s` between occurrences of `sep`. The scan walks left to
/// right, carrying the finished pieces and the one being read; empty pieces
/// are dropped.
pub open spec fn scan_split(s: Seq<char>, sep: char) -> (Seq<Seq<char>>, Seq<char>)
    decreases s.len(),
{
    if s.len() == 0 {
        (Seq::empty(), Seq::empty())
    } else {
        let prior = scan_split(s.drop_last(), sep);
        if s.last() == sep {
            if prior.1.len() == 0 {
                (prior.0, Seq::<char>::empty())
            } else {
                (prior.0.push(prior.1), Seq::<char>::empty())
            }
        } else {
            (prior.0, prior.1.push(s.last()))
        }
    }
}

/// The non-empty pieces of `s` between occurrences of `sep`.
pub open spec fn split_on(s: Seq<char>, sep: char) -> Seq<Seq<char>> {
    let scanned = scan_split(s, sep);
    if scanned.1.len() == 0 {
        scanned.0
    } else {
        scanned.0.push(scanned.1)
    }
}

/// Splits `s` at every occurrence of `sep`, dropping empty pieces.
#[verifier::loop_isolation(false)]
pub fn split_str(s: &str, sep: char) -> (r: Vec<String>)
    ensures
        seg_views(r@) == split_on(s@, sep),
{
    let n = s.unicode_len();
    let mut done: Vec<String> = Vec::new();
    let mut cur = String::new();
    let mut i: usize = 0;
    while i < n
        invariant
            i <= n,
            seg_views(done@) == scan_split(s@.subrange(0, i as int), sep).0,
            cur@ == scan_split(s@.subrange(0, i as int), sep).1,
        decreases n - i,
    {
        let ghost longer = s@.subrange(0, i + 1);
        proof {
            assert(longer.drop_last() =~= s@.subrange(0, i as int));
            assert(longer.last() == s@[i as int]);
        }
        let c = s.get_char(i);
        if c == sep {
            if !cur.as_str().is_empty() {
                done.push(cur);
                proof {
                    assert(seg_views(done@) =~= scan_split(longer, sep).0);
                }
            }
            cur = String::new();
        } else {
            cur.append(s.substring_char(i, i + 1));
            proof {
                assert(cur@ =~= scan_split(longer, sep).1);
            }
        }
        i += 1;
    }
    proof {
        assert(s@.subrange(0, n as int) =~= s@);
    }
    if !cur.as_str().is_empty() {
        done.push(cur);
        proof {
            assert(seg_views(done@) =~= split_on(s@, sep));
        }
    }
    proof {
        assert(seg_views(done@) =~= split_on(s@, sep));
    }
    done
}

/// The characters of `s` read as bytes, each truncated to its low eight bits.
/// On ASCII text this is the byte encoding of the text.
pub open spec fn chars_as_bytes(s: Seq<char>) -> Seq<u8> {
    s.map(|i: int, c: char| c as u8)
}

/// Character-for-character string equality.
pub fn str_eq(a: &str, b: &str) -> (r: bool)
    ensures
        r == (a@ == b@),
{
    let na = a.unicode_len();
    let nb = b.unicode_len();
    if na != nb {
        return false;
    }
    let mut i: usize = 0;
    while i < na
        invariant
            na == a@.len(),
            na == b@.len(),
            i <= na,
            forall|j: int| 0 <= j < i ==> a@[j] == b@[j],
        decreases na - i,
    {
        if a.get_char(i) != b.get_char(i) {
            return false;
        }
        i += 1;
    }
    proof {
        assert(a@ =~= b@);
    }
    true
}

/// Whether `s` ends with `suffix`, compared character by character.
pub fn str_ends_with(s: &str, suffix: &str) -> (r: bool)
    ensures
        r == (s@.len() >= suffix@.len() && s@.subrange(
            s@.len() - suffix@.len(),
            s@.len() as int,
        ) == suffix@),
{
    let n = s.unicode_len();
    let m = suffix.unicode_len();
    if n < m {
        return false;
    }
    let tail = s.substring_char(n - m, n);
    str_eq(tail, suffix)
}

/// The characters of `s`, each truncated to a byte.
pub fn str_to_bytes(s: &str) -> (v: Vec<u8>)
    ensures
        v@ == chars_as_bytes(s@),
{
    let n = s.unicode_len();
    let mut v: Vec<u8> = Vec::new();
    let mut i: usize = 0;
    while i < n
        invariant
            n == s@.len(),
            i <= n,
            v@.len() == i,
            forall|j: int| 0 <= j < i ==> v@[j] == s@[j] as u8,
        decreases n - i,
    {
        let c = s.get_char(i);
        v.push(#[verifier::truncate] (c as u8));
        i += 1;
    }
    proof {
        assert(v@ =~= chars_as_bytes(s@));
    }
    v
}

} // verus!
