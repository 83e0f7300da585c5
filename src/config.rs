//! Plugin specifications as they are written to the config file.
use vstd::prelude::*;

verus! {

/// A shell that the generated script is for.
#[derive(Clone, Copy, Debug, PartialEq, Eq)]
pub enum Shell {
    Bash,
    Zsh,
}

/// The protocol used to clone a Git source.
#[derive(Clone, Copy, Debug, PartialEq, Eq)]
pub enum GitProtocol {
    Git,
    Https,
    Ssh,
}

/// The Git object that a Git source is checked out at.
#[derive(Clone, Debug, PartialEq, Eq)]
pub enum GitReference {
    /// The head of a branch.
    Branch(String),
    /// A specific commit.
    Rev(String),
    /// A tag.
    Tag(String),
}

/// At most one of the three Git reference options is given.
pub open spec fn at_most_one_reference(branch: Option<String>, rev: Option<String>, tag: Option<String>) -> bool {
    &&& !(branch is Some && rev is Some)
    &&& !(branch is Some && tag is Some)
    &&& !(rev is Some && tag is Some)
}

/// The Git reference that the branch, revision and tag options name.
pub open spec fn git_reference_of(branch: Option<String>, rev: Option<String>, tag: Option<String>) -> Option<GitReference> {
    match (branch, rev, tag) {
        (Some(s), _, _) => Some(GitReference::Branch(s)),
        (None, Some(s), _) => Some(GitReference::Rev(s)),
        (None, None, Some(s)) => Some(GitReference::Tag(s)),
        (None, None, None) => None,
    }
}

/// The branch, revision and tag options that name a Git reference.
pub open spec fn reference_options(r: Option<GitReference>) -> (Option<String>, Option<String>, Option<String>) {
    match r {
        Some(GitReference::Branch(s)) => (Some(s), None, None),
        Some(GitReference::Rev(s)) => (None, Some(s), None),
        Some(GitReference::Tag(s)) => (None, None, Some(s)),
        None => (None, None, None),
    }
}

impl GitReference {
    /// The Git reference named by whichever of the options is given, or
    /// none where none is; at most one of them may be given.
    pub fn from_options(branch: Option<String>, rev: Option<String>, tag: Option<String>) -> (r: Option<Self>)
        requires
            at_most_one_reference(branch, rev, tag),
        ensures
            r == git_reference_of(branch, rev, tag),
    {
        match (branch, rev, tag) {
            (Some(s), None, None) => Some(GitReference::Branch(s)),
            (None, Some(s), None) => Some(GitReference::Rev(s)),
            (None, None, Some(s)) => Some(GitReference::Tag(s)),
            // no option given; two or more are excluded by the precondition
            _ => None,
        }
    }
}

/// Each of the options alone gives its own kind of reference, with the same
/// name, and none gives none.
pub proof fn lemma_reference_options(branch: Option<String>, rev: Option<String>, tag: Option<String>)
    requires
        at_most_one_reference(branch, rev, tag),
    ensures
        branch matches Some(s) ==> git_reference_of(branch, rev, tag) == Some(GitReference::Branch(s)),
        rev matches Some(s) ==> git_reference_of(branch, rev, tag) == Some(GitReference::Rev(s)),
        tag matches Some(s) ==> git_reference_of(branch, rev, tag) == Some(GitReference::Tag(s)),
        (branch is None && rev is None && tag is None) <==> git_reference_of(branch, rev, tag) is None,
        reference_options(git_reference_of(branch, rev, tag)) == (branch, rev, tag),
{
}

/// Resolving the options that a resolved reference stands for gives that
/// reference back.
pub proof fn lemma_reference_resolution_idempotent(r: Option<GitReference>)
    ensures
        at_most_one_reference(reference_options(r).0, reference_options(r).1, reference_options(r).2),
        git_reference_of(reference_options(r).0, reference_options(r).1, reference_options(r).2) == r,
{
}

/// The position of the first entry with key `k`, or -1 where there is none.
pub open spec fn key_index(m: Seq<(String, String)>, k: Seq<char>) -> int
    decreases m.len(),
{
    if m.len() == 0 {
        -1
    } else {
        let i = key_index(m.drop_last(), k);
        if i >= 0 {
            i
        } else if m.last().0@ == k {
            m.len() - 1
        } else {
            -1
        }
    }
}

/// `m` with `e` inserted as into an insertion-ordered map: a key already
/// present keeps its place and takes the new value; a new key goes last.
pub open spec fn insert_entry(m: Seq<(String, String)>, e: (String, String)) -> Seq<(String, String)> {
    let i = key_index(m, e.0@);
    if i < 0 {
        m.push(e)
    } else {
        m.update(i, (m[i].0, e.1))
    }
}

/// The insertion-ordered map that the entries of `s` make, inserted in turn.
pub open spec fn collect_entries(s: Seq<(String, String)>) -> Seq<(String, String)>
    decreases s.len(),
{
    if s.len() == 0 {
        Seq::empty()
    } else {
        insert_entry(collect_entries(s.drop_last()), s.last())
    }
}

/// The keys of `m` are distinct.
pub open spec fn keys_distinct(m: Seq<(String, String)>) -> bool {
    forall|i: int, j: int| 0 <= i < j < m.len() ==> m[i].0@ != m[j].0@
}

proof fn lemma_key_index(m: Seq<(String, String)>, k: Seq<char>)
    ensures
        -1 <= key_index(m, k) < m.len(),
        key_index(m, k) >= 0 ==> m[key_index(m, k)].0@ == k,
        key_index(m, k) >= 0 ==> forall|j: int| 0 <= j < key_index(m, k) ==> m[j].0@ != k,
        key_index(m, k) < 0 ==> forall|j: int| 0 <= j < m.len() ==> m[j].0@ != k,
    decreases m.len(),
{
    if m.len() > 0 {
        lemma_key_index(m.drop_last(), k);
        assert(forall|j: int| 0 <= j < m.len() - 1 ==> m.drop_last()[j] == m[j]);
    }
}

proof fn lemma_key_index_prefix(m: Seq<(String, String)>, k: Seq<char>, n: int)
    requires
        0 <= n <= m.len(),
        forall|j: int| 0 <= j < n ==> m[j].0@ != k,
        n < m.len() ==> m[n].0@ == k,
    ensures
        key_index(m, k) == if n < m.len() { n } else { -1 },
{
    lemma_key_index(m, k);
}

proof fn lemma_collect_distinct(s: Seq<(String, String)>)
    ensures
        keys_distinct(collect_entries(s)),
    decreases s.len(),
{
    if s.len() > 0 {
        let m = collect_entries(s.drop_last());
        lemma_collect_distinct(s.drop_last());
        lemma_key_index(m, s.last().0@);
    }
}

/// The hooks map of the entries given in order: a later entry with a key
/// already seen replaces that entry's value and keeps its place.
pub fn collect_hooks(hooks: Vec<(String, String)>) -> (r: Vec<(String, String)>)
    ensures
        r@ == collect_entries(hooks@),
        keys_distinct(r@),
{
    let mut r: Vec<(String, String)> = Vec::new();
    let mut n: usize = 0;
    while n < hooks.len()
        invariant
            n <= hooks@.len(),
            r@ == collect_entries(hooks@.subrange(0, n as int)),
        decreases hooks@.len() - n,
    {
        let key = hooks[n].0.clone();
        let value = hooks[n].1.clone();
        proof {
            let s = hooks@.subrange(0, n as int + 1);
            assert(s.drop_last() =~= hooks@.subrange(0, n as int));
            assert(s.last() == hooks@[n as int]);
        }
        let mut j: usize = 0;
        while j < r.len() && !(r[j].0 == key)
            invariant
                j <= r@.len(),
                forall|i: int| 0 <= i < j ==> r@[i].0@ != key@,
            decreases r@.len() - j,
        {
            j = j + 1;
        }
        proof {
            lemma_key_index_prefix(r@, key@, j as int);
        }
        if j < r.len() {
            let old_key = r[j].0.clone();
            r.set(j, (old_key, value));
        } else {
            r.push((key, value));
        }
        proof {
            assert(r@ =~= collect_entries(hooks@.subrange(0, n as int + 1)));
        }
        n = n + 1;
    }
    proof {
        assert(hooks@.subrange(0, hooks@.len() as int) =~= hooks@);
        lemma_collect_distinct(hooks@);
    }
    r
}

/// Splits a hook given as `NAME=BODY` at its first `=`; `None` where it has none.
pub fn parse_hook(s: &str) -> (r: Option<(String, String)>)
    ensures
        match r {
            Some((name, body)) => s@ == name@ + seq!['='] + body@ && !name@.contains('='),
            None => !s@.contains('='),
        },
{
    let len = s.unicode_len();
    let mut i: usize = 0;
    while i < len && s.get_char(i) != '='
        invariant
            i <= len == s@.len(),
            forall|j: int| 0 <= j < i ==> s@[j] != '=',
        decreases len - i,
    {
        i = i + 1;
    }
    if i == len {
        None
    } else {
        let name = String::from_str(s.substring_char(0, i));
        let body = String::from_str(s.substring_char(i + 1, len));
        proof {
            assert(s@ =~= name@ + seq!['='] + body@);
            assert forall|j: int| 0 <= j < name@.len() implies name@[j] != '=' by {
                assert(name@[j] == s@[j]);
            }
        }
        Some((name, body))
    }
}

/// A plugin as it stands in the config file.
#[derive(Clone, Debug, PartialEq, Eq)]
pub struct RawPlugin {
    /// A Git repository URL.
    pub git: Option<String>,
    /// A GitHub Gist identifier.
    pub gist: Option<String>,
    /// A GitHub repository as `owner/name`.
    pub github: Option<String>,
    /// A remote file URL.
    pub remote: Option<String>,
    /// A local directory.
    pub local: Option<String>,
    /// An inline script.
    pub inline: Option<String>,
    /// The protocol for Gist and GitHub sources.
    pub proto: Option<GitProtocol>,
    /// The Git object to check out.
    pub reference: Option<GitReference>,
    /// The directory in the source that holds the plugin.
    pub dir: Option<String>,
    /// Which files to use in the plugin's directory.
    pub uses: Option<Vec<String>>,
    /// The templates to apply to the plugin.
    pub apply: Option<Vec<String>>,
    /// The profiles that the plugin is used in.
    pub profiles: Option<Vec<String>>,
    /// Hooks by name, in the order given.
    pub hooks: Option<Vec<(String, String)>>,
}

/// A plugin to be written to the config file.
#[derive(Clone, Debug, PartialEq, Eq)]
pub struct EditPlugin {
    /// The plugin's fields.
    pub inner: RawPlugin,
}

impl EditPlugin {
    /// Wraps a plugin for writing.
    pub fn from_raw(inner: RawPlugin) -> (r: Self)
        ensures
            r.inner == inner,
    {
        EditPlugin { inner }
    }
}

} // verus!
