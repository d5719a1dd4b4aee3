use vstd::prelude::*;
use rand::Rng;

verus! {

/// Path separator.
pub open spec fn separator() -> char {
    '/'
}

/// Whether `c` is an ASCII letter or digit.
pub open spec fn is_ascii_alphanumeric(c: char) -> bool {
    ('a' <= c && c <= 'z') || ('A' <= c && c <= 'Z') || ('0' <= c && c <= '9')
}

/// Marker that begins the name of every temporary repository directory.
pub open spec fn temp_marker() -> Seq<char> {
    seq!['.', 't', 'm', 'p']
}

/// Number of random characters after the marker.
pub const TEMP_SUFFIX_LEN: usize = 7;

/// Whether `leaf` is a name a temporary repository directory may get: the
/// marker followed by the random alphanumeric suffix.
pub open spec fn is_temp_leaf(leaf: Seq<char>) -> bool {
    &&& leaf.len() == temp_marker().len() + TEMP_SUFFIX_LEN
    &&& leaf.subrange(0, temp_marker().len() as int) == temp_marker()
    &&& forall|i: int| temp_marker().len() <= i < leaf.len() ==> is_ascii_alphanumeric(#[trigger] leaf[i])
}

/// Whether `leaf` is one path component: non-empty, with no separator.
pub open spec fn is_component(leaf: Seq<char>) -> bool {
    leaf.len() > 0 && forall|i: int| 0 <= i < leaf.len() ==> #[trigger] leaf[i] != separator()
}

/// The path of the entry `leaf` directly inside `base`, formed as joining a
/// relative component onto a path does it: no separator is added after an
/// empty base or after one that already ends in a separator.
pub open spec fn child_path(base: Seq<char>, leaf: Seq<char>) -> Seq<char> {
    if base.len() == 0 || base.last() == separator() {
        base + leaf
    } else {
        base.push(separator()) + leaf
    }
}

/// The path with its last component and the separator before it removed
/// (empty when it has no separator).
pub open spec fn parent_path(p: Seq<char>) -> Seq<char>
    decreases p.len(),
{
    if p.len() == 0 {
        p
    } else if p.last() == separator() {
        p.drop_last()
    } else {
        parent_path(p.drop_last())
    }
}

/// `base` without the one trailing separator it may end in.
pub open spec fn without_trailing_separator(base: Seq<char>) -> Seq<char> {
    if base.len() > 0 && base.last() == separator() {
        base.drop_last()
    } else {
        base
    }
}

proof fn lemma_parent_skips_component(prefix: Seq<char>, leaf: Seq<char>)
    requires
        forall|i: int| 0 <= i < leaf.len() ==> #[trigger] leaf[i] != separator(),
    ensures
        parent_path(prefix + leaf) == parent_path(prefix),
    decreases leaf.len(),
{
    if leaf.len() > 0 {
        let shorter = leaf.drop_last();
        assert((prefix + leaf).drop_last() =~= prefix + shorter);
        assert((prefix + leaf).last() == leaf.last());
        assert(leaf.last() == leaf[leaf.len() - 1]);
        lemma_parent_skips_component(prefix, shorter);
    } else {
        assert(prefix + leaf =~= prefix);
    }
}

/// The parent of an entry made inside `base` is `base` itself (up to the
/// trailing separator `base` may be written with).
pub proof fn law_parent_of_child_path(base: Seq<char>, leaf: Seq<char>)
    requires
        is_component(leaf),
    ensures
        parent_path(child_path(base, leaf)) == without_trailing_separator(base),
{
    if base.len() == 0 || base.last() == separator() {
        lemma_parent_skips_component(base, leaf);
        if base.len() == 0 {
            assert(base =~= Seq::<char>::empty());
        }
    } else {
        lemma_parent_skips_component(base.push(separator()), leaf);
        assert(base.push(separator()).drop_last() =~= base);
    }
}

/// A name drawn for a temporary repository directory is a single component.
proof fn lemma_temp_leaf_is_component(leaf: Seq<char>)
    requires
        is_temp_leaf(leaf),
    ensures
        is_component(leaf),
{
    assert forall|i: int| 0 <= i < leaf.len() implies #[trigger] leaf[i] != separator() by {
        if i < temp_marker().len() {
            assert(leaf[i] == leaf.subrange(0, temp_marker().len() as int)[i]);
        } else {
            assert(is_ascii_alphanumeric(leaf[i]));
        }
    }
}

/// The parent of every temporary repo made by `temp_in(base)` is `base`
/// (up to the trailing separator `base` may be written with).
pub proof fn law_temp_in_parent_is_base(base: Seq<char>, leaf: Seq<char>)
    requires
        is_temp_leaf(leaf),
    ensures
        parent_path(child_path(base, leaf)) == without_trailing_separator(base),
{
    lemma_temp_leaf_is_component(leaf);
    law_parent_of_child_path(base, leaf);
}

/// Relies on rand's `thread_rng` sampled through
/// `rand::distributions::Alphanumeric`, which draws each byte from the ASCII
/// letters and digits.
#[verifier::external_body]
fn random_alphanumeric(len: usize) -> (r: String)
    ensures
        r@.len() == len,
        forall|i: int| 0 <= i < len ==> is_ascii_alphanumeric(#[trigger] r@[i]),
{
    rand::thread_rng().sample_iter(&rand::distributions::Alphanumeric).take(len).map(char::from).collect()
}

/// Joins the component `leaf` onto `base`.
fn join_path(base: &String, leaf: &String) -> (r: String)
    ensures
        r@ == child_path(base@, leaf@),
{
    let mut r = base.clone();
    let n = base.unicode_len();
    if n > 0 && base.as_str().get_char(n - 1) != '/' {
        r.append("/");
        proof {
            reveal_strlit("/");
        }
        assert(base@.push(separator()) =~= base@ + "/"@);
    }
    r.append(leaf.as_str());
    r
}

/// An abstraction representing a flatpak repository.
#[derive(Clone, Debug)]
pub enum Repo {
    /// A temporary repo whose directory is deleted when its owner lets it go.
    /// Only enter a directory that should be deleted then.
    Temp(String),
    /// The default system repo.
    System,
    /// The default user repo.
    User,
    /// A static repo that persists; `user` selects per-user semantics.
    Static { path: String, user: bool },
}

impl Default for Repo {
    fn default() -> (r: Self)
        ensures
            r is System,
    {
        Repo::System
    }
}

/// The installation a repository maps to.
#[derive(Clone, Debug, PartialEq, Eq)]
pub enum InstallationTarget {
    /// An installation rooted at a path; `user` selects per-user semantics.
    AtPath { path: String, user: bool },
    /// The platform's shared installation.
    System,
    /// The invoking user's installation.
    User,
}

impl Repo {
    /// A new temporary repo in `base`: a directory named by the marker and a
    /// random alphanumeric suffix, directly inside `base`. It need not exist.
    pub fn temp_in(base: String) -> (r: Self)
        ensures
            r matches Repo::Temp(p) && exists|leaf: Seq<char>|
                is_temp_leaf(leaf) && p@ == #[trigger] child_path(base@, leaf),
    {
        let suffix = random_alphanumeric(TEMP_SUFFIX_LEN);
        let mut leaf = ".tmp".to_owned();
        proof {
            reveal_strlit(".tmp");
        }
        assert(".tmp"@ =~= temp_marker());
        leaf.append(suffix.as_str());
        assert(leaf@.subrange(0, temp_marker().len() as int) =~= temp_marker());
        assert forall|i: int| temp_marker().len() <= i < leaf@.len() implies is_ascii_alphanumeric(
            #[trigger] leaf@[i],
        ) by {
            assert(leaf@[i] == suffix@[i - temp_marker().len()]);
        }
        let path = join_path(&base, &leaf);
        Repo::Temp(path)
    }

    /// The installation this repo resolves to: a temporary repo at its path,
    /// always with per-user semantics; a static repo at its path with its own
    /// flag; the system and user repos to the platform's defaults.
    pub fn installation_target(&self) -> (r: InstallationTarget)
        ensures
            match self {
                Repo::Temp(p) => r matches InstallationTarget::AtPath { path, user }
                    && path@ == p@ && user,
                Repo::Static { path: p, user: u } => r matches InstallationTarget::AtPath { path, user }
                    && path@ == p@ && user == u,
                Repo::System => r is System,
                Repo::User => r is User,
            },
    {
        match self {
            Repo::Temp(p) => InstallationTarget::AtPath { path: p.clone(), user: true },
            Repo::Static { path, user } => InstallationTarget::AtPath { path: path.clone(), user: *user },
            Repo::System => InstallationTarget::System,
            Repo::User => InstallationTarget::User,
        }
    }

    /// The directory to delete when this repo is let go: a temporary repo's
    /// path, and nothing for every other kind.
    pub fn disposal_path(&self) -> (r: Option<String>)
        ensures
            match self {
                Repo::Temp(p) => r matches Some(q) && q@ == p@,
                _ => r is None,
            },
    {
        match self {
            Repo::Temp(p) => Some(p.clone()),
            _ => None,
        }
    }
}

} // verus!
