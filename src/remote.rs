use vstd::prelude::*;

verus! {

/// The scheme that marks a descriptor URI as a local file.
pub open spec fn file_scheme() -> Seq<char> {
    seq!['f', 'i', 'l', 'e', ':', '/', '/']
}

/// Name of the well-known public repository.
pub open spec fn flathub_name() -> Seq<char> {
    seq!['f', 'l', 'a', 't', 'h', 'u', 'b']
}

/// Canonical default branch of the well-known public repository.
pub open spec fn stable_branch() -> Seq<char> {
    seq!['s', 't', 'a', 'b', 'l', 'e']
}

/// Default branch of a remote built from a bare URI.
pub open spec fn master_branch() -> Seq<char> {
    seq!['m', 'a', 's', 't', 'e', 'r']
}

/// URI of the well-known public repository's descriptor.
pub open spec fn flathub_uri() -> Seq<char> {
    "https://dl.flathub.org/repo/flathub.flatpakrepo"@
}

/// Where the bytes of a descriptor come from.
#[derive(Clone, Debug, PartialEq, Eq)]
pub enum UriSource {
    /// A local file, by its path (the URI without its `file://` prefix).
    Local(String),
    /// A network resource, fetched by the whole URI.
    Network(String),
}

/// What a descriptor URI resolves to: a local path exactly when the URI
/// begins with `file://`, the whole URI otherwise.
pub open spec fn source_of(uri: Seq<char>) -> (bool, Seq<char>) {
    if file_scheme().is_prefix_of(uri) {
        (true, uri.subrange(file_scheme().len() as int, uri.len() as int))
    } else {
        (false, uri)
    }
}

impl View for UriSource {
    /// Whether the source is local, and the path or URI it names.
    type V = (bool, Seq<char>);

    open spec fn view(&self) -> (bool, Seq<char>) {
        match self {
            UriSource::Local(p) => (true, p@),
            UriSource::Network(u) => (false, u@),
        }
    }
}

/// Whether `s` begins with `prefix`.
fn has_prefix(s: &str, prefix: &str) -> (r: bool)
    ensures
        r == prefix@.is_prefix_of(s@),
{
    let n = prefix.unicode_len();
    if n > s.unicode_len() {
        return false;
    }
    let mut i: usize = 0;
    while i < n
        invariant
            n == prefix@.len(),
            n <= s@.len(),
            i <= n,
            forall|j: int| 0 <= j < i ==> s@[j] == prefix@[j],
        decreases n - i,
    {
        if s.get_char(i) != prefix.get_char(i) {
            return false;
        }
        i = i + 1;
    }
    assert(prefix@ =~= s@.subrange(0, n as int));
    true
}

/// Whether `a` and `b` hold the same characters.
fn same_text(a: &str, b: &str) -> (r: bool)
    ensures
        r == (a@ == b@),
{
    if a.unicode_len() != b.unicode_len() {
        return false;
    }
    let r = has_prefix(a, b);
    proof {
        if r {
            assert(b@ =~= a@);
        }
    }
    r
}

/// Classifies a descriptor URI: a `file://` prefix (and only a prefix) makes
/// it a local path, anything else is fetched over the network.
pub fn uri_source(uri: &str) -> (r: UriSource)
    ensures
        r@ == source_of(uri@),
{
    let scheme = "file://";
    proof {
        reveal_strlit("file://");
    }
    assert(scheme@ =~= file_scheme());
    if has_prefix(uri, scheme) {
        let rest = uri.substring_char(7, uri.unicode_len());
        UriSource::Local(rest.to_owned())
    } else {
        UriSource::Network(uri.to_owned())
    }
}

/// The default branch that conversion forces onto a parsed remote, given the
/// name the parsed remote reports: `stable` for the well-known public
/// repository, and none otherwise (the parsed branch is kept).
pub open spec fn forced_branch_of(resolved_name: Seq<char>) -> Option<Seq<char>> {
    if resolved_name == flathub_name() {
        Some(stable_branch())
    } else {
        None
    }
}

/// The default branch a converted remote ends up with.
pub open spec fn converted_branch(resolved_name: Seq<char>, parsed_branch: Seq<char>) -> Seq<char> {
    match forced_branch_of(resolved_name) {
        Some(b) => b,
        None => parsed_branch,
    }
}

/// Decides the default-branch override applied after parsing a descriptor.
pub fn forced_default_branch(resolved_name: &str) -> (r: Option<String>)
    ensures
        r matches Some(b) ==> forced_branch_of(resolved_name@) == Some(b@),
        r is None ==> forced_branch_of(resolved_name@) is None,
{
    let flathub = "flathub";
    let stable = "stable";
    proof {
        reveal_strlit("flathub");
        reveal_strlit("stable");
    }
    assert(flathub@ =~= flathub_name());
    assert(stable@ =~= stable_branch());
    if same_text(resolved_name, flathub) {
        Some(stable.to_owned())
    } else {
        None
    }
}

/// Plain view of a remote descriptor.
pub struct RemoteView {
    pub uri: Seq<char>,
    pub name: Seq<char>,
    pub default_branch: Seq<char>,
}

/// The descriptor of the well-known public repository.
pub open spec fn flathub_remote() -> RemoteView {
    RemoteView { uri: flathub_uri(), name: flathub_name(), default_branch: stable_branch() }
}

/// A remote to download from.
#[derive(Clone, Debug)]
pub struct Remote {
    /// uri to a .flatpakrepo file (can be a URL or a `file://` path)
    uri: String,
    /// name the remote is registered under until parsing reports its own
    name: String,
    pub default_branch: String,
}

impl View for Remote {
    type V = RemoteView;

    closed spec fn view(&self) -> RemoteView {
        RemoteView { uri: self.uri@, name: self.name@, default_branch: self.default_branch@ }
    }
}

impl Default for Remote {
    fn default() -> (r: Self)
        ensures
            r@ == flathub_remote(),
    {
        let uri = "https://dl.flathub.org/repo/flathub.flatpakrepo";
        let name = "flathub";
        let branch = "stable";
        proof {
            reveal_strlit("flathub");
            reveal_strlit("stable");
        }
        assert(name@ =~= flathub_name());
        assert(branch@ =~= stable_branch());
        Remote { uri: uri.to_owned(), name: name.to_owned(), default_branch: branch.to_owned() }
    }
}

impl Remote {
    /// A remote known only by its URI: the URI doubles as its name, and its
    /// default branch is `master`.
    pub fn new(uri: String) -> (r: Self)
        ensures
            r@ == (RemoteView { uri: uri@, name: uri@, default_branch: master_branch() }),
    {
        let branch = "master";
        proof {
            reveal_strlit("master");
        }
        assert(branch@ =~= master_branch());
        Remote { uri: uri.clone(), name: uri, default_branch: branch.to_owned() }
    }

    /// The descriptor URI.
    pub fn uri(&self) -> (r: &String)
        ensures
            r@ == self@.uri,
    {
        &self.uri
    }

    /// The name the remote is registered under when its descriptor is parsed.
    pub fn name(&self) -> (r: &String)
        ensures
            r@ == self@.name,
    {
        &self.name
    }

    /// Where this remote's descriptor bytes come from.
    pub fn source(&self) -> (r: UriSource)
        ensures
            r@ == source_of(self@.uri),
    {
        uri_source(self.uri.as_str())
    }
}

/// Converting the default descriptor leaves the remote on `stable`, whatever
/// default branch the fetched descriptor data names: the parsed remote is
/// registered under the descriptor's name, which is the public repository's.
pub proof fn law_default_remote_converts_to_stable(parsed_branch: Seq<char>)
    ensures
        converted_branch(flathub_remote().name, parsed_branch) == stable_branch(),
{
}

/// Converting a descriptor whose parsed remote reports any name other than
/// `flathub` keeps the default branch that the parsed data specified.
pub proof fn law_other_remote_keeps_parsed_branch(resolved_name: Seq<char>, parsed_branch: Seq<char>)
    requires
        resolved_name != flathub_name(),
    ensures
        forced_branch_of(resolved_name) is None,
        converted_branch(resolved_name, parsed_branch) == parsed_branch,
{
}

} // verus!
