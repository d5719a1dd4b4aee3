use vstd::prelude::*;

verus! {

/// A package, as the caller declares it before any installation is at hand.
#[derive(Clone, Debug)]
pub enum Flatpak {
    /// A local bundle file, by its path.
    Bundle(String),
    /// A package fetched from a remote, by its id.
    Download(String),
}

/// Kind of a package reference.
#[derive(Clone, Copy, Debug, PartialEq, Eq)]
pub enum RefKind {
    App,
    Runtime,
}

/// The one native operation that binds a declared package.
#[derive(Clone, Debug, PartialEq, Eq)]
pub enum Resolution {
    /// Open the bundle file at this path; nothing is fetched.
    OpenBundle(String),
    /// Ask the installation for the reference to `app_id` of this kind on this
    /// branch, from the given remote, for the default architecture.
    FetchRemoteRef { app_id: String, kind: RefKind, branch: String },
}

/// The kind a reference is fetched as.
pub open spec fn kind_of(is_runtime: bool) -> RefKind {
    if is_runtime {
        RefKind::Runtime
    } else {
        RefKind::App
    }
}

impl Flatpak {
    /// The native operation that resolves this package: a bundle is opened
    /// from its path, whatever the branch and kind; a download is fetched by
    /// its id on `branch`, as a runtime or an application per `is_runtime`.
    pub fn resolution(&self, branch: &String, is_runtime: bool) -> (r: Resolution)
        ensures
            match self {
                Flatpak::Bundle(p) => r matches Resolution::OpenBundle(q) && q@ == p@,
                Flatpak::Download(id) => r matches Resolution::FetchRemoteRef { app_id, kind, branch: b }
                    && app_id@ == id@ && kind == kind_of(is_runtime) && b@ == branch@,
            },
    {
        match self {
            Flatpak::Bundle(path) => Resolution::OpenBundle(path.clone()),
            Flatpak::Download(app_id) => {
                let kind = if is_runtime {
                    RefKind::Runtime
                } else {
                    RefKind::App
                };
                Resolution::FetchRemoteRef { app_id: app_id.clone(), kind, branch: branch.clone() }
            },
        }
    }
}

} // verus!
