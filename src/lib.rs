//! Resolution and lifecycle layer in front of a Flatpak installation:
//! remote descriptors, repository targets and package sources, reduced to
//! plain values whose meaning is stated and proved.

pub mod remote;
pub mod package;
pub mod repo;

pub use package::{Flatpak, RefKind, Resolution};
pub use remote::{forced_default_branch, uri_source, Remote, UriSource};
pub use repo::{InstallationTarget, Repo};
