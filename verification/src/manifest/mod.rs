//! Package manifests: resolving dependencies and writing the lock file.

pub mod resolve;

pub use resolve::{DependencySpec, Resolve, ResolveLock, PackageLock, ResolvedPackage, ResolvedSource};
