use vstd::prelude::*;

verus! {

#[verifier::external_type_specification]
#[verifier::external_body]
pub struct ExPathBuf(std::path::PathBuf);

/// Reads files below a root directory of the local file system.
pub struct NativeFileLoader {
    root_dir: std::path::PathBuf,
}

impl NativeFileLoader {
    /// The directory that paths are taken relative to.
    pub closed spec fn root(&self) -> std::path::PathBuf {
        self.root_dir
    }

    pub fn new(root_dir: std::path::PathBuf) -> (loader: Self)
        ensures
            loader.root() == root_dir,
    {
        Self { root_dir }
    }

    pub fn root_dir(&self) -> (dir: &std::path::PathBuf)
        ensures
            *dir == self.root(),
    {
        &self.root_dir
    }
}

} // verus!
