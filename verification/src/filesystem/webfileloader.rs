use vstd::prelude::*;
use vstd::string::StringExecFns;

verus! {

/// Fetches files over HTTP relative to a base URL.
pub struct WebFileLoader {
    base_url: String,
}

impl WebFileLoader {
    /// The URL that paths are appended to.
    pub closed spec fn base(&self) -> Seq<char> {
        self.base_url@
    }

    pub fn new(base_path: String) -> (loader: Self)
        ensures
            loader.base() == base_path@,
    {
        Self { base_url: base_path }
    }

    /// The URL that a file is requested from: the base URL, a slash, then the path.
    pub fn request_url(&self, path: &str) -> (url: String)
        ensures
            url@ == self.base() + "/"@ + path@,
    {
        let mut url = self.base_url.clone();
        url.append("/");
        url.append(path);
        url
    }
}

} // verus!
