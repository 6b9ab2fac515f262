use vstd::prelude::*;

use crate::error::FetchError;
use crate::names::{join_path, join_spec, strip_gz, strip_gz_spec};
use crate::url_name::{file_name_of, file_name_spec};

verus! {

/// Where one resource goes on disk.
pub struct ResourcePlan {
    /// The URL fetched.
    pub url: String,
    /// The last path segment of the URL.
    pub file_name: String,
    /// Where the fetched, still compressed bytes are written.
    pub local_path: String,
    /// Where the decompressed bytes are written.
    pub decompressed_path: String,
}

impl ResourcePlan {
    /// This plan is the one for `url` in directory `dir`, whose file name is `name`.
    pub open spec fn describes(&self, dir: Seq<char>, url: Seq<char>, name: Seq<char>) -> bool {
        &&& self.url@ == url
        &&& self.file_name@ == name
        &&& self.local_path@ == join_spec(dir, name)
        &&& self.decompressed_path@ == join_spec(dir, strip_gz_spec(name))
    }
}

/// Works out the file name and both local paths of the resource at `url`.
pub fn plan_resource(dir: &str, url: &str) -> (r: Result<ResourcePlan, FetchError>)
    ensures
        match file_name_spec(url@) {
            Ok(n) => r matches Ok(p) && p.describes(dir@, url@, n),
            Err(e) => r matches Err(f) && f == e,
        },
{
    match file_name_of(url) {
        Err(e) => Err(e),
        Ok(name) => {
            let local_path = join_path(dir, name.as_str());
            let stripped = strip_gz(name.as_str());
            let decompressed_path = join_path(dir, stripped.as_str());
            Ok(ResourcePlan { url: url.to_owned(), file_name: name, local_path, decompressed_path })
        },
    }
}

} // verus!
