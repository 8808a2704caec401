//! The parts of the hosting service's records that the process rules read.

use vstd::prelude::*;
use vstd::string::StringExecFns;

verus! {

/// A project board of a repository.
#[derive(Clone, Debug)]
pub struct Project {
    pub name: String,
}

/// A file's contents as the hosting service returns them: base64 text that
/// may be broken into lines.
#[derive(Clone, Debug)]
pub struct Contents {
    pub content: String,
}

/// Where the hosting service answers for the latest release of the
/// repository `repo_name` of `owner`.
pub fn latest_release_url(base_url: &str, owner: &str, repo_name: &str) -> (url: String)
    ensures
        url@ == base_url@ + "/repos/"@ + owner@ + "/"@ + repo_name@ + "/releases/latest"@,
{
    let mut url = String::from_str(base_url);
    url.append("/repos/");
    url.append(owner);
    url.append("/");
    url.append(repo_name);
    url.append("/releases/latest");
    url
}

} // verus!
