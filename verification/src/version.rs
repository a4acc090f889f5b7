//! The version of the command line, as it reports it.

use crate::json::json_text;
use crate::json::quote;
use crate::text::concat;
use vstd::prelude::*;

verus! {

/// What the command line says of itself.
#[derive(Debug, PartialEq, Eq)]
pub struct VersionData {
    pub version: String,
    pub commit_hash: String,
    pub is_dirty: bool,
}

/// The version data as one line of JSON.
pub open spec fn version_json(version: Seq<char>, commit_hash: Seq<char>, is_dirty: bool) -> Seq<
    char,
> {
    "{\"version\":"@ + json_text(version) + ",\"commit_hash\":"@ + json_text(commit_hash)
        + ",\"is_dirty\":"@ + (if is_dirty {
        "true"@
    } else {
        "false"@
    }) + "}"@
}

impl VersionData {
    /// The version data as one line of JSON.
    pub fn to_json(&self) -> (r: String)
        ensures
            r@ == version_json(self.version@, self.commit_hash@, self.is_dirty),
    {
        let a = concat("{\"version\":", quote(self.version.as_str()).as_str());
        let b = concat(a.as_str(), ",\"commit_hash\":");
        let c = concat(b.as_str(), quote(self.commit_hash.as_str()).as_str());
        let d = concat(c.as_str(), ",\"is_dirty\":");
        let e = concat(
            d.as_str(),
            if self.is_dirty {
                "true"
            } else {
                "false"
            },
        );
        concat(e.as_str(), "}")
    }
}

/// The version data of a build: the version of the package, and the commit
/// it was built from.
pub fn current_version(version: &str, commit_hash: &str, is_dirty: bool) -> (r: VersionData)
    ensures
        r.version@ == version@,
        r.commit_hash@ == commit_hash@,
        r.is_dirty == is_dirty,
{
    VersionData { version: version.to_owned(), commit_hash: commit_hash.to_owned(), is_dirty }
}

} // verus!
