use vstd::prelude::*;
use crate::headers::{find_header, lookup, unique_names};
use crate::text::concat2;

verus! {

/// The upload configuration exported by a Zipline server (a ShareX `.sxcu` file).
/// `headers` holds the file's `Headers` object, one entry per key.
#[derive(Debug)]
pub struct SxcuConfig {
    pub request_url: String,
    pub file_form_name: String,
    pub headers: Vec<(String, String)>,
    pub url_template: String,
}

impl SxcuConfig {
    /// The configuration's headers form a map: no name occurs twice, as in the file's
    /// `Headers` object.
    pub open spec fn well_formed(&self) -> bool {
        unique_names(self.headers@)
    }
}

/// The authorization token of a configuration's headers: the value under the key
/// `authorization`, or failing that under `Authorization`.
pub open spec fn authorization_of(h: Seq<(String, String)>) -> Option<Seq<char>> {
    match lookup(h, "authorization"@) {
        Some(v) => Some(v),
        None => lookup(h, "Authorization"@),
    }
}

/// In a well-formed configuration that holds an `authorization` header, that header's value
/// is the authorization, whatever other headers there are.
pub proof fn lemma_authorization_header_wins(h: Seq<(String, String)>, i: int)
    requires
        unique_names(h),
        0 <= i < h.len(),
        h[i].0@ == "authorization"@,
    ensures
        authorization_of(h) == Some(h[i].1@),
{
    crate::headers::lemma_lookup_unique(h, i);
}

/// Without an `authorization` header, a configuration's `Authorization` header gives the
/// authorization; with neither there is none.
pub proof fn lemma_authorization_fallback(h: Seq<(String, String)>, i: int)
    requires
        unique_names(h),
        forall|k: int| 0 <= k < h.len() ==> h[k].0@ != "authorization"@,
    ensures
        0 <= i < h.len() && h[i].0@ == "Authorization"@ ==> authorization_of(h) == Some(h[i].1@),
        (forall|k: int| 0 <= k < h.len() ==> h[k].0@ != "Authorization"@) ==> authorization_of(h) is None,
{
    lemma_lookup_absent(h, "authorization"@);
    if 0 <= i < h.len() && h[i].0@ == "Authorization"@ {
        crate::headers::lemma_lookup_unique(h, i);
    }
    if forall|k: int| 0 <= k < h.len() ==> h[k].0@ != "Authorization"@ {
        lemma_lookup_absent(h, "Authorization"@);
    }
}

proof fn lemma_lookup_absent(h: Seq<(String, String)>, key: Seq<char>)
    requires
        forall|k: int| 0 <= k < h.len() ==> h[k].0@ != key,
    ensures
        lookup(h, key) is None,
    decreases h.len(),
{
    if h.len() > 0 {
        let t = h.drop_first();
        assert forall|k: int| 0 <= k < t.len() implies t[k].0@ != key by {
            assert(t[k] == h[k + 1]);
        }
        lemma_lookup_absent(t, key);
    }
}

/// What is shown for the configuration file: `(not set)` when it does not exist, the path
/// relative to the home directory after `~/` when it lies there, the full path otherwise.
pub open spec fn config_display_text(
    path: Seq<char>,
    exists: bool,
    relative_to_home: Option<Seq<char>>,
) -> Seq<char> {
    if !exists {
        "(not set)"@
    } else {
        match relative_to_home {
            Some(rel) => "~/"@ + rel,
            None => path,
        }
    }
}

impl SxcuConfig {
    /// The authorization header value, looked up as `authorization` first and as
    /// `Authorization` second.
    pub fn authorization(&self) -> (r: Option<&str>)
        ensures
            match r {
                Some(v) => authorization_of(self.headers@) == Some(v@),
                None => authorization_of(self.headers@) is None,
            },
    {
        match find_header(&self.headers, "authorization") {
            Some(v) => Some(v),
            None => find_header(&self.headers, "Authorization"),
        }
    }
}

/// The text shown for the configuration file at `path`. `exists` says whether the file is
/// there; `relative_to_home` is the path with the home directory stripped from its front,
/// where the path lies under it.
pub fn display_config_path(path: &str, exists: bool, relative_to_home: Option<&str>) -> (r: String)
    ensures
        r@ == config_display_text(
            path@,
            exists,
            match relative_to_home {
                Some(rel) => Some(rel@),
                None => None,
            },
        ),
{
    if !exists {
        return String::from_str("(not set)");
    }
    match relative_to_home {
        Some(rel) => concat2("~/", rel),
        None => String::from_str(path),
    }
}

} // verus!
