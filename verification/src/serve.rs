//! Path resolution for the local file-serving endpoint: the percent-encoded
//! path parameter of a request, decoded and rooted.

use vstd::prelude::*;
use vstd::string::StringExecFns;

verus! {

/// Relies on urlencoding::decode: percent-decoding is a function of the
/// input alone; `None` where the decoded bytes are not valid UTF-8.
pub uninterp spec fn spec_url_decode(s: Seq<char>) -> Option<Seq<char>>;

/// Relies on urlencoding::decode, named by `spec_url_decode`.
#[verifier::external_body]
fn url_decode(s: &str) -> (r: Option<String>)
    ensures
        (r is Some) == (spec_url_decode(s@) is Some),
        (r matches Some(d) ==> spec_url_decode(s@) == Some(d@)),
{
    match urlencoding::decode(s) {
        Ok(c) => Some(c.into_owned()),
        Err(_) => None,
    }
}

/// The local path a file request resolves to: the percent-decoded path
/// parameter behind a root slash, or nothing where decoding fails.
pub open spec fn spec_resolved_path(s: Seq<char>) -> Option<Seq<char>> {
    match spec_url_decode(s) {
        Some(d) => Some(seq!['/'] + d),
        None => None,
    }
}

/// Resolves a request's path parameter to the local path to serve, exactly
/// as `spec_resolved_path` states it; `None` is the request to refuse.
pub fn resolve_file_path(path_param: &str) -> (r: Option<String>)
    ensures
        match r {
            Some(p) => spec_resolved_path(path_param@) == Some(p@),
            None => spec_resolved_path(path_param@) is None,
        },
{
    match url_decode(path_param) {
        Some(d) => {
            let mut out = String::from_str("/");
            out.append(d.as_str());
            proof {
                reveal_strlit("/");
                assert("/"@ =~= seq!['/']);
            }
            Some(out)
        },
        None => None,
    }
}

} // verus!
