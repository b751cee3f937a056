//! Validation of the configured endpoint: the input must parse as a URL and
//! use a scheme the transport supports, with a warning for plain HTTP.

use vstd::prelude::*;

verus! {

/// Whether `url::Url::parse` accepts the string; parsing depends on the
/// characters alone.
pub uninterp spec fn url_parse_ok(s: Seq<char>) -> bool;

/// The scheme of the parsed URL, for strings that parse.
pub uninterp spec fn url_scheme(s: Seq<char>) -> Seq<char>;

/// Relies on `url::Url::parse` and `url::Url::scheme`: whether a string
/// parses, and which scheme the parsed URL carries, depend on the string
/// alone.
#[verifier::external_body]
fn parse_scheme(s: &str) -> (r: Option<String>)
    ensures
        r is Some <==> url_parse_ok(s@),
        r matches Some(scheme) ==> scheme@ == url_scheme(s@),
{
    url::Url::parse(s).ok().map(|u| u.scheme().to_string())
}

/// The verdict on one validated text entry.
#[derive(Clone, Copy, PartialEq, Eq, Debug)]
pub enum ValidatorResult {
    Valid,
    Warning(&'static str),
    Error(&'static str),
}

/// Accepts HTTPS endpoints, warns that HTTP is insecure, and rejects
/// everything else: unparsable input and unsupported schemes.
pub fn validate_endpoint(s: &str) -> (r: ValidatorResult)
    ensures
        !url_parse_ok(s@) ==> (r matches ValidatorResult::Error(m) && m@ == "Invalid url"@),
        url_parse_ok(s@) && url_scheme(s@) == "http"@ ==> (r matches ValidatorResult::Warning(m)
            && m@ == "http is insecure"@),
        url_parse_ok(s@) && url_scheme(s@) == "https"@ ==> r is Valid,
        url_parse_ok(s@) && url_scheme(s@) != "http"@ && url_scheme(s@) != "https"@ ==> (r matches
            ValidatorResult::Error(m) && m@ == "scheme needs to be either http or https"@),
{
    let scheme = match parse_scheme(s) {
        Some(scheme) => scheme,
        None => {
            return ValidatorResult::Error("Invalid url");
        },
    };
    proof {
        reveal_strlit("http");
        reveal_strlit("https");
    }
    let http: String = "http".to_owned();
    let https: String = "https".to_owned();
    assert(http@ == "http"@);
    assert(https@ == "https"@);
    assert("http"@ != "https"@);
    if scheme == http {
        assert(url_scheme(s@) == "http"@);
        ValidatorResult::Warning("http is insecure")
    } else if scheme == https {
        assert(url_scheme(s@) == "https"@);
        ValidatorResult::Valid
    } else {
        assert(url_scheme(s@) != "http"@ && url_scheme(s@) != "https"@);
        ValidatorResult::Error("scheme needs to be either http or https")
    }
}

} // verus!
