use vstd::prelude::*;

verus! {

/// The scheme of the URL that `s` parses to under the WHATWG URL standard,
/// lower-cased; `None` where `s` is not an absolute URL.
pub uninterp spec fn parsed_scheme(s: Seq<char>) -> Option<Seq<char>>;

/// Relies on `url::Url::parse` (re-exported by reqwest) and `Url::scheme`:
/// the scheme of the parsed URL, or `None` where parsing fails.
#[verifier::external_body]
fn scheme_of(s: &str) -> (r: Option<String>)
    ensures
        match r {
            Some(scheme) => parsed_scheme(s@) == Some(scheme@),
            None => parsed_scheme(s@) is None,
        },
{
    match reqwest::Url::parse(s) {
        Ok(url) => Some(url.scheme().to_string()),
        Err(_) => None,
    }
}

/// Whether `s` is an absolute URL with scheme `http` or `https`.
pub open spec fn url_accepted(s: Seq<char>) -> bool {
    match parsed_scheme(s) {
        Some(scheme) => scheme == "http"@ || scheme == "https"@,
        None => false,
    }
}

/// Tells whether `s` is an absolute HTTP or HTTPS URL.
pub fn accepts_url(s: &str) -> (r: bool)
    ensures
        r == url_accepted(s@),
{
    match scheme_of(s) {
        Some(scheme) => {
            let http = String::from_str("http");
            let https = String::from_str("https");
            scheme == http || scheme == https
        },
        None => false,
    }
}

/// A URL that has been checked to be an absolute HTTP or HTTPS URL.
pub struct Target {
    text: String,
}

impl Target {
    /// The text of the URL.
    pub closed spec fn text(&self) -> Seq<char> {
        self.text@
    }

    /// Every target holds an accepted URL.
    pub open spec fn wf(&self) -> bool {
        url_accepted(self.text())
    }

    /// Checks `s` and keeps it as a target; `None` where it is not an
    /// absolute HTTP or HTTPS URL.
    pub fn parse(s: &str) -> (r: Option<Target>)
        ensures
            r is Some <==> url_accepted(s@),
            r matches Some(t) ==> t.text() == s@ && t.wf(),
    {
        if accepts_url(s) {
            Some(Target { text: String::from_str(s) })
        } else {
            None
        }
    }

    /// The text of the URL.
    pub fn as_str(&self) -> (r: &str)
        ensures
            r@ == self.text(),
    {
        self.text.as_str()
    }
}

} // verus!
