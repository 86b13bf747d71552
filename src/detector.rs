use vstd::prelude::*;
use crate::error::Error;
use crate::origin::{apex_domain, apex_of};
use crate::url_pattern::is_lure_url;

verus! {

/// The host that the url crate parses out of a URL.
pub uninterp spec fn url_host_of(url: Seq<char>) -> Option<Seq<char>>;

/// Relies on url's `Url::parse` and `Url::host_str`: the host of `url`, or
/// nothing when `url` does not parse or has no host.
#[verifier::external_body]
fn url_host(url: &str) -> (r: Option<String>)
    ensures
        r is Some <==> url_host_of(url@) is Some,
        r is Some ==> r->0@ == url_host_of(url@)->0,
{
    url::Url::parse(url).ok()?.host_str().map(|h| h.to_string())
}

/// A URL submitted for analysis, with the host it names.
#[derive(Clone, Debug)]
pub struct Target {
    pub url: String,
    pub host: String,
}

/// Parses a URL into a target. A URL that does not parse, has no host, or
/// whose host has too few labels to give an apex domain is rejected before
/// any probe runs.
pub fn parse_target(url: &str) -> (r: Result<Target, Error>)
    ensures
        match url_host_of(url@) {
            Some(h) => match apex_of(h) {
                Some(_) => r is Ok && r->Ok_0.url@ == url@ && r->Ok_0.host@ == h,
                None => r matches Err(Error::ParseError(m)) && m@ == "Host has too few labels!"@,
            },
            None => r matches Err(Error::ParseError(m)) && m@ == "Invalid URL structure!"@,
        },
{
    match url_host(url) {
        Some(host) => match apex_domain(host.as_str()) {
            Ok(_) => Ok(Target { url: String::from_str(url), host }),
            Err(_) => Err(Error::ParseError(String::from_str("Host has too few labels!"))),
        },
        None => Err(Error::ParseError(String::from_str("Invalid URL structure!"))),
    }
}

/// A character that may stand in an HTTP header value: a tab, or any
/// character from the space on but DEL.
pub open spec fn is_header_value_char(c: char) -> bool {
    c == '\t' || (c as u32 >= 32 && c as u32 != 127)
}

pub open spec fn is_header_value(s: Seq<char>) -> bool {
    forall|i: int| 0 <= i < s.len() ==> is_header_value_char(#[trigger] s[i])
}

/// The detector's process-wide settings: the credential of the domain-intelligence service.
pub struct PhishingDetector {
    api_key: String,
}

impl PhishingDetector {
    pub closed spec fn api_key_spec(&self) -> Seq<char> {
        self.api_key@
    }

    /// Builds a detector; the credential must be usable as an HTTP header value.
    pub fn new(securitytrails_api_key: &str) -> (r: Result<PhishingDetector, Error>)
        ensures
            is_header_value(securitytrails_api_key@) ==> r is Ok && r->Ok_0.api_key_spec()
                == securitytrails_api_key@,
            !is_header_value(securitytrails_api_key@) ==> (r matches Err(Error::ParseError(m))
                && m@ == "Invalid API key"@),
    {
        let n = securitytrails_api_key.unicode_len();
        let mut i: usize = 0;
        while i < n
            invariant
                n == securitytrails_api_key@.len(),
                i <= n,
                forall|k: int| 0 <= k < i ==> is_header_value_char(#[trigger] securitytrails_api_key@[k]),
            decreases n - i,
        {
            let c = securitytrails_api_key.get_char(i);
            if !(c == '\t' || (c as u32 >= 32 && c as u32 != 127)) {
                return Err(Error::ParseError(String::from_str("Invalid API key")));
            }
            i = i + 1;
        }
        Ok(PhishingDetector { api_key: String::from_str(securitytrails_api_key) })
    }

    /// The domain-intelligence credential.
    pub fn api_key(&self) -> (r: &str)
        ensures
            r@ == self.api_key_spec(),
    {
        self.api_key.as_str()
    }

    /// Whether `url` has the lure shape of a reverse-proxy phishing kit.
    pub fn is_suspicious_url(&self, url: &str) -> (r: bool)
        ensures
            r == is_lure_url(url@),
    {
        crate::url_pattern::matches(url)
    }

    /// Look-alike check of a host against well-known domains; no reference list
    /// is configured, so no host is reported.
    pub fn check_domain_levalgo(&self, host: &String) -> (r: Result<bool, Error>)
        ensures
            r matches Ok(false),
    {
        Ok(false)
    }
}

} // verus!
