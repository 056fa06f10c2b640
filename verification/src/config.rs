//! Client configuration: the server endpoint and the optional API key.
//!
//! Loading and saving the configuration is file I/O and lives outside the
//! verified library; the data itself and the URL arithmetic live here.

use vstd::prelude::*;

verus! {

/// Connection settings for the remote todo service.
pub struct Config {
    pub api_endpoint: String,
    pub api_key: Option<String>,
}

/// The endpoint used when no configuration file exists yet.
pub open spec fn default_endpoint() -> Seq<char> {
    "http://localhost:8787"@
}

/// `s` with every trailing `'/'` removed.
pub open spec fn strip_trailing_slashes(s: Seq<char>) -> Seq<char>
    decreases s.len(),
{
    if s.len() > 0 && s.last() == '/' {
        strip_trailing_slashes(s.drop_last())
    } else {
        s
    }
}

impl Config {
    /// Joins the configured endpoint with a request path, ignoring any
    /// trailing slashes of the endpoint.
    pub fn build_url(&self, path: &str) -> (url: String)
        ensures
            url@ == strip_trailing_slashes(self.api_endpoint@) + path@,
    {
        let s = self.api_endpoint.as_str();
        let n = s.unicode_len();
        let mut keep: usize = n;
        proof {
            assert(s@.subrange(0, n as int) =~= s@);
        }
        while keep > 0 && s.get_char(keep - 1) == '/'
            invariant
                keep <= n,
                n == s@.len(),
                s@ == self.api_endpoint@,
                strip_trailing_slashes(s@) == strip_trailing_slashes(s@.subrange(0, keep as int)),
            decreases keep,
        {
            proof {
                let pre = s@.subrange(0, keep as int);
                assert(pre.last() == '/');
                assert(pre.drop_last() =~= s@.subrange(0, keep as int - 1));
            }
            keep = keep - 1;
        }
        let trimmed = s.substring_char(0, keep);
        proof {
            let pre = s@.subrange(0, keep as int);
            if keep > 0 {
                assert(pre.last() != '/');
            }
            assert(strip_trailing_slashes(pre) == pre);
        }
        trimmed.to_owned().concat(path)
    }

    pub fn set_endpoint(&mut self, endpoint: String)
        ensures
            final(self).api_endpoint == endpoint,
            final(self).api_key == old(self).api_key,
    {
        self.api_endpoint = endpoint;
    }

    pub fn set_api_key(&mut self, key: String)
        ensures
            final(self).api_key == Some(key),
            final(self).api_endpoint == old(self).api_endpoint,
    {
        self.api_key = Some(key);
    }
}

impl Clone for Config {
    fn clone(&self) -> (r: Self)
        ensures
            r == *self,
    {
        Config {
            api_endpoint: self.api_endpoint.clone(),
            api_key: match &self.api_key {
                Some(k) => Some(k.clone()),
                None => None,
            },
        }
    }
}

impl Default for Config {
    /// A configuration pointing at a local development server, with no key.
    fn default() -> (r: Self)
        ensures
            r.api_endpoint@ == default_endpoint(),
            r.api_key is None,
    {
        Config { api_endpoint: String::from_str("http://localhost:8787"), api_key: None }
    }
}

} // verus!
