use vstd::prelude::*;
use vstd::string::StringExecFns;

verus! {

/// The public address of a request: its path and the host it was sent to.
pub struct Uri {
    /// The request's path.
    pub origin: String,
    /// The host that serves the request; present on every `Uri` made by `resolve`.
    pub host: Option<String>,
}

/// `https://` followed by the host and the path.
pub open spec fn canonical(host: Seq<char>, path: Seq<char>) -> Seq<char> {
    seq!['h', 't', 't', 'p', 's', ':', '/', '/'] + host + path
}

impl Uri {
    /// Whether the address can be written out.
    pub open spec fn has_host(&self) -> bool {
        self.host is Some
    }

    /// The written form of a `Uri` that has a host.
    pub open spec fn spec_text(&self) -> Seq<char>
        recommends
            self.has_host(),
    {
        canonical(self.host.unwrap()@, self.origin@)
    }

    /// Builds the address of a request from its path, the host header if it has
    /// one, and otherwise the configured public address.
    pub fn resolve(origin: String, host: Option<String>, fallback_address: &str) -> (r: Uri)
        ensures
            r.origin@ == origin@,
            r.host is Some,
            host is Some ==> r.host.unwrap()@ == host.unwrap()@,
            host is None ==> r.host.unwrap()@ == fallback_address@,
    {
        match host {
            Some(h) => Uri { origin, host: Some(h) },
            None => Uri { origin, host: Some(String::from_str(fallback_address)) },
        }
    }

    /// Writes the address out as `https://<host><path>`.
    pub fn to_string(&self) -> (r: String)
        requires
            self.has_host(),
        ensures
            r@ == self.spec_text(),
    {
        proof { reveal_strlit("https://"); }
        let mut url = String::from_str("https://");
        match &self.host {
            Some(h) => url.append(h.as_str()),
            None => {},
        }
        url.append(self.origin.as_str());
        assert(url@ =~= self.spec_text());
        url
    }
}

} // verus!
