use vstd::prelude::*;

verus! {

/// Connection settings for the proxy core's control API: the base URL and the
/// optional bearer secret. The HTTP requests themselves are issued by the
/// surrounding application; this type carries the settings and builds the
/// request URLs.
pub struct MihomoApi {
    api: String,
    secret: Option<String>,
}

impl MihomoApi {
    pub closed spec fn api_spec(self) -> Seq<char> {
        self.api@
    }

    pub closed spec fn secret_spec(self) -> Option<Seq<char>> {
        match self.secret {
            Some(s) => Some(s@),
            None => None,
        }
    }

    pub fn new(api: &str, secret: Option<&str>) -> (r: Self)
        ensures
            r.api_spec() == api@,
            r.secret_spec() is Some <==> secret is Some,
            secret matches Some(s) ==> r.secret_spec() == Some(s@),
    {
        MihomoApi {
            api: api.to_owned(),
            secret: match secret {
                Some(s) => Some(s.to_owned()),
                None => None,
            },
        }
    }

    /// The full URL of one controller endpoint: the base URL followed by the
    /// endpoint path.
    pub fn endpoint(&self, path: &str) -> (r: String)
        ensures
            r@ == self.api_spec() + path@,
    {
        let mut r = self.api.clone();
        r.append(path);
        r
    }

    /// The bearer secret, if one is configured.
    pub fn token(&self) -> (r: &Option<String>)
        ensures
            r is Some <==> self.secret_spec() is Some,
            r matches Some(s) ==> self.secret_spec() == Some(s@),
    {
        &self.secret
    }
}

} // verus!
