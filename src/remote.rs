use vstd::prelude::*;

verus! {

#[verifier::external_type_specification]
#[verifier::external_body]
pub struct ExUrl(url::Url);

/// Whether `url::Url::parse` accepts the text.
pub uninterp spec fn url_parses(s: Seq<char>) -> bool;

/// Whether the URL parsed from the text can carry a username and a password:
/// it has a host, the host is not empty, and the scheme is not `file`.
pub uninterp spec fn takes_userinfo(s: Seq<char>) -> bool;

/// The serialization of the URL parsed from `s` once its username is set to
/// `user` and then its password to `password`.
pub uninterp spec fn authed_url(s: Seq<char>, user: Seq<char>, password: Seq<char>) -> Seq<char>;

/// A parsed URL, together with the text it was parsed from and the userinfo
/// set on it so far.
pub struct RemoteUrl {
    url: url::Url,
    source: Ghost<Seq<char>>,
    user: Ghost<Option<Seq<char>>>,
    password: Ghost<Option<Seq<char>>>,
}

impl RemoteUrl {
    /// The text the URL was parsed from.
    pub closed spec fn source(self) -> Seq<char> {
        self.source@
    }

    /// The username set on the URL, if any was.
    pub closed spec fn user(self) -> Option<Seq<char>> {
        self.user@
    }

    /// The password set on the URL, if any was.
    pub closed spec fn password(self) -> Option<Seq<char>> {
        self.password@
    }
}

/// Relies on `url::Url::parse`: whether a text parses depends on the text alone.
#[verifier::external_body]
pub fn parse_url(s: &str) -> (r: Result<RemoteUrl, url::ParseError>)
    ensures
        r is Ok <==> url_parses(s@),
        r matches Ok(u) ==> (u.source() == s@ && u.user() is None && u.password() is None),
{
    match url::Url::parse(s) {
        Ok(url) => Ok(
            RemoteUrl { url, source: Ghost(s@), user: Ghost(None), password: Ghost(None) },
        ),
        Err(e) => Err(e),
    }
}

/// Relies on `url::Url::set_username`: it fails, changing nothing, exactly
/// when the URL has no host, an empty host, or the `file` scheme.
#[verifier::external_body]
pub fn set_url_username(u: &mut RemoteUrl, name: &str) -> (r: Result<(), ()>)
    requires
        old(u).user() is None,
        old(u).password() is None,
    ensures
        r is Ok <==> takes_userinfo(old(u).source()),
        final(u).source() == old(u).source(),
        final(u).password() == old(u).password(),
        r is Ok ==> final(u).user() == Some(name@),
        r is Err ==> final(u).user() == old(u).user(),
{
    let r = u.url.set_username(name);
    if r.is_ok() {
        u.user = Ghost(Some(name@));
    }
    r
}

/// Relies on `url::Url::set_password`: it runs the same test as
/// `set_username` and likewise fails, changing nothing, when it does not pass.
#[verifier::external_body]
pub fn set_url_password(u: &mut RemoteUrl, password: &str) -> (r: Result<(), ()>)
    requires
        old(u).user() is Some,
        old(u).password() is None,
    ensures
        r is Ok <==> takes_userinfo(old(u).source()),
        final(u).source() == old(u).source(),
        final(u).user() == old(u).user(),
        r is Ok ==> final(u).password() == Some(password@),
        r is Err ==> final(u).password() == old(u).password(),
{
    let r = u.url.set_password(Some(password));
    if r.is_ok() {
        u.password = Ghost(Some(password@));
    }
    r
}

/// Relies on `url::Url::as_str`: the serialization of the URL.
#[verifier::external_body]
pub fn url_text(u: &RemoteUrl) -> (r: String)
    ensures
        u.user() is Some && u.password() is Some ==> r@ == authed_url(
            u.source(),
            u.user()->0,
            u.password()->0,
        ),
{
    u.url.as_str().to_string()
}

} // verus!
