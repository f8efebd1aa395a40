//! The account credentials and the URLs of requests to the service.
//!
//! Every request URL carries the account's user name and key in its
//! query. Sending requests is left to the caller; this module only says
//! where they go.

use vstd::prelude::*;
use vstd::string::StringExecFns;
use crate::errors::Error;

verus! {

/// The default domain to use for making API requests.
pub const DEFAULT_BIGML_DOMAIN: &'static str = "bigml.io";

/// The serialization of the URL written `s`, or `None` where `s` is not a
/// valid absolute URL.
pub uninterp spec fn parsed_url_of(s: Seq<char>) -> Option<Seq<char>>;

/// The URL written `url` with its path set to `path` and its query to
/// `query`, or `None` where `url` is not a valid absolute URL.
pub uninterp spec fn with_path_and_query_of(url: Seq<char>, path: Seq<char>, query: Seq<char>) -> Option<Seq<char>>;

/// Relies on `url::Url::parse` and `url::Url::as_str`: the normalized
/// text of a URL, or the reason why it is not one.
#[verifier::external_body]
fn parse_url(s: &str) -> (r: Result<String, url::ParseError>)
    ensures
        match r {
            Ok(u) => parsed_url_of(s@) == Some(u@),
            Err(_) => parsed_url_of(s@) is None,
        },
{
    url::Url::parse(s).map(|u| u.as_str().to_owned())
}

/// Relies on `url::Url::parse`, `url::Url::set_path`, `url::Url::set_query`
/// and `url::Url::as_str`: a URL with a new path and query.
#[verifier::external_body]
fn with_path_and_query(url: &str, path: &str, query: &str) -> (r: Option<String>)
    ensures
        match r {
            Some(u) => with_path_and_query_of(url@, path@, query@) == Some(u@),
            None => with_path_and_query_of(url@, path@, query@) is None,
        },
{
    match url::Url::parse(url) {
        Ok(mut u) => {
            u.set_path(path);
            u.set_query(Some(query));
            Some(u.as_str().to_owned())
        },
        Err(_) => None,
    }
}

/// The text from which the base URL of a domain is parsed.
pub open spec fn base_url_text(domain: Seq<char>) -> Seq<char> {
    "https://"@ + domain + "/"@
}

/// The query that authenticates a request.
pub open spec fn auth_query(username: Seq<char>, api_key: Seq<char>) -> Seq<char> {
    "username="@ + username + "&api_key="@ + api_key
}

/// The account to which requests go, and where the service is.
pub struct Client {
    url: String,
    username: String,
    api_key: String,
}

impl Client {
    /// The base URL of the service.
    pub closed spec fn base_url(&self) -> Seq<char> {
        self.url@
    }

    /// The account's user name.
    pub closed spec fn username(&self) -> Seq<char> {
        self.username@
    }

    /// The account's key.
    pub closed spec fn api_key(&self) -> Seq<char> {
        self.api_key@
    }

    /// A client for the account `username` on the default domain.
    pub fn new(username: &str, api_key: &str) -> (r: Result<Client, Error>)
        ensures
            match parsed_url_of(base_url_text(DEFAULT_BIGML_DOMAIN@)) {
                Some(u) => r matches Ok(c) && c.base_url() == u && c.username() == username@
                    && c.api_key() == api_key@,
                None => r matches Err(Error::CouldNotParseUrlWithDomain { domain, .. })
                    && domain@ == DEFAULT_BIGML_DOMAIN@,
            },
    {
        Client::new_with_domain(DEFAULT_BIGML_DOMAIN, username, api_key)
    }

    /// A client for the account `username` on the service hosted at
    /// `domain`, reached over HTTPS.
    pub fn new_with_domain(domain: &str, username: &str, api_key: &str) -> (r: Result<Client, Error>)
        ensures
            match parsed_url_of(base_url_text(domain@)) {
                Some(u) => r matches Ok(c) && c.base_url() == u && c.username() == username@
                    && c.api_key() == api_key@,
                None => r matches Err(Error::CouldNotParseUrlWithDomain { domain: d, .. }) && d@ == domain@,
            },
    {
        let mut text = "https://".to_owned();
        text.append(domain);
        text.append("/");
        match parse_url(text.as_str()) {
            Ok(url) => Ok(Client { url, username: username.to_owned(), api_key: api_key.to_owned() }),
            Err(e) => Err(Error::could_not_parse_url_with_domain(domain, e)),
        }
    }

    /// The query that authenticates our requests.
    fn auth(&self) -> (r: String)
        ensures
            r@ == auth_query(self.username(), self.api_key()),
    {
        let mut r = "username=".to_owned();
        r.append(self.username.as_str());
        r.append("&api_key=");
        r.append(self.api_key.as_str());
        r
    }

    /// The authenticated URL of `path` on the service. `None` only where
    /// the base URL, which was parsed when the client was made, would not
    /// parse again.
    pub fn url(&self, path: &str) -> (r: Option<String>)
        ensures
            match r {
                Some(u) => with_path_and_query_of(self.base_url(), path@,
                    auth_query(self.username(), self.api_key())) == Some(u@),
                None => with_path_and_query_of(self.base_url(), path@,
                    auth_query(self.username(), self.api_key())) is None,
            },
    {
        let query = self.auth();
        with_path_and_query(self.url.as_str(), path, query.as_str())
    }
}

} // verus!
