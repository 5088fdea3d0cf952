use vstd::prelude::*;
use vstd::string::StringExecFns;

verus! {

/// Name of the header that carries the credential on every outbound request.
pub const AUTHORIZATION: &'static str = "Authorization";

/// Whether `Url::parse` accepts the text as an absolute URL.
pub uninterp spec fn url_parses(text: Seq<char>) -> bool;

/// Runs `surf::Url::parse`, which is the `Url::parse` of the `url` crate, on
/// the text and reports whether it returned `Ok`. The parser reads nothing
/// but its argument, so the answer is the same for the same text; which
/// texts it accepts is left to `url_parses`.
#[verifier::external_body]
fn parses_as_url(text: &str) -> (accepted: bool)
    ensures
        accepted == url_parses(text@),
{
    surf::Url::parse(text).is_ok()
}

/// What a client is made of: where the upstream lives and the credential
/// it presents there.
pub struct ClientConfig {
    pub base_url: Seq<char>,
    pub auth_token: Seq<char>,
}

/// One header of an outbound request.
#[derive(Debug, PartialEq, Eq)]
pub struct Header {
    pub name: String,
    pub value: String,
}

/// A header as the two texts it is made of.
pub struct HeaderView {
    pub name: Seq<char>,
    pub value: Seq<char>,
}

impl View for Header {
    type V = HeaderView;

    open spec fn view(&self) -> HeaderView {
        HeaderView { name: self.name@, value: self.value@ }
    }
}

/// A `GET` request that is ready to be sent: the absolute URL and the
/// headers to send with it.
#[derive(Debug, PartialEq, Eq)]
pub struct Request {
    pub url: String,
    pub headers: Vec<Header>,
}

/// A request as its URL and the sequence of its headers.
pub struct RequestView {
    pub url: Seq<char>,
    pub headers: Seq<HeaderView>,
}

impl View for Request {
    type V = RequestView;

    open spec fn view(&self) -> RequestView {
        RequestView { url: self.url@, headers: self.headers@.map_values(|h: Header| h@) }
    }
}

/// The request a client with the given configuration issues for a path:
/// the base URL followed by the path, character for character, and the
/// token, unchanged, as the only header.
pub open spec fn authorized_get(config: ClientConfig, path: Seq<char>) -> RequestView {
    RequestView {
        url: config.base_url + path,
        headers: seq![HeaderView { name: AUTHORIZATION@, value: config.auth_token }],
    }
}

/// Every request a client issues carries exactly one header: `Authorization`,
/// with the configured token as its value. This holds whatever the path.
pub proof fn lemma_every_request_carries_the_token(config: ClientConfig, path: Seq<char>)
    ensures
        authorized_get(config, path).headers.len() == 1,
        authorized_get(config, path).headers[0].name == AUTHORIZATION@,
        authorized_get(config, path).headers[0].value == config.auth_token,
{
}

/// REST client for one upstream: a base URL that parses, and a static token.
/// Nothing changes a client once it is built.
pub struct RestClient {
    base_url: String,
    auth_token: String,
}

impl View for RestClient {
    type V = ClientConfig;

    closed spec fn view(&self) -> ClientConfig {
        ClientConfig { base_url: self.base_url@, auth_token: self.auth_token@ }
    }
}

impl RestClient {
    #[verifier::type_invariant]
    spec fn base_url_parses(self) -> bool {
        url_parses(self.base_url@)
    }

    /// Builds a client for a base URL that is known to parse.
    pub fn new_auth(base_url: String, auth_token: String) -> (client: Self)
        requires
            url_parses(base_url@),
        ensures
            client@.base_url == base_url@,
            client@.auth_token == auth_token@,
    {
        RestClient { base_url, auth_token }
    }

    /// Builds a client if the base URL parses, and none otherwise.
    pub fn try_new_auth(base_url: String, auth_token: String) -> (client: Option<Self>)
        ensures
            client is Some <==> url_parses(base_url@),
            client matches Some(c) ==> c@.base_url == base_url@ && c@.auth_token == auth_token@,
    {
        if parses_as_url(base_url.as_str()) {
            Some(Self::new_auth(base_url, auth_token))
        } else {
            None
        }
    }

    /// The base URL, which parses.
    pub fn base_url(&self) -> (url: &str)
        ensures
            url@ == self@.base_url,
            url_parses(url@),
    {
        proof {
            use_type_invariant(self);
        }
        self.base_url.as_str()
    }

    /// The token, as configured.
    pub fn auth_token(&self) -> (token: &str)
        ensures
            token@ == self@.auth_token,
    {
        self.auth_token.as_str()
    }

    /// The absolute URL for a path: the base URL with the path appended.
    /// Separators are neither added nor removed.
    pub fn concat_url(&self, path: String) -> (url: String)
        ensures
            url@ == self@.base_url + path@,
    {
        let mut url = self.base_url.clone();
        url.append(path.as_str());
        url
    }

    /// The `GET` request for a path, with the token as its `Authorization`
    /// header.
    pub fn get(&self, path: String) -> (request: Request)
        ensures
            request@ == authorized_get(self@, path@),
    {
        let url = self.concat_url(path);
        let header = Header { name: AUTHORIZATION.to_owned(), value: self.auth_token.clone() };
        let request = Request { url, headers: vec![header] };
        assert(request@.headers =~= authorized_get(self@, path@).headers);
        request
    }
}

} // verus!
