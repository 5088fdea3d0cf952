use crate::rest_client::{authorized_get, url_parses, ClientConfig, RestClient, AUTHORIZATION};
use async_graphql::http::{playground_source, GraphQLPlaygroundConfig};
use vstd::prelude::*;

verus! {

/// Base URL of the upstream REST service.
pub const UPSTREAM_BASE_URL: &'static str = "https://api.themoviedb.org/3";

/// Prefix of the process variables that configure the gateway.
pub const SETTINGS_PREFIX: &'static str = "TMDB";

/// Key, below the prefix, of the variable that holds the upstream token.
pub const AUTH_TOKEN_KEY: &'static str = "AUTH_TOKEN";

/// Route that executes queries, by `POST`.
pub const GRAPHQL_PATH: &'static str = "/graphql";

/// Route that serves the query console, by `GET`.
pub const CONSOLE_PATH: &'static str = "/";

/// Address the gateway listens on.
pub const LISTEN_ADDRESS: &'static str = "127.0.0.1:8080";

/// Why the gateway did not start.
#[derive(Debug, Clone, Copy, PartialEq, Eq)]
pub enum StartupError {
    /// The settings hold no upstream token.
    MissingAuthToken,
    /// The upstream base URL does not parse.
    MalformedBaseUrl,
}

/// How startup ends for a base URL and the token found in the settings, if
/// any: with the configuration the gateway then serves from, or with the
/// reason it stays stopped. A missing token is reported before the base URL
/// is looked at.
pub open spec fn startup_outcome(
    base_url: Seq<char>,
    auth_token: Option<Seq<char>>,
) -> Result<ClientConfig, StartupError> {
    match auth_token {
        None => Err(StartupError::MissingAuthToken),
        Some(token) => if url_parses(base_url) {
            Ok(ClientConfig { base_url, auth_token: token })
        } else {
            Err(StartupError::MalformedBaseUrl)
        },
    }
}

/// The text of a token that may be missing.
pub open spec fn token_text(auth_token: Option<String>) -> Option<Seq<char>> {
    match auth_token {
        None => None,
        Some(token) => Some(token@),
    }
}

/// What a startup result holds, with the client seen as its configuration.
pub open spec fn started_with(
    started: Result<RestClient, StartupError>,
) -> Result<ClientConfig, StartupError> {
    match started {
        Ok(client) => Ok(client@),
        Err(reason) => Err(reason),
    }
}

/// Takes the gateway from stopped to ready to listen: builds the client
/// that every query is resolved with, or says why the gateway must not
/// listen.
pub fn startup(
    base_url: String,
    auth_token: Option<String>,
) -> (started: Result<RestClient, StartupError>)
    ensures
        started_with(started) == startup_outcome(base_url@, token_text(auth_token)),
{
    match auth_token {
        None => Err(StartupError::MissingAuthToken),
        Some(token) => match RestClient::try_new_auth(base_url, token) {
            Some(client) => Ok(client),
            None => Err(StartupError::MalformedBaseUrl),
        },
    }
}

/// Without a token the gateway never gets a client to serve with, whatever
/// the base URL.
pub proof fn lemma_no_token_no_listening(base_url: Seq<char>)
    ensures
        startup_outcome(base_url, None) == Err::<ClientConfig, StartupError>(
            StartupError::MissingAuthToken,
        ),
{
}

/// A gateway that started with a token sends that token, unchanged, as the
/// `Authorization` header of every request to the upstream, and sends each
/// request to the base URL it started with, followed by the path.
pub proof fn lemma_started_gateway_sends_its_token(
    base_url: Seq<char>,
    token: Seq<char>,
    path: Seq<char>,
)
    requires
        url_parses(base_url),
    ensures
        startup_outcome(base_url, Some(token)) matches Ok(config) && {
            &&& authorized_get(config, path).url == base_url + path
            &&& authorized_get(config, path).headers.len() == 1
            &&& authorized_get(config, path).headers[0].name == AUTHORIZATION@
            &&& authorized_get(config, path).headers[0].value == token
        },
{
}

/// The page that `playground_source` renders for a console whose only
/// setting is the endpoint it sends queries to.
pub uninterp spec fn playground_page(endpoint: Seq<char>) -> Seq<char>;

/// Calls `async_graphql::http::playground_source` on the configuration that
/// `GraphQLPlaygroundConfig::new` makes for the endpoint. The page is a fixed
/// template with that configuration written into it, so it depends on the
/// endpoint alone; its text is left to `playground_page`.
#[verifier::external_body]
fn playground(endpoint: &str) -> (page: String)
    ensures
        page@ == playground_page(endpoint@),
{
    playground_source(GraphQLPlaygroundConfig::new(endpoint))
}

/// The HTML of the query console, which sends its queries to the GraphQL
/// route.
pub fn console_page() -> (page: String)
    ensures
        page@ == playground_page(GRAPHQL_PATH@),
{
    playground(GRAPHQL_PATH)
}

} // verus!
