use crate::rest_client::{authorized_get, Request, RestClient};
use vstd::prelude::*;

verus! {

/// Upstream path of the movie genre list.
pub const MOVIE_GENRES_PATH: &'static str = "/genre/movie/list";

/// Upstream path of the TV genre list.
pub const TV_GENRES_PATH: &'static str = "/genre/tv/list";

/// What a failed genre field tells the caller.
pub const UPSTREAM_FAILURE: &'static str = "upstream request failed";

/// The record behind the `demo` field.
#[derive(Debug, Clone, Copy, PartialEq, Eq)]
pub struct Demo {
    pub id: usize,
}

/// One genre, as the upstream names it.
#[derive(Debug, PartialEq, Eq)]
pub struct Genre {
    pub id: i32,
    pub name: String,
}

/// The object the upstream wraps its genre list in.
#[derive(Debug, PartialEq, Eq)]
pub struct Genres {
    pub genres: Vec<Genre>,
}

/// How one upstream call ended.
#[derive(Debug, PartialEq, Eq)]
pub enum Upstream {
    /// No response arrived.
    Unreachable,
    /// A response arrived: its status code, and its body decoded as the
    /// genre envelope, or `None` where the body does not decode.
    Response { status: u16, body: Option<Genres> },
}

/// The one failure a genre field can resolve to. Its cause is not told apart.
#[derive(Debug, Clone, Copy, PartialEq, Eq)]
pub enum QueryError {
    UpstreamFailed,
}

impl QueryError {
    /// The message shown with the failing field.
    pub fn message(&self) -> (text: String)
        ensures
            text@ == UPSTREAM_FAILURE@,
    {
        UPSTREAM_FAILURE.to_owned()
    }
}

/// Whether a status code reports success: 200 to 299.
pub open spec fn is_success(status: u16) -> bool {
    200 <= status <= 299
}

/// What a genre field resolves to for a reply: the genres of the envelope,
/// in the order received, where the status reports success and the body
/// decoded; the failure otherwise.
pub open spec fn resolved_genres(reply: Upstream) -> Result<Seq<Genre>, QueryError> {
    match reply {
        Upstream::Unreachable => Err(QueryError::UpstreamFailed),
        Upstream::Response { status, body } => match body {
            Some(envelope) if is_success(status) => Ok(envelope.genres@),
            _ => Err(QueryError::UpstreamFailed),
        },
    }
}

/// What a resolved genre field holds, with the list seen as a sequence.
pub open spec fn listed(result: Result<Vec<Genre>, QueryError>) -> Result<Seq<Genre>, QueryError> {
    match result {
        Ok(list) => Ok(list@),
        Err(error) => Err(error),
    }
}

/// The root of the schema: `demo`, `getMovieGenres` and `getTVGenres`.
#[derive(Debug, Clone, Copy, PartialEq, Eq)]
pub struct Query;

impl Query {
    /// Resolves `demo`: always the same record, whatever the upstream does.
    pub fn demo(&self) -> (record: Demo)
        ensures
            record == (Demo { id: 42 }),
    {
        Demo { id: 42 }
    }

    /// The request behind `getMovieGenres`.
    pub fn movie_genres_request(&self, client: &RestClient) -> (request: Request)
        ensures
            request@ == authorized_get(client@, MOVIE_GENRES_PATH@),
    {
        client.get(MOVIE_GENRES_PATH.to_owned())
    }

    /// The request behind `getTVGenres`.
    pub fn tv_genres_request(&self, client: &RestClient) -> (request: Request)
        ensures
            request@ == authorized_get(client@, TV_GENRES_PATH@),
    {
        client.get(TV_GENRES_PATH.to_owned())
    }

    /// Resolves either genre field from the reply to its request.
    pub fn genres(&self, reply: Upstream) -> (result: Result<Vec<Genre>, QueryError>)
        ensures
            listed(result) == resolved_genres(reply),
    {
        match reply {
            Upstream::Unreachable => Err(QueryError::UpstreamFailed),
            Upstream::Response { status, body } => {
                if 200 <= status && status <= 299 {
                    match body {
                        Some(envelope) => Ok(envelope.genres),
                        None => Err(QueryError::UpstreamFailed),
                    }
                } else {
                    Err(QueryError::UpstreamFailed)
                }
            },
        }
    }
}

/// A reply with a success status and a body that decoded resolves to the
/// genres of that body: the same entries in the same order.
pub proof fn lemma_success_keeps_the_upstream_list(status: u16, envelope: Genres)
    requires
        is_success(status),
    ensures
        resolved_genres(Upstream::Response { status, body: Some(envelope) })
            == Ok::<Seq<Genre>, QueryError>(envelope.genres@),
{
}

/// A call that got no response, a status outside 200 to 299, or a body that
/// does not decode resolves to the failure.
pub proof fn lemma_failure_resolves_to_error(reply: Upstream)
    requires
        reply matches Upstream::Response { status, body } ==> !is_success(status) || body is None,
    ensures
        resolved_genres(reply) == Err::<Seq<Genre>, QueryError>(QueryError::UpstreamFailed),
{
}

} // verus!
