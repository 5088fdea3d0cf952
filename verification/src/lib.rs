//! A GraphQL gateway in front of one REST service: the client that builds
//! the authorized requests, the resolvers of the three query fields, and the
//! decisions taken at startup.

pub mod rest_client;
pub mod schema;
pub mod server;
