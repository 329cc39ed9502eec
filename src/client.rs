use vstd::prelude::*;
use crate::error::CacheError;

verus! {

#[verifier::external_type_specification]
#[verifier::external_body]
pub struct ExClient(redis::Client);

#[verifier::external_type_specification]
#[verifier::external_body]
pub struct ExRedisError(redis::RedisError);

/// Relies on `redis::Client`'s derived `Clone`, which copies the parsed
/// connection settings; nothing is claimed of the copy.
pub assume_specification[ <redis::Client as std::clone::Clone>::clone ](c: &redis::Client) -> redis::Client;

/// Whether `redis::Client::open` accepts the text as a connection address.
pub uninterp spec fn address_accepted(url: Seq<char>) -> bool;

/// Relies on `redis::Client::open` for `&str`: it parses the address (scheme,
/// host, port, database) and opens no connection, so whether it succeeds
/// depends on the text alone.
#[verifier::external_body]
fn open_client(url: &str) -> (r: Result<redis::Client, redis::RedisError>)
    ensures
        r is Ok <==> address_accepted(url@),
{
    redis::Client::open(url)
}

/// A handle on one cache server, with the name of the logical database that
/// its user works in.
#[derive(Clone, Debug)]
pub struct RedisClient {
    pub db_name: String,
    pub client: redis::Client,
}

impl RedisClient {
    /// Checks the address and builds a handle; no connection is made yet.
    pub fn connect(url: &str, db_name: &str) -> (r: Result<RedisClient, CacheError>)
        ensures
            r is Ok <==> address_accepted(url@),
            r matches Ok(c) ==> c.db_name@ == db_name@,
            r matches Err(e) ==> e == CacheError::Connection,
    {
        match open_client(url) {
            Ok(client) => Ok(RedisClient { db_name: db_name.to_string(), client }),
            Err(_) => Err(CacheError::Connection),
        }
    }
}

} // verus!
