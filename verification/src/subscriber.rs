use vstd::prelude::*;

verus! {

/// A client of a Redis server, as the redis crate keeps it.
#[verifier::external_type_specification]
#[verifier::external_body]
pub struct ExRedisClient(redis::Client);

/// An error of the redis crate.
#[verifier::external_type_specification]
#[verifier::external_body]
pub struct ExRedisError(redis::RedisError);

/// Whether `redis::Client::open` accepts the URL `url`: a URL of the scheme
/// `redis`, `rediss`, `unix` or `redis+unix` that the url crate parses.
pub uninterp spec fn redis_url_accepted(url: Seq<char>) -> bool;

/// Opens a client with `redis::Client::open(url)`. For a `&str` this only
/// parses the URL; it connects to nothing, so the outcome depends on `url`
/// alone and is named `redis_url_accepted`. A URL without a `:` has no scheme,
/// and the url crate refuses it.
#[verifier::external_body]
fn open_client(url: &str) -> (r: Result<redis::Client, redis::RedisError>)
    ensures
        r is Ok <==> redis_url_accepted(url@),
        !url@.contains(':') ==> r is Err,
{
    redis::Client::open(url)
}

/// Why a subscriber could not be made.
#[derive(Debug, Clone, Copy, PartialEq, Eq, Structural)]
pub enum SubscriberError {
    /// The Redis URL was refused.
    InvalidUrl,
}

/// A subscriber to channels of a Redis server; it holds the client and the
/// channels, and connects when it polls.
pub struct Subscriber<S> {
    client: redis::Client,
    channels: Vec<S>,
}

impl<S> Subscriber<S> {
    /// The channels this subscriber listens to.
    pub closed spec fn subscribed(&self) -> Seq<S> {
        self.channels@
    }

    /// The client this subscriber holds.
    pub closed spec fn held_client(&self) -> redis::Client {
        self.client
    }

    /// A subscriber to `channels` on the server at `redis_url`; refused with
    /// `InvalidUrl` exactly where the redis crate refuses the URL.
    pub fn new(redis_url: &str, channels: Vec<S>) -> (r: Result<Self, SubscriberError>)
        ensures
            r is Ok <==> redis_url_accepted(redis_url@),
            r matches Ok(s) ==> s.subscribed() == channels@,
            r matches Err(e) ==> e == SubscriberError::InvalidUrl,
            !redis_url@.contains(':') ==> r is Err,
    {
        match open_client(redis_url) {
            Ok(client) => Ok(Subscriber { client, channels }),
            Err(_) => Err(SubscriberError::InvalidUrl),
        }
    }

    /// The channels this subscriber listens to.
    pub fn channels(&self) -> (c: &Vec<S>)
        ensures
            c@ == self.subscribed(),
    {
        &self.channels
    }

    /// The client through which this subscriber connects.
    pub fn client(&self) -> (c: &redis::Client)
        ensures
            *c == self.held_client(),
    {
        &self.client
    }
}

} // verus!
