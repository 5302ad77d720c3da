//! Broker configuration: the connection settings and the fixed
//! exchange and queue names of the request/response channels. The
//! connection itself, consuming and publishing are the caller's
//! transport concern.

use vstd::prelude::*;

verus! {

/// Connection settings handed to a broker at construction.
pub struct BrokerInitArgs {
    pub host: String,
    pub port: u16,
    pub username: String,
    pub password: String,
}

/// A configured broker: connection settings and the exchange it
/// declares.
pub struct Broker {
    pub exchange: String,
    pub host: String,
    pub port: u16,
    pub username: String,
    pub password: String,
}

/// Failures of the broker layer.
#[derive(Clone, Copy, PartialEq, Eq, Structural, Debug)]
pub enum BrokerError {
    FailedToFetchProgramConfigAccount,
}

impl Broker {
    /// Builds a broker over the given connection settings, bound to
    /// the fixed exchange.
    pub fn new(args: BrokerInitArgs) -> (r: Broker)
        ensures
            r.exchange@ == "dao_exchange"@,
            r.host == args.host,
            r.port == args.port,
            r.username == args.username,
            r.password == args.password,
    {
        Broker {
            exchange: String::from_str("dao_exchange"),
            host: args.host,
            port: args.port,
            username: args.username,
            password: args.password,
        }
    }

    /// The queue the broker consumes requests from.
    pub fn request_queue(&self) -> (r: &'static str)
        ensures
            r@ == "request_queue"@,
    {
        "request_queue"
    }

    /// The routing key requests are bound under.
    pub fn request_routing_key(&self) -> (r: &'static str)
        ensures
            r@ == "broker.request"@,
    {
        "broker.request"
    }
}

} // verus!
