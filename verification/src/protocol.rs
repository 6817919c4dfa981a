//! What passes between a manager and whoever drives it.
//!
//! A manager does no I/O. Each of its operations is a step function: asked
//! with no reply, it names the one call to make on the TiKV client; asked
//! with the reply to that call, it gives the result of the operation. The
//! caller makes the call and waits for it.

use tikv_client::{Config, Error};
use vstd::prelude::*;

verus! {

/// What a manager is made of: the endpoints of the placement driver, in the
/// order given, and the client configuration, if there is one.
pub struct ManagerSettings {
    /// Addresses of pd endpoints, first given first.
    pub pd_endpoints: Seq<String>,
    /// Config of TiKV client; `None` stands for the client's defaults.
    pub config: Option<Config>,
}

/// The constructor of the client that a connection attempt calls, with its
/// arguments.
#[derive(Debug, PartialEq, Eq)]
pub enum ConnectRequest {
    /// `new`, the constructor that takes the endpoints alone and uses the
    /// client's default configuration.
    New { pd_endpoints: Vec<String> },
    /// `new_with_config`, the constructor that takes the endpoints and a
    /// configuration.
    NewWithConfig { pd_endpoints: Vec<String>, config: Config },
}

/// A `ConnectRequest` as plain values: the constructor and what it is
/// called with.
pub enum ConnectRequestView {
    New { pd_endpoints: Seq<String> },
    NewWithConfig { pd_endpoints: Seq<String>, config: Config },
}

impl View for ConnectRequest {
    type V = ConnectRequestView;

    open spec fn view(&self) -> ConnectRequestView {
        match *self {
            ConnectRequest::New { pd_endpoints } => ConnectRequestView::New {
                pd_endpoints: pd_endpoints@,
            },
            ConnectRequest::NewWithConfig { pd_endpoints, config } => {
                ConnectRequestView::NewWithConfig { pd_endpoints: pd_endpoints@, config }
            },
        }
    }
}

/// The request that connects a client to `pd_endpoints`: the constructor
/// with a configuration where there is one, the default constructor where
/// there is none, and all the endpoints either way.
pub open spec fn planned_request(
    pd_endpoints: Seq<String>,
    config: Option<Config>,
) -> ConnectRequestView {
    match config {
        Some(config) => ConnectRequestView::NewWithConfig { pd_endpoints, config },
        None => ConnectRequestView::New { pd_endpoints },
    }
}

impl ManagerSettings {
    /// The request that connects a client with these settings.
    pub open spec fn connect_request(self) -> ConnectRequestView {
        planned_request(self.pd_endpoints, self.config)
    }
}

/// The round trip that shows whether a raw connection is alive.
#[derive(Debug, PartialEq, Eq)]
pub enum RawProbe {
    /// Read the value under `key`.
    Get { key: String },
}

/// The round trip that shows whether a transactional connection is alive.
#[derive(Clone, Copy, Debug, PartialEq, Eq)]
pub enum TransactionalProbe {
    /// Ask the placement driver for the current timestamp.
    CurrentTimestamp,
}

/// What the caller of a step function does next.
#[derive(Debug)]
pub enum Step<Q, R> {
    /// Make this call on the client and hand its reply to the same
    /// operation.
    Call(Q),
    /// The operation is over, with this result.
    Done(R),
}

/// Picks the constructor for a connection attempt and copies its arguments.
pub fn connect_request(pd_endpoints: &Vec<String>, config: &Option<Config>) -> (request:
    ConnectRequest)
    ensures
        request@ == planned_request(pd_endpoints@, *config),
{
    match config {
        Some(config) => ConnectRequest::NewWithConfig {
            pd_endpoints: pd_endpoints.clone(),
            config: config.clone(),
        },
        None => ConnectRequest::New { pd_endpoints: pd_endpoints.clone() },
    }
}

/// Judges a connection by the reply to its probe: any answer shows that it
/// is alive, whatever the answer holds, and an error is the verdict as it
/// stands.
pub fn check_reply<T>(reply: Result<T, Error>) -> (outcome: Result<(), Error>)
    ensures
        reply is Ok ==> outcome == Ok::<(), Error>(()),
        reply matches Err(error) ==> outcome == Err::<(), Error>(error),
{
    reply?;
    Ok(())
}

} // verus!
