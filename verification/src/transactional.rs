//! The manager of transactional connections.

use crate::endpoints::{endpoints_kept, owned_endpoints};
use crate::protocol::{
    check_reply, connect_request, ConnectRequest, ManagerSettings, Step, TransactionalProbe,
};
use tikv_client::{Config, Error, Result as TiKVResult, Timestamp};
use vstd::prelude::*;

verus! {

/// What a `bb8` pool of `tikv_client::TransactionClient` connections needs
/// decided: how a connection is made, how it is probed, and whether it is
/// broken.
#[derive(Debug)]
pub struct TiKVTransactionalConnectionManager {
    /// Config of TiKV client
    config: Option<Config>,
    /// Addresses of pd endpoints
    pd_endpoints: Vec<String>,
}

impl View for TiKVTransactionalConnectionManager {
    type V = ManagerSettings;

    closed spec fn view(&self) -> ManagerSettings {
        ManagerSettings { pd_endpoints: self.pd_endpoints@, config: self.config }
    }
}

impl Clone for TiKVTransactionalConnectionManager {
    /// A copy of a manager is made of what the manager is made of.
    fn clone(&self) -> (copy: Self)
        ensures
            copy@ == self@,
    {
        Self { config: self.config.clone(), pd_endpoints: self.pd_endpoints.clone() }
    }
}

impl TiKVTransactionalConnectionManager {
    /// Create new transactional connection manager
    ///
    /// # Arguments
    /// * pd_endpoints - addresses of the pd server(s) to connect to
    /// * config - optional config of TiKV client
    ///
    /// Nothing is checked and nothing is contacted: every input gives a
    /// manager, which holds the endpoints in the order given and the
    /// configuration as given.
    pub fn new<S>(pd_endpoints: Vec<S>, config: Option<Config>) -> (made: TiKVResult<Self>) where
        S: Into<String>,

        ensures
            made is Ok,
            endpoints_kept(pd_endpoints@, made->Ok_0@.pd_endpoints),
            made->Ok_0@.config == config,
    {
        Ok(Self { pd_endpoints: owned_endpoints(pd_endpoints), config })
    }

    /// One step of making a connection.
    ///
    /// With no reply yet, the step is the call of the client's constructor:
    /// the one that takes a configuration where the manager has one, the
    /// default one where it has none, with all the endpoints. With the
    /// constructor's reply, the step ends the attempt with that reply: the
    /// connection, or the client's error as it came.
    pub fn connect<C>(&self, reply: Option<Result<C, Error>>) -> (step: Step<
        ConnectRequest,
        Result<C, Error>,
    >)
        ensures
            reply is None ==> step is Call && step->Call_0@ == self@.connect_request(),
            reply is Some ==> step is Done && step->Done_0 == reply->Some_0,
    {
        match reply {
            None => Step::Call(connect_request(&self.pd_endpoints, &self.config)),
            Some(attempt) => Step::Done(attempt),
        }
    }

    /// One step of checking that a connection is alive.
    ///
    /// With no reply yet, the step is the probe: a fetch of the current
    /// timestamp, which opens no transaction. With the reply to the probe,
    /// the step ends the check: a timestamp, whatever it is, says that the
    /// connection is alive, and an error is returned as it came.
    pub fn is_valid(&self, reply: Option<Result<Timestamp, Error>>) -> (step: Step<
        TransactionalProbe,
        Result<(), Error>,
    >)
        ensures
            reply is None ==> step is Call && step->Call_0
                == TransactionalProbe::CurrentTimestamp,
            reply matches Some(Ok(_)) ==> step is Done && step->Done_0 == Ok::<(), Error>(()),
            reply matches Some(Err(e)) ==> step is Done && step->Done_0 == Err::<(), Error>(e),
    {
        match reply {
            None => Step::Call(TransactionalProbe::CurrentTimestamp),
            Some(answer) => Step::Done(check_reply(answer)),
        }
    }

    /// Whether a connection is known to be broken without asking the
    /// server: never. Only a failed probe shows that a connection is
    /// broken. The connection is left as it is.
    pub fn has_broken<C>(&self, _client: &mut C) -> (broken: bool)
        ensures
            !broken,
            *final(_client) == *old(_client),
    {
        false
    }
}

} // verus!
