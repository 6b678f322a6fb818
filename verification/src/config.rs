//! Agent configuration: delivery endpoint, logging-configuration path, and
//! the two cycle lengths (seconds) that drive sampling and delivery.

use vstd::prelude::*;

verus! {

/// Configuration for the agent: where to deliver, where the logging
/// configuration lives, and how often to deliver and to poll.
pub struct Config {
    endpoint: String,
    log4rs_file: String,
    deliver_cycle: i64,
    poll_cycle: i64,
}

/// The mathematical content of a `Config`.
pub struct ConfigView {
    pub endpoint: Seq<char>,
    pub log4rs_file: Seq<char>,
    pub deliver_cycle: int,
    pub poll_cycle: int,
}

impl View for Config {
    type V = ConfigView;

    closed spec fn view(&self) -> ConfigView {
        ConfigView {
            endpoint: self.endpoint@,
            log4rs_file: self.log4rs_file@,
            deliver_cycle: self.deliver_cycle as int,
            poll_cycle: self.poll_cycle as int,
        }
    }
}

/// Default delivery interval in seconds.
pub const DEFAULT_DELIVER_CYCLE: i64 = 60;

/// Default poll interval in seconds.
pub const DEFAULT_POLL_CYCLE: i64 = 20;

impl Config {
    /// The default configuration: the vendor's ingestion endpoint, the
    /// conventional logging-configuration file name, a 60 second delivery
    /// interval and a 20 second poll interval.
    pub fn new() -> (c: Config)
        ensures
            c@.endpoint == "https://platform-api.newrelic.com/platform/v1/metrics"@,
            c@.log4rs_file == "log4rs.yml"@,
            c@.deliver_cycle == DEFAULT_DELIVER_CYCLE as int,
            c@.poll_cycle == DEFAULT_POLL_CYCLE as int,
    {
        Config {
            endpoint: "https://platform-api.newrelic.com/platform/v1/metrics".to_owned(),
            log4rs_file: "log4rs.yml".to_owned(),
            deliver_cycle: DEFAULT_DELIVER_CYCLE,
            poll_cycle: DEFAULT_POLL_CYCLE,
        }
    }

    /// A configuration built from explicit values, as read from a
    /// configuration file by the embedding program.
    pub fn from_values(endpoint: String, log4rs_file: String, deliver_cycle: i64, poll_cycle: i64) -> (c: Config)
        ensures
            c@.endpoint == endpoint@,
            c@.log4rs_file == log4rs_file@,
            c@.deliver_cycle == deliver_cycle as int,
            c@.poll_cycle == poll_cycle as int,
    {
        Config { endpoint, log4rs_file, deliver_cycle, poll_cycle }
    }

    /// The delivery interval in seconds.
    pub fn deliver_cycle(&self) -> (r: i64)
        ensures
            r as int == self@.deliver_cycle,
    {
        self.deliver_cycle
    }

    /// The poll interval in seconds.
    pub fn poll_cycle(&self) -> (r: i64)
        ensures
            r as int == self@.poll_cycle,
    {
        self.poll_cycle
    }

    /// The delivery endpoint URL.
    pub fn get_endpoint(&self) -> (r: String)
        ensures
            r@ == self@.endpoint,
    {
        self.endpoint.clone()
    }

    /// The path of the logging-configuration file.
    pub fn log4rs_file(&self) -> (r: String)
        ensures
            r@ == self@.log4rs_file,
    {
        self.log4rs_file.clone()
    }
}

} // verus!
