//! What a snapshot is told before it starts.

use crate::process::{MAX_PIDS, PID_WIDTH};
use crate::sized_query::byte_size;
use vstd::prelude::*;

verus! {

/// The settings of one snapshot.
///
/// `max_pids` is the number of process identifiers that the enumeration is
/// given room for; processes beyond it go unseen. With a `pid_filter`, only
/// the process of that identifier is opened and named.
#[derive(Clone, Copy, Debug)]
pub struct Config {
    max_pids: u32,
    pid_filter: Option<u32>,
}

impl Config {
    #[verifier::type_invariant]
    spec fn fits(self) -> bool {
        self.max_pids * PID_WIDTH <= u32::MAX
    }

    /// The number of identifiers that the enumeration is given room for.
    pub closed spec fn limit(self) -> u32 {
        self.max_pids
    }

    /// The one identifier to which the snapshot is restricted, if any.
    pub closed spec fn filter(self) -> Option<u32> {
        self.pid_filter
    }

    /// Whether the byte size of the enumeration buffer can be told to a
    /// query. Every `Config` that [`Config::new`] hands out is valid.
    pub open spec fn valid(self) -> bool {
        self.limit() * PID_WIDTH <= u32::MAX
    }

    /// Whether a process of identifier `pid` is to be opened and named.
    pub open spec fn admits(self, pid: u32) -> bool {
        self.filter() matches Some(only) ==> pid == only
    }

    /// Settings with room for `max_pids` identifiers and, where `pid_filter`
    /// is set, a restriction to one process. `None` where the byte size of
    /// that many identifiers passes what a query can be told.
    pub fn new(max_pids: u32, pid_filter: Option<u32>) -> (config: Option<Config>)
        ensures
            config is Some <==> max_pids * PID_WIDTH <= u32::MAX,
            config matches Some(c) ==> c.limit() == max_pids && c.filter() == pid_filter
                && c.valid(),
    {
        match byte_size(max_pids, PID_WIDTH) {
            Some(_) => Some(Config { max_pids, pid_filter }),
            None => None,
        }
    }

    /// The number of identifiers that the enumeration is given room for.
    pub fn max_pids(&self) -> (max_pids: u32)
        ensures
            max_pids == self.limit(),
            self.valid(),
    {
        proof {
            use_type_invariant(self);
        }
        self.max_pids
    }

    /// The one identifier to which the snapshot is restricted, if any.
    pub fn pid_filter(&self) -> (pid_filter: Option<u32>)
        ensures
            pid_filter == self.filter(),
    {
        self.pid_filter
    }

    /// Decides whether a process of identifier `pid` is to be opened and
    /// named.
    pub fn selects(&self, pid: u32) -> (selected: bool)
        ensures
            selected == self.admits(pid),
    {
        match self.pid_filter {
            Some(only) => pid == only,
            None => true,
        }
    }
}

impl Default for Config {
    /// Room for [`MAX_PIDS`] identifiers and no restriction.
    fn default() -> (config: Config)
        ensures
            config.limit() == MAX_PIDS,
            config.filter() is None,
            config.valid(),
    {
        Config { max_pids: MAX_PIDS, pid_filter: None }
    }
}

} // verus!
