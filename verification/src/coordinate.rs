//! The coordinate of a worker within the cluster.

use vstd::prelude::*;
use crate::layout::{MAX_DATA_CENTER_ID, MAX_WORKER_ID};

verus! {

/// Why a configuration cannot be used. Each of these stops the worker before
/// it serves anything.
#[derive(Clone, Copy, Debug, PartialEq, Eq, Structural)]
pub enum ConfigurationError {
    /// The datacenter id is not a number that fits a byte.
    DataCenterIdNotNumeric,
    /// The host name holds no `-`, so no worker id can be split from it.
    HostnameWithoutDash,
    /// What follows the last `-` of the host name is not a number that fits a byte.
    HostnameSuffixNotNumeric,
    /// The worker id is not a number that fits a byte.
    WorkerIdNotNumeric,
    /// The datacenter id is larger than the layout allows.
    DataCenterIdTooLarge,
    /// The worker id is larger than the layout allows.
    WorkerIdTooLarge,
    /// The clock reads earlier than the epoch.
    EpochInFuture,
    /// The clock reads so long after the epoch that the time since does not
    /// fit an identifier.
    EpochTooOld,
}

impl ConfigurationError {
    /// The text that tells an operator what is wrong.
    pub open spec fn message_text(self) -> Seq<char> {
        match self {
            ConfigurationError::DataCenterIdNotNumeric => "cannot parse DATA_CENTER_ID as a valid u8"@,
            ConfigurationError::HostnameWithoutDash =>
                "cannot split WORKER_ID from hostname (WORKER_ID is being parsed from hostname)"@,
            ConfigurationError::HostnameSuffixNotNumeric =>
                "cannot parse WORKER_ID from hostname (WORKER_ID is being parsed from hostname)"@,
            ConfigurationError::WorkerIdNotNumeric => "cannot parse WORKER_ID as a valid u8"@,
            ConfigurationError::DataCenterIdTooLarge => "DATA_CENTER_ID must be less than 32"@,
            ConfigurationError::WorkerIdTooLarge => "WORKER_ID must be less than 32"@,
            ConfigurationError::EpochInFuture => "EPOCH must not be later than the current time"@,
            ConfigurationError::EpochTooOld => "EPOCH must be less than 2199023255552 ms before the current time"@,
        }
    }

    /// Returns the text that tells an operator what is wrong.
    pub fn message(&self) -> (text: &'static str)
        ensures
            text@ == self.message_text(),
    {
        match self {
            ConfigurationError::DataCenterIdNotNumeric => "cannot parse DATA_CENTER_ID as a valid u8",
            ConfigurationError::HostnameWithoutDash =>
                "cannot split WORKER_ID from hostname (WORKER_ID is being parsed from hostname)",
            ConfigurationError::HostnameSuffixNotNumeric =>
                "cannot parse WORKER_ID from hostname (WORKER_ID is being parsed from hostname)",
            ConfigurationError::WorkerIdNotNumeric => "cannot parse WORKER_ID as a valid u8",
            ConfigurationError::DataCenterIdTooLarge => "DATA_CENTER_ID must be less than 32",
            ConfigurationError::WorkerIdTooLarge => "WORKER_ID must be less than 32",
            ConfigurationError::EpochInFuture => "EPOCH must not be later than the current time",
            ConfigurationError::EpochTooOld => "EPOCH must be less than 2199023255552 ms before the current time",
        }
    }
}

/// The `(datacenter, worker)` pair that tells one generator from every other
/// in the cluster. Both ids fit the five bits that the layout gives them.
#[derive(Clone, Copy, Debug, PartialEq, Eq, Structural)]
pub struct Coordinate {
    datacenter_id: u8,
    worker_id: u8,
}

impl Coordinate {
    /// The datacenter of this coordinate.
    pub closed spec fn datacenter(&self) -> u8 {
        self.datacenter_id
    }

    /// The worker of this coordinate.
    pub closed spec fn worker(&self) -> u8 {
        self.worker_id
    }

    /// Both ids fit the layout.
    pub open spec fn wf(&self) -> bool {
        self.datacenter() <= MAX_DATA_CENTER_ID && self.worker() <= MAX_WORKER_ID
    }

    /// What `new` returns for the two ids.
    pub open spec fn checked(datacenter_id: u8, worker_id: u8) -> Option<ConfigurationError> {
        if datacenter_id > MAX_DATA_CENTER_ID {
            Some(ConfigurationError::DataCenterIdTooLarge)
        } else if worker_id > MAX_WORKER_ID {
            Some(ConfigurationError::WorkerIdTooLarge)
        } else {
            None
        }
    }

    /// Makes a coordinate of two ids, each at most 31. The datacenter id is
    /// looked at first.
    pub fn new(datacenter_id: u8, worker_id: u8) -> (r: Result<Coordinate, ConfigurationError>)
        ensures
            match r {
                Ok(c) => Coordinate::checked(datacenter_id, worker_id) is None && c.wf()
                    && c.datacenter() == datacenter_id && c.worker() == worker_id,
                Err(e) => Coordinate::checked(datacenter_id, worker_id) == Some(e),
            },
    {
        if datacenter_id > MAX_DATA_CENTER_ID {
            Err(ConfigurationError::DataCenterIdTooLarge)
        } else if worker_id > MAX_WORKER_ID {
            Err(ConfigurationError::WorkerIdTooLarge)
        } else {
            Ok(Coordinate { datacenter_id, worker_id })
        }
    }

    /// Returns the datacenter id.
    pub fn datacenter_id(&self) -> (r: u8)
        ensures
            r == self.datacenter(),
    {
        self.datacenter_id
    }

    /// Returns the worker id.
    pub fn worker_id(&self) -> (r: u8)
        ensures
            r == self.worker(),
    {
        self.worker_id
    }
}

} // verus!
