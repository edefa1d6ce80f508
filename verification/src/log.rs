//! Logs emitted in a call.

use alloy_primitives::{Address, LogData};
use vstd::prelude::*;

use crate::decoded::DecodedCallLog;
use crate::primitives::{log_payload, log_topics};

verus! {

/// A log as it was emitted.
#[derive(Debug, PartialEq, Eq)]
pub struct Log {
    /// The address which emitted this log.
    pub address: Address,
    /// The log data.
    pub data: LogData,
}

/// A log with optional decoded data.
#[derive(Debug, Default, PartialEq, Eq)]
pub struct CallLog {
    /// The address of the log emitter.
    pub address: Address,
    /// The raw log data.
    pub raw_log: LogData,
    /// Optional complementary decoded log data.
    pub decoded: Option<Box<DecodedCallLog>>,
    /// The position of the log relative to subcalls within the same trace.
    pub position: u64,
    /// The index of the log in the transaction.
    pub index: u64,
}

impl From<Log> for CallLog {
    /// Converts a [`Log`] into a [`CallLog`].
    fn from(log: Log) -> (r: Self) {
        CallLog { address: log.address, raw_log: log.data, decoded: None, position: 0, index: 0 }
    }
}

impl vstd::std_specs::convert::FromSpecImpl<Log> for CallLog {
    open spec fn obeys_from_spec() -> bool {
        true
    }

    open spec fn from_spec(log: Log) -> Self {
        CallLog { address: log.address, raw_log: log.data, decoded: None, position: 0, index: 0 }
    }
}

impl Clone for CallLog {
    fn clone(&self) -> (r: Self)
        ensures
            r.same_contents(self),
    {
        CallLog {
            address: self.address,
            raw_log: self.raw_log.clone(),
            decoded: match &self.decoded {
                Some(decoded) => Some(Box::new((**decoded).clone())),
                None => None,
            },
            position: self.position,
            index: self.index,
        }
    }
}

impl CallLog {
    /// The two logs hold the same contents.
    pub open spec fn same_contents(&self, other: &CallLog) -> bool {
        &&& self.address == other.address
        &&& log_topics(self.raw_log) == log_topics(other.raw_log)
        &&& log_payload(self.raw_log) == log_payload(other.raw_log)
        &&& match (self.decoded, other.decoded) {
            (Some(a), Some(b)) => a@ == b@,
            (None, None) => true,
            _ => false,
        }
        &&& self.position == other.position
        &&& self.index == other.index
    }

    /// Sets the position of the log.
    pub fn with_position(self, position: u64) -> (r: Self)
        ensures
            r == (CallLog { position, ..self }),
    {
        CallLog { position, ..self }
    }

    /// Sets index of the log in the transaction.
    pub fn with_index(self, index: u64) -> (r: Self)
        ensures
            r == (CallLog { index, ..self }),
    {
        CallLog { index, ..self }
    }

    /// Gets the decoded call log.
    ///
    /// Initializes with the default value if not yet set.
    pub fn decoded(&mut self) -> (r: &mut DecodedCallLog)
        ensures
            match old(self).decoded {
                Some(decoded) => *r == *decoded,
                None => *r == (DecodedCallLog { name: None, params: None }),
            },
            *final(self) == (CallLog { decoded: Some(Box::new(*final(r))), ..*old(self) }),
    {
        let decoded: &mut Box<DecodedCallLog> = self.decoded.get_or_insert(
            Box::new(DecodedCallLog::default()),
        );
        &mut **decoded
    }

    /// Returns the decoded event name, if there is one.
    pub fn decoded_name(&self) -> (r: Option<&str>)
        ensures
            match r {
                Some(name) => self.decoded is Some && self.decoded->0@.name == Some(name@),
                None => self.decoded is None || self.decoded->0.name is None,
            },
    {
        match &self.decoded {
            Some(decoded) => match &decoded.name {
                Some(name) => Some(name.as_str()),
                None => None,
            },
            None => None,
        }
    }

    /// Returns the decoded parameters, if there are any.
    pub fn decoded_params(&self) -> (r: Option<&[(String, String)]>)
        ensures
            match r {
                Some(params) => {
                    &&& self.decoded is Some
                    &&& self.decoded->0.params is Some
                    &&& self.decoded->0.params->0@ == params@
                },
                None => self.decoded is None || self.decoded->0.params is None,
            },
    {
        match &self.decoded {
            Some(decoded) => match &decoded.params {
                Some(params) => Some(params.as_slice()),
                None => None,
            },
            None => None,
        }
    }
}

} // verus!
