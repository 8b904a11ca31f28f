//! Health reports.

use vstd::prelude::*;
use windows_core::HSTRING;

verus! {

/// Number that orders the reports of one source.
pub type SequenceNumber = i64;

/// Health of the reported entity.
#[derive(Debug, Clone, Copy, PartialEq, Eq, Structural)]
pub enum HealthState {
    Invalid,
    Healthy,
    Warning,
    Error,
    Unknown,
}

/// One health report.
#[derive(Debug)]
pub struct HealthInformation {
    pub source_id: HSTRING,
    pub property: HSTRING,
    pub time_to_live_seconds: u32,
    pub state: HealthState,
    pub description: HSTRING,
    pub sequence_number: SequenceNumber,
    pub remove_when_expired: bool,
}

} // verus!
