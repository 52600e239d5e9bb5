//! Task configuration.

use vstd::prelude::*;
use crate::config::HpkeConfig;
use crate::messages::{DapQueryConfig, DapVersion, Time};

verus! {

/// Parameters of a Prio3 instance.
#[derive(Clone, Copy, Debug, PartialEq, Eq, Structural)]
pub enum Prio3Config {
    /// Counts how many inputs are 1.
    Count,
    /// Sums integers of `bits` bits.
    Sum { bits: usize },
    /// Sums vectors of `len` integers of `bits` bits.
    SumVec { bits: usize, len: usize },
    /// Counts inputs per bucket, over `len` buckets.
    Histogram { len: usize },
}

/// The aggregation function of a task.
#[derive(Clone, Copy, Debug, PartialEq, Eq, Structural)]
pub enum VdafConfig {
    Prio3(Prio3Config),
}

/// A privacy budget for zero-concentrated differential privacy, as a
/// fraction with a denominator that is not zero.
#[derive(Clone, Copy, Debug, PartialEq, Eq, Structural)]
pub struct ZCdpBudget {
    pub numerator: u128,
    pub denominator: u128,
}

/// Noise that is added to aggregates: discrete Gaussian under the given
/// budget.
#[derive(Clone, Copy, Debug, PartialEq, Eq, Structural)]
pub struct VdafDpConfig {
    pub zcdp_budget: ZCdpBudget,
}

/// Configuration of a task. Never changes once the task exists.
#[derive(Debug)]
pub struct DapTaskConfig {
    pub version: DapVersion,
    pub leader_url: String,
    pub helper_url: String,
    /// Width of a batch window in seconds.
    pub time_precision: u64,
    /// Time after which the task accepts no reports.
    pub expiration: Time,
    /// Least number of reports in a batch that may be collected.
    pub min_batch_size: u64,
    pub query: DapQueryConfig,
    pub vdaf: VdafConfig,
    pub dp_config: Option<VdafDpConfig>,
    pub vdaf_verify_key: Vec<u8>,
    pub collector_hpke_config: HpkeConfig,
    /// Whether the task was provisioned in band.
    pub taskprov: bool,
}

/// The start of the batch window in which a time lies.
pub open spec fn batch_window_of(time: Time, time_precision: u64) -> int {
    time - (time as int) % (time_precision as int)
}

impl DapTaskConfig {
    /// The start of the batch window in which a report time lies.
    pub fn quantized_time_lower_bound(&self, time: Time) -> (r: Time)
        requires
            self.time_precision > 0,
        ensures
            r == batch_window_of(time, self.time_precision),
            r <= time,
            r % self.time_precision == 0,
    {
        let within: u64 = time % self.time_precision;
        assert(within <= time && (time - within) % (self.time_precision as int) == 0)
            by (nonlinear_arith)
            requires
                within == time % self.time_precision,
                self.time_precision > 0,
        ;
        time - within
    }
}

} // verus!
