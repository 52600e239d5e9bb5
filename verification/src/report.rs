//! The first stages of a report's life: admission by time, consumption of
//! the opened input share, and the fetching of stored state.

use std::ops::Range;
use vstd::prelude::*;
use crate::config::DapGlobalConfig;
use crate::error::DapError;
use crate::messages::{ReportId, ReportMetadata, TaskId, Time, TransitionFailure};
use crate::task::DapTaskConfig;

verus! {

/// The earliest report time that is valid at `now`: one storage epoch back,
/// but not before the beginning of time.
pub open spec fn least_valid_time(now: Time, epoch_duration: u64) -> int {
    if now >= epoch_duration {
        now - epoch_duration
    } else {
        0
    }
}

/// The latest report time that is valid at `now`: the allowed skew ahead,
/// but not past the end of time.
pub open spec fn greatest_valid_time(now: Time, max_future_time_skew: u64) -> int {
    if now + max_future_time_skew <= u64::MAX {
        now + max_future_time_skew
    } else {
        u64::MAX as int
    }
}

impl DapGlobalConfig {
    /// The earliest report time that is valid at `now`.
    pub fn least_valid_report_time(&self, now: Time) -> (r: Time)
        ensures
            r == least_valid_time(now, self.report_storage_epoch_duration),
    {
        if now >= self.report_storage_epoch_duration {
            now - self.report_storage_epoch_duration
        } else {
            0
        }
    }

    /// The latest report time that is valid at `now`.
    pub fn greatest_valid_report_time(&self, now: Time) -> (r: Time)
        ensures
            r == greatest_valid_time(now, self.report_storage_max_future_time_skew),
    {
        if now <= u64::MAX - self.report_storage_max_future_time_skew {
            now + self.report_storage_max_future_time_skew
        } else {
            u64::MAX
        }
    }
}

/// Why a report is not admitted at `now`, if it is not: its time lies
/// beyond the allowed skew; or its time lies more than a storage epoch
/// back; or the task has expired by its time.
pub open spec fn admission_failure(
    global: DapGlobalConfig,
    now: Time,
    expiration: Time,
    time: Time,
) -> Option<TransitionFailure> {
    if time > greatest_valid_time(now, global.report_storage_max_future_time_skew) {
        Some(TransitionFailure::ReportTooEarly)
    } else if time < least_valid_time(now, global.report_storage_epoch_duration) {
        Some(TransitionFailure::ReportDropped)
    } else if expiration < time {
        Some(TransitionFailure::TaskExpired)
    } else {
        None
    }
}

/// Decides whether a report is admitted at `now`.
pub fn check_report_time(global: &DapGlobalConfig, now: Time, task_config: &DapTaskConfig, time: Time) -> (r:
    Result<(), TransitionFailure>)
    ensures
        match r {
            Ok(()) => admission_failure(*global, now, task_config.expiration, time).is_none(),
            Err(failure) => admission_failure(*global, now, task_config.expiration, time) == Some(
                failure,
            ),
        },
{
    if time > global.greatest_valid_report_time(now) {
        Err(TransitionFailure::ReportTooEarly)
    } else if time < global.least_valid_report_time(now) {
        Err(TransitionFailure::ReportDropped)
    } else if task_config.expiration < time {
        Err(TransitionFailure::TaskExpired)
    } else {
        Ok(())
    }
}

/// The report time filter: a report of a task that has not expired is
/// admitted at `now` exactly if its time lies no more than a storage epoch
/// back and no more than the allowed skew ahead.
pub proof fn lemma_report_time_filter(global: DapGlobalConfig, now: Time, expiration: Time, time: Time)
    requires
        time <= expiration,
    ensures
        admission_failure(global, now, expiration, time).is_none() <==> (now
            - global.report_storage_epoch_duration <= time <= now
            + global.report_storage_max_future_time_skew),
{
}

/// What came of opening a report's encrypted input share.
#[derive(Debug)]
pub enum HpkeOpened {
    /// No receiver configuration has the identifier that the report names.
    UnknownConfigId,
    /// The configuration names an AEAD that is not supported.
    UnknownAead,
    /// The ciphertext does not open under the configuration.
    DecryptError,
    /// The ciphertext opens, but what it holds is no input share.
    MalformedShare,
    /// The input share.
    Share(Vec<u8>),
}

/// A report after consumption.
#[derive(Debug)]
pub enum EarlyReportStateConsumed {
    /// A report seen for the first time.
    New {
        metadata: ReportMetadata,
        public_share: Vec<u8>,
        input_share: Vec<u8>,
        peer_prep_share: Option<Vec<u8>>,
    },
    /// A report whose state from an earlier aggregation is in storage.
    Stored { id: ReportId, peer_prep_share: Vec<u8> },
    /// A report that was rejected.
    Rejected { id: ReportId, failure: TransitionFailure },
}

/// A report after its stored state, if any, was fetched.
#[derive(Debug)]
pub enum EarlyReportStateFetched {
    /// A report that is ready for preparation.
    Ready {
        metadata: ReportMetadata,
        public_share: Vec<u8>,
        input_share: Vec<u8>,
        peer_prep_share: Option<Vec<u8>>,
    },
    /// A report that was rejected.
    Rejected { id: ReportId, failure: TransitionFailure },
}

/// A report after preparation was begun.
#[derive(Debug)]
pub enum EarlyReportStateInitialized {
    /// A report whose preparation goes on.
    Ready {
        metadata: ReportMetadata,
        public_share: Vec<u8>,
        /// The state that this aggregator keeps.
        prep_state: Vec<u8>,
        /// The share that this aggregator sends or has received.
        prep_share: Vec<u8>,
    },
    /// A report that was rejected.
    Rejected { id: ReportId, failure: TransitionFailure },
}

/// The failure with which a report is rejected for what came of opening
/// its input share; `None` where the share was opened and is well formed.
pub open spec fn open_failure(opened: HpkeOpened) -> Option<TransitionFailure> {
    match opened {
        HpkeOpened::UnknownConfigId => Some(TransitionFailure::HpkeUnknownConfigId),
        HpkeOpened::UnknownAead => Some(TransitionFailure::HpkeUnknownAead),
        HpkeOpened::DecryptError => Some(TransitionFailure::HpkeDecryptError),
        HpkeOpened::MalformedShare => Some(TransitionFailure::VdafPrepError),
        HpkeOpened::Share(_) => None,
    }
}

/// The consumed state of a report: rejected where it is not admitted, else
/// rejected for what came of opening its input share, else new.
pub open spec fn consumed(
    global: DapGlobalConfig,
    now: Time,
    expiration: Time,
    metadata: ReportMetadata,
    public_share: Vec<u8>,
    opened: HpkeOpened,
    peer_prep_share: Option<Vec<u8>>,
) -> EarlyReportStateConsumed {
    match admission_failure(global, now, expiration, metadata.time) {
        Some(failure) => EarlyReportStateConsumed::Rejected { id: metadata.id, failure },
        None => match opened {
            HpkeOpened::Share(input_share) => EarlyReportStateConsumed::New {
                metadata,
                public_share,
                input_share,
                peer_prep_share,
            },
            _ => EarlyReportStateConsumed::Rejected {
                id: metadata.id,
                failure: open_failure(opened).unwrap(),
            },
        },
    }
}

/// Consumes a report whose input share the caller has tried to open. The
/// report is never stored here.
pub fn consume(
    global: &DapGlobalConfig,
    now: Time,
    task_config: &DapTaskConfig,
    metadata: ReportMetadata,
    public_share: Vec<u8>,
    opened: HpkeOpened,
    peer_prep_share: Option<Vec<u8>>,
) -> (r: EarlyReportStateConsumed)
    ensures
        r == consumed(
            *global,
            now,
            task_config.expiration,
            metadata,
            public_share,
            opened,
            peer_prep_share,
        ),
{
    match check_report_time(global, now, task_config, metadata.time) {
        Err(failure) => EarlyReportStateConsumed::Rejected { id: metadata.id, failure },
        Ok(()) => match opened {
            HpkeOpened::Share(input_share) => EarlyReportStateConsumed::New {
                metadata,
                public_share,
                input_share,
                peer_prep_share,
            },
            HpkeOpened::UnknownConfigId => EarlyReportStateConsumed::Rejected {
                id: metadata.id,
                failure: TransitionFailure::HpkeUnknownConfigId,
            },
            HpkeOpened::UnknownAead => EarlyReportStateConsumed::Rejected {
                id: metadata.id,
                failure: TransitionFailure::HpkeUnknownAead,
            },
            HpkeOpened::DecryptError => EarlyReportStateConsumed::Rejected {
                id: metadata.id,
                failure: TransitionFailure::HpkeDecryptError,
            },
            HpkeOpened::MalformedShare => EarlyReportStateConsumed::Rejected {
                id: metadata.id,
                failure: TransitionFailure::VdafPrepError,
            },
        },
    }
}

/// What a consumed report is fetched as where nothing is stored: a new
/// report is ready, a rejected one stays rejected, and one that should be
/// in storage is dropped.
pub open spec fn fetched_without_storage(report: EarlyReportStateConsumed) -> EarlyReportStateFetched {
    match report {
        EarlyReportStateConsumed::New { metadata, public_share, input_share, peer_prep_share } => {
            EarlyReportStateFetched::Ready { metadata, public_share, input_share, peer_prep_share }
        },
        EarlyReportStateConsumed::Stored { id, peer_prep_share: _ } => {
            EarlyReportStateFetched::Rejected { id, failure: TransitionFailure::ReportDropped }
        },
        EarlyReportStateConsumed::Rejected { id, failure } => EarlyReportStateFetched::Rejected {
            id,
            failure,
        },
    }
}

/// Fetches one consumed report where nothing is stored.
pub fn fetch_without_storage(report: EarlyReportStateConsumed) -> (r: EarlyReportStateFetched)
    ensures
        r == fetched_without_storage(report),
{
    match report {
        EarlyReportStateConsumed::New { metadata, public_share, input_share, peer_prep_share } => {
            EarlyReportStateFetched::Ready { metadata, public_share, input_share, peer_prep_share }
        },
        EarlyReportStateConsumed::Stored { id, peer_prep_share: _ } => {
            EarlyReportStateFetched::Rejected { id, failure: TransitionFailure::ReportDropped }
        },
        EarlyReportStateConsumed::Rejected { id, failure } => EarlyReportStateFetched::Rejected {
            id,
            failure,
        },
    }
}

/// Fetches consumed reports where nothing is stored: one fetched report
/// per consumed one, in the same order.
pub fn fetch_stored_reports(reports: Vec<EarlyReportStateConsumed>) -> (r: Vec<
    EarlyReportStateFetched,
>)
    ensures
        r@.len() == reports@.len(),
        forall|i: int| 0 <= i < r@.len() ==> r@[i] == fetched_without_storage(reports@[i]),
{
    let ghost all = reports@;
    let mut rest = reports;
    let mut backwards: Vec<EarlyReportStateFetched> = Vec::new();
    while rest.len() > 0
        invariant
            rest@.len() + backwards@.len() == all.len(),
            rest@ == all.subrange(0, rest@.len() as int),
            forall|k: int|
                0 <= k < backwards@.len() ==> backwards@[k] == fetched_without_storage(
                    all[all.len() - 1 - k],
                ),
        decreases rest@.len(),
    {
        let report = rest.pop().unwrap();
        backwards.push(fetch_without_storage(report));
    }
    let ghost reversed = backwards@;
    let mut out: Vec<EarlyReportStateFetched> = Vec::new();
    while backwards.len() > 0
        invariant
            reversed.len() == all.len(),
            backwards@.len() + out@.len() == all.len(),
            backwards@ == reversed.subrange(0, backwards@.len() as int),
            forall|k: int|
                0 <= k < reversed.len() ==> reversed[k] == fetched_without_storage(
                    all[all.len() - 1 - k],
                ),
            forall|k: int| 0 <= k < out@.len() ==> out@[k] == fetched_without_storage(all[k]),
        decreases backwards@.len(),
    {
        let report = backwards.pop().unwrap();
        out.push(report);
    }
    out
}

/// A report that does not open goes no further: whatever else holds of it,
/// it is rejected when consumed and stays rejected when fetched, under its
/// own identifier; for its time where that is not valid, else for what
/// came of the opening. So no prepared report comes of it, and no span
/// holds it.
pub proof fn lemma_unopened_report_stays_rejected(
    global: DapGlobalConfig,
    now: Time,
    expiration: Time,
    metadata: ReportMetadata,
    public_share: Vec<u8>,
    opened: HpkeOpened,
    peer_prep_share: Option<Vec<u8>>,
)
    requires
        !(opened is Share),
    ensures
        fetched_without_storage(
            consumed(global, now, expiration, metadata, public_share, opened, peer_prep_share),
        ) == (EarlyReportStateFetched::Rejected {
            id: metadata.id,
            failure: match admission_failure(global, now, expiration, metadata.time) {
                Some(failure) => failure,
                None => open_failure(opened).unwrap(),
            },
        }),
        opened is DecryptError && admission_failure(
            global,
            now,
            expiration,
            metadata.time,
        ).is_none() ==> fetched_without_storage(
            consumed(global, now, expiration, metadata, public_share, opened, peer_prep_share),
        ) == (EarlyReportStateFetched::Rejected {
            id: metadata.id,
            failure: TransitionFailure::HpkeDecryptError,
        }),
{
}

/// What an aggregator does with reports on their way into an aggregation
/// job.
pub trait DapReportProcessor {
    /// The range of time in which a report must lie to be valid now.
    fn valid_report_time_range(&self) -> Range<Time>;

    /// Begins the preparation of fetched reports under the task's
    /// aggregation function.
    fn initialize_reports(
        &self,
        is_leader: bool,
        task_config: &DapTaskConfig,
        agg_param: &Vec<u8>,
        reports: Vec<EarlyReportStateFetched>,
    ) -> Result<Vec<EarlyReportStateInitialized>, DapError>;

    /// Fetches the stored state of consumed reports. Unless an aggregator
    /// says otherwise it has no storage: the fetching succeeds, with one
    /// fetched report per consumed one in the same order; a new report is
    /// ready, a rejected one stays rejected, and one that should be in
    /// storage is dropped.
    fn fetch_stored_reports(
        &self,
        task_id: &TaskId,
        reports: Vec<EarlyReportStateConsumed>,
    ) -> (r: Result<Vec<EarlyReportStateFetched>, DapError>)
        default_ensures
            r matches Ok(fetched) && fetched@.len() == reports@.len() && forall|i: int|
                0 <= i < fetched@.len() ==> fetched@[i] == fetched_without_storage(reports@[i]),
    {
        Ok(fetch_stored_reports(reports))
    }

    /// Marks stored reports as rejected. Doing so twice leaves storage as
    /// doing so once. Unless an aggregator says otherwise it has no
    /// storage: nothing is done, and that succeeds.
    fn mark_stored_rejected(
        &self,
        task_id: &TaskId,
        reports: Vec<(ReportId, TransitionFailure)>,
    ) -> (r: Result<(), DapError>)
        default_ensures
            r == Ok::<(), DapError>(()),
    {
        Ok(())
    }
}

} // verus!
