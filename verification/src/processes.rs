//! The two-phase, bounded-retry protocol for process-list queries.
//!
//! A native process-list call takes a requested capacity together with a
//! buffer of exactly that capacity, and reports through the same
//! out-parameter how many entries actually exist. When the actual count
//! exceeds the requested capacity the call fails with the
//! insufficient-size code, and the reported count says exactly how large a
//! buffer the next call needs — so at most one retry is ever required. A
//! driver-documented maximum caps every allocation and is also the retry
//! ceiling: a count beyond it is reported as an error, never as a silent
//! truncation.
//!
//! [`ProcessListFetch`] is that policy as a state machine. The caller
//! allocates the buffer the pending state asks for, makes the native call,
//! and feeds the reply back in; the machine decides whether the query is
//! complete or one resized retry is due. The resulting list always has
//! exactly the length the successful call reported: no entry beyond the
//! reported count, and no requested-but-unfilled slot, ever leaks out.

use vstd::prelude::*;

use crate::codes::{error_of_raw, NvmlError, NvmlReturnT};
use crate::nvidia::{NvmlProcessInfoT, MAX_PROCESS_COUNT};

verus! {

/// The mathematical state of a process-list retrieval.
pub enum FetchState {
    /// One more native call is due, with a buffer of exactly `capacity`
    /// entries. `retried` records whether a size-driven retry has already
    /// been spent.
    Pending { capacity: u32, retried: bool },
    /// The retrieval is over, with the list or the error it produced.
    Complete { result: Result<Seq<NvmlProcessInfoT>, NvmlError> },
}

/// The transition a native reply causes: `code` is the returned status,
/// `reported` the count the call wrote back, and `entries` the buffer
/// contents after the call.
///
/// On success the result is the first `reported` entries — never the
/// requested capacity's worth. On the insufficient-size code the one
/// retry is granted, sized to the reported count, unless it was already
/// spent or the reported count exceeds the driver maximum; then the
/// retrieval fails with the insufficient-size kind. Any other failure
/// code ends the retrieval with its mapped error. A completed retrieval
/// does not move again.
pub open spec fn fetch_step(
    state: FetchState,
    code: u32,
    reported: u32,
    entries: Seq<NvmlProcessInfoT>,
) -> FetchState {
    match state {
        FetchState::Pending { capacity, retried } => {
            if code == 0 {
                let kept = if reported as int <= entries.len() {
                    reported as int
                } else {
                    entries.len() as int
                };
                FetchState::Complete { result: Ok(entries.take(kept)) }
            } else if NvmlReturnT::spec_from_raw(code) is ErrorInsufficientSize {
                if !retried && reported <= MAX_PROCESS_COUNT as u32 {
                    FetchState::Pending { capacity: reported, retried: true }
                } else {
                    FetchState::Complete {
                        result: Err(NvmlError::NVMLERRORINSUFFICIENTSIZE),
                    }
                }
            } else {
                FetchState::Complete { result: Err(error_of_raw(code)) }
            }
        },
        FetchState::Complete { .. } => state,
    }
}

/// A process-list retrieval in progress, driven by native replies.
#[derive(Debug)]
pub enum ProcessListFetch {
    /// One more native call is due, with a buffer of exactly `capacity`
    /// entries.
    Pending { capacity: u32, retried: bool },
    /// The retrieval is over.
    Complete { result: Result<Vec<NvmlProcessInfoT>, NvmlError> },
}

impl View for ProcessListFetch {
    type V = FetchState;

    open spec fn view(&self) -> FetchState {
        match self {
            ProcessListFetch::Pending { capacity, retried } => FetchState::Pending {
                capacity: *capacity,
                retried: *retried,
            },
            ProcessListFetch::Complete { result } => FetchState::Complete {
                result: match result {
                    Ok(entries) => Ok(entries@),
                    Err(e) => Err(*e),
                },
            },
        }
    }
}

impl ProcessListFetch {
    /// Begins a retrieval that will first request `capacity` entries. The
    /// capacity never exceeds the driver-documented maximum, so no buffer
    /// larger than the maximum is ever asked for.
    pub fn start(capacity: u32) -> (fetch: ProcessListFetch)
        requires
            capacity <= MAX_PROCESS_COUNT as u32,
        ensures
            fetch@ == (FetchState::Pending { capacity, retried: false }),
    {
        ProcessListFetch::Pending { capacity, retried: false }
    }

    /// The capacity the next native call must be given a buffer for, or
    /// `None` when the retrieval is complete.
    pub fn request(&self) -> (capacity: Option<u32>)
        ensures
            capacity == match self@ {
                FetchState::Pending { capacity, .. } => Some(capacity),
                FetchState::Complete { .. } => None::<u32>,
            },
    {
        match self {
            ProcessListFetch::Pending { capacity, .. } => Some(*capacity),
            ProcessListFetch::Complete { .. } => None,
        }
    }

    /// Feeds the reply of one native call into the retrieval: the status
    /// code, the count written back, and the buffer contents. The buffer
    /// must be the one the pending state asked for — exactly `capacity`
    /// entries — and a successful call never reports more entries than the
    /// buffer holds.
    pub fn step(&mut self, code: u32, reported: u32, entries: Vec<NvmlProcessInfoT>)
        requires
            old(self)@ is Pending,
            entries@.len() == old(self)@->Pending_capacity as int,
            code == 0 ==> reported as int <= entries@.len(),
        ensures
            final(self)@ == fetch_step(old(self)@, code, reported, entries@),
    {
        let retried = match self {
            ProcessListFetch::Pending { retried, .. } => *retried,
            ProcessListFetch::Complete { .. } => {
                proof {
                    assert(false);
                }
                false
            },
        };
        let status = NvmlReturnT::from_raw(code);
        match status {
            NvmlReturnT::Success => {
                let mut kept = entries;
                kept.truncate(reported as usize);
                assert(kept@ =~= entries@.take(reported as int));
                *self = ProcessListFetch::Complete { result: Ok(kept) };
            },
            NvmlReturnT::ErrorInsufficientSize => {
                if !retried && reported <= MAX_PROCESS_COUNT as u32 {
                    *self = ProcessListFetch::Pending { capacity: reported, retried: true };
                } else {
                    *self = ProcessListFetch::Complete {
                        result: Err(NvmlError::NVMLERRORINSUFFICIENTSIZE),
                    };
                }
            },
            _ => {
                *self = ProcessListFetch::Complete { result: Err(NvmlError::from(status)) };
            },
        }
    }

    /// Takes the outcome of a completed retrieval.
    pub fn into_result(self) -> (outcome: Result<Vec<NvmlProcessInfoT>, NvmlError>)
        requires
            self@ is Complete,
        ensures
            self@->Complete_result == match outcome {
                Ok(entries) => Ok::<Seq<NvmlProcessInfoT>, NvmlError>(entries@),
                Err(e) => Err::<Seq<NvmlProcessInfoT>, NvmlError>(e),
            },
    {
        match self {
            ProcessListFetch::Complete { result } => result,
            ProcessListFetch::Pending { .. } => {
                proof {
                    assert(false);
                }
                Err(NvmlError::NVMLERRORUNKNOWN)
            },
        }
    }
}

/// Law: a native success that reports zero processes completes the
/// retrieval with an empty list — a success, not an error — whatever the
/// buffer held.
pub proof fn lemma_zero_processes_is_empty_success(
    state: FetchState,
    entries: Seq<NvmlProcessInfoT>,
)
    requires
        state is Pending,
    ensures
        fetch_step(state, 0, 0, entries) == (FetchState::Complete {
            result: Ok::<Seq<NvmlProcessInfoT>, NvmlError>(Seq::empty()),
        }),
{
    assert(entries.take(0) =~= Seq::<NvmlProcessInfoT>::empty());
}

/// Law: a native success completes the retrieval with exactly the first
/// `reported` entries of the buffer — never the requested capacity's
/// worth, and never a slot the call did not fill.
pub proof fn lemma_success_keeps_reported_count(
    state: FetchState,
    reported: u32,
    entries: Seq<NvmlProcessInfoT>,
)
    requires
        state is Pending,
        reported as int <= entries.len(),
    ensures
        fetch_step(state, 0, reported, entries) == (FetchState::Complete {
            result: Ok::<Seq<NvmlProcessInfoT>, NvmlError>(entries.take(reported as int)),
        }),
        fetch_step(state, 0, reported, entries)->Complete_result->Ok_0.len() == reported as int,
{
}

/// Law: when the first call comes back short with a reported count within
/// the driver maximum, exactly one retry occurs, sized to the reported
/// count; a success on that retry yields a list of exactly the reported
/// length.
pub proof fn lemma_one_retry_then_reported_length(
    capacity: u32,
    reported: u32,
    first: Seq<NvmlProcessInfoT>,
    second: Seq<NvmlProcessInfoT>,
)
    requires
        reported <= MAX_PROCESS_COUNT as u32,
        second.len() == reported as int,
    ensures
        ({
            let short = NvmlReturnT::ErrorInsufficientSize.as_raw_spec();
            let after_first = fetch_step(
                FetchState::Pending { capacity, retried: false },
                short,
                reported,
                first,
            );
            &&& after_first == (FetchState::Pending { capacity: reported, retried: true })
            &&& fetch_step(after_first, 0, reported, second) == (FetchState::Complete {
                result: Ok::<Seq<NvmlProcessInfoT>, NvmlError>(second),
            })
        }),
{
    let short = NvmlReturnT::ErrorInsufficientSize.as_raw_spec();
    let after_first = fetch_step(
        FetchState::Pending { capacity, retried: false },
        short,
        reported,
        first,
    );
    assert(second.take(reported as int) =~= second);
    assert(fetch_step(after_first, 0, reported, second) == (FetchState::Complete {
        result: Ok::<Seq<NvmlProcessInfoT>, NvmlError>(second),
    }));
}

/// Law: the size-driven retry happens at most once. A retrieval whose
/// retry is already spent, or whose reported count exceeds the driver
/// maximum, completes with the insufficient-size error instead of asking
/// for another buffer.
pub proof fn lemma_no_second_retry(
    capacity: u32,
    retried: bool,
    reported: u32,
    entries: Seq<NvmlProcessInfoT>,
)
    requires
        retried || reported > MAX_PROCESS_COUNT as u32,
    ensures
        fetch_step(
            FetchState::Pending { capacity, retried },
            NvmlReturnT::ErrorInsufficientSize.as_raw_spec(),
            reported,
            entries,
        ) == (FetchState::Complete {
            result: Err::<Seq<NvmlProcessInfoT>, NvmlError>(NvmlError::NVMLERRORINSUFFICIENTSIZE),
        }),
{
}

} // verus!
