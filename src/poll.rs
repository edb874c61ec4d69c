use vstd::prelude::*;

use crate::error::BridgeError;

verus! {

/// Number of status samples taken before an operation is given up.
pub const POLL_ATTEMPTS: u32 = 100;

/// Pause between two status samples, in milliseconds.
pub const POLL_INTERVAL_MS: u64 = 10;

/// Completion status of a native asynchronous operation.
#[derive(Debug, Clone, Copy, PartialEq, Eq)]
pub enum AsyncStatus {
    Started,
    Completed,
    Canceled,
    Error,
}

/// How polling an operation ended.
#[derive(Debug, Clone, Copy, PartialEq, Eq)]
pub enum PollEnd {
    /// The operation completed: its results may be fetched.
    Completed,
    /// The operation reported an error state.
    Failed,
    /// The sample budget ran out first.
    TimedOut,
}

/// Counts the status samples of one operation and decides, after each, whether
/// polling ends.
///
/// The caller samples the status, hands it to `observe`, and waits
/// `POLL_INTERVAL_MS` before the next sample while `observe` returns `None`.
pub struct Poller {
    samples: u32,
}

impl View for Poller {
    type V = nat;

    closed spec fn view(&self) -> nat {
        self.samples as nat
    }
}

impl Poller {
    pub closed spec fn wf(&self) -> bool {
        self.samples <= POLL_ATTEMPTS
    }

    pub fn new() -> (p: Poller)
        ensures
            p.wf(),
            p@ == 0,
    {
        Poller { samples: 0 }
    }

    /// Number of samples observed so far.
    pub fn samples(&self) -> (r: u32)
        ensures
            r == self@,
    {
        self.samples
    }

    /// Records one status sample and says whether polling has ended.
    pub fn observe(&mut self, status: AsyncStatus) -> (r: Option<PollEnd>)
        requires
            old(self).wf(),
        ensures
            final(self).wf(),
            old(self)@ < POLL_ATTEMPTS ==> final(self)@ == old(self)@ + 1,
            old(self)@ == POLL_ATTEMPTS ==> final(self)@ == old(self)@,
            status == AsyncStatus::Completed ==> r == Some(PollEnd::Completed),
            status == AsyncStatus::Error ==> r == Some(PollEnd::Failed),
            status != AsyncStatus::Completed && status != AsyncStatus::Error ==> r == (if final(self)@ >= POLL_ATTEMPTS {
                Some(PollEnd::TimedOut)
            } else {
                None::<PollEnd>
            }),
    {
        if self.samples < POLL_ATTEMPTS {
            self.samples = self.samples + 1;
        }
        match status {
            AsyncStatus::Completed => Some(PollEnd::Completed),
            AsyncStatus::Error => Some(PollEnd::Failed),
            _ => if self.samples >= POLL_ATTEMPTS {
                Some(PollEnd::TimedOut)
            } else {
                None
            },
        }
    }
}

/// What an operation yields once polling has ended: its results when it
/// completed (a failure to fetch them is a native failure), else the reason it
/// did not.
pub open spec fn settled<T>(end: PollEnd, results: Result<T, String>) -> Result<T, BridgeError> {
    match end {
        PollEnd::Completed => match results {
            Ok(v) => Ok(v),
            Err(m) => Err(BridgeError::NativeFailure(m)),
        },
        PollEnd::Failed => Err(BridgeError::AsyncFailed),
        PollEnd::TimedOut => Err(BridgeError::Timeout),
    }
}

/// The result of a polled operation, as `settled` states it. `results` is
/// only read when the operation completed.
pub fn settle<T>(end: PollEnd, results: Result<T, String>) -> (r: Result<T, BridgeError>)
    ensures
        r == settled(end, results),
{
    match end {
        PollEnd::Completed => match results {
            Ok(v) => Ok(v),
            Err(m) => Err(BridgeError::NativeFailure(m)),
        },
        PollEnd::Failed => Err(BridgeError::AsyncFailed),
        PollEnd::TimedOut => Err(BridgeError::Timeout),
    }
}

} // verus!
