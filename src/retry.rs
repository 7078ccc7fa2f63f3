//! Bounded retry of opening a device that another process holds exclusively:
//! five attempts at most, 200 ms apart.
use vstd::prelude::*;

use crate::error::DriverError;

verus! {

pub const OPEN_ATTEMPTS: u32 = 5;

pub const OPEN_RETRY_DELAY_MS: u64 = 200;

/// What one attempt to open the device gave.
#[derive(Debug, Clone, Copy, PartialEq, Eq)]
pub enum OpenOutcome {
    Opened,
    /// The platform reports the device as held exclusively by another process.
    ExclusiveAccess,
    /// Any other failure; not retried.
    Failed,
}

/// What the caller does next.
#[derive(Debug, Clone, Copy, PartialEq, Eq)]
pub enum OpenAction {
    /// The device is open.
    Done,
    /// Sleep this many milliseconds, then attempt again.
    RetryAfter(u64),
    /// Stop and hand the last attempt's error to the caller.
    GiveUp,
}

pub open spec fn open_step(attempts: u32, outcome: OpenOutcome) -> (u32, OpenAction) {
    let made = (attempts + 1) as u32;
    match outcome {
        OpenOutcome::Opened => (made, OpenAction::Done),
        OpenOutcome::Failed => (made, OpenAction::GiveUp),
        OpenOutcome::ExclusiveAccess => if made < OPEN_ATTEMPTS {
            (made, OpenAction::RetryAfter(OPEN_RETRY_DELAY_MS))
        } else {
            (made, OpenAction::GiveUp)
        },
    }
}

/// Attempts made and actions taken after the given outcomes, from no attempt.
pub open spec fn open_run(outcomes: Seq<OpenOutcome>) -> (u32, Seq<OpenAction>)
    decreases outcomes.len(),
{
    if outcomes.len() == 0 {
        (0, Seq::empty())
    } else {
        let (attempts, actions) = open_run(outcomes.drop_last());
        let (made, action) = open_step(attempts, outcomes.last());
        (made, actions.push(action))
    }
}

/// Milliseconds slept over a sequence of actions.
pub open spec fn waited_ms(actions: Seq<OpenAction>) -> int
    decreases actions.len(),
{
    if actions.len() == 0 {
        0
    } else {
        waited_ms(actions.drop_last()) + match actions.last() {
            OpenAction::RetryAfter(ms) => ms as int,
            _ => 0,
        }
    }
}

/// Retry state of one open operation.
pub struct OpenRetry {
    pub attempts: u32,
}

impl OpenRetry {
    pub fn new() -> (r: Self)
        ensures
            r.attempts == 0,
    {
        OpenRetry { attempts: 0 }
    }

    /// Whether another attempt is allowed.
    pub fn may_attempt(&self) -> (r: bool)
        ensures
            r == (self.attempts < OPEN_ATTEMPTS),
    {
        self.attempts < OPEN_ATTEMPTS
    }

    /// Records the outcome of one attempt and decides what follows. Only a
    /// transient exclusive-access failure is retried, and only while fewer
    /// than five attempts have been made.
    pub fn record(&mut self, outcome: OpenOutcome) -> (r: OpenAction)
        requires
            old(self).attempts < OPEN_ATTEMPTS,
        ensures
            (final(self).attempts, r) == open_step(old(self).attempts, outcome),
            r is RetryAfter ==> final(self).attempts < OPEN_ATTEMPTS,
    {
        self.attempts = self.attempts + 1;
        match outcome {
            OpenOutcome::Opened => OpenAction::Done,
            OpenOutcome::Failed => OpenAction::GiveUp,
            OpenOutcome::ExclusiveAccess => if self.attempts < OPEN_ATTEMPTS {
                OpenAction::RetryAfter(OPEN_RETRY_DELAY_MS)
            } else {
                OpenAction::GiveUp
            },
        }
    }
}

/// After `k` exclusive-access failures in a row (`k` below 5) and then an
/// outcome `last`, the opener has made `k + 1` attempts, retried after each
/// failure, slept `200 * k` ms in all, and ends as `last` says: open, or given
/// up on another failure. Five failures in a row end in giving up at the
/// fifth attempt, and no sixth is allowed.
pub proof fn lemma_open_retry_schedule(k: int, last: OpenOutcome)
    requires
        0 <= k < OPEN_ATTEMPTS,
    ensures
        ({
            let outcomes = Seq::new(k as nat, |i: int| OpenOutcome::ExclusiveAccess).push(last);
            let (attempts, actions) = open_run(outcomes);
            &&& attempts == k + 1
            &&& actions.len() == k + 1
            &&& forall|i: int| 0 <= i < k ==> actions[i] == OpenAction::RetryAfter(OPEN_RETRY_DELAY_MS)
            &&& waited_ms(actions.take(k)) == OPEN_RETRY_DELAY_MS * k
            &&& (last == OpenOutcome::Opened ==> actions[k] == OpenAction::Done)
            &&& (last == OpenOutcome::Failed ==> actions[k] == OpenAction::GiveUp)
            &&& (last == OpenOutcome::ExclusiveAccess ==> (actions[k] == OpenAction::GiveUp
                <==> k + 1 == OPEN_ATTEMPTS))
            &&& (actions[k] == OpenAction::GiveUp && last == OpenOutcome::ExclusiveAccess
                ==> attempts >= OPEN_ATTEMPTS)
        }),
    decreases k,
{
    let outcomes = Seq::new(k as nat, |i: int| OpenOutcome::ExclusiveAccess).push(last);
    lemma_exclusive_prefix(k);
    let prefix = Seq::new(k as nat, |i: int| OpenOutcome::ExclusiveAccess);
    assert(outcomes.drop_last() =~= prefix);
    let actions = open_run(outcomes).1;
    assert(actions.take(k) =~= open_run(prefix).1);
}

/// `k` exclusive-access failures in a row from the start: `k` attempts, a
/// retry after each, `200 * k` ms slept.
proof fn lemma_exclusive_prefix(k: int)
    requires
        0 <= k < OPEN_ATTEMPTS,
    ensures
        ({
            let (attempts, actions) = open_run(Seq::new(k as nat, |i: int| OpenOutcome::ExclusiveAccess));
            &&& attempts == k
            &&& actions.len() == k
            &&& forall|i: int| 0 <= i < k ==> actions[i] == OpenAction::RetryAfter(OPEN_RETRY_DELAY_MS)
            &&& waited_ms(actions) == OPEN_RETRY_DELAY_MS * k
        }),
    decreases k,
{
    if k > 0 {
        let s = Seq::new(k as nat, |i: int| OpenOutcome::ExclusiveAccess);
        let p = Seq::new((k - 1) as nat, |i: int| OpenOutcome::ExclusiveAccess);
        assert(s.drop_last() =~= p);
        lemma_exclusive_prefix(k - 1);
        let actions = open_run(s).1;
        assert(actions.drop_last() =~= open_run(p).1);
    }
}

/// errno of a device node that another process holds open exclusively.
pub const EBUSY: i32 = 16;

/// How an attempt to open a device node steers the retry policy: no error
/// opens, `EBUSY` is retried, any other errno fails.
pub fn open_outcome_of_errno(errno: Option<i32>) -> (r: OpenOutcome)
    ensures
        r == (match errno {
            None => OpenOutcome::Opened,
            Some(e) => if e == EBUSY {
                OpenOutcome::ExclusiveAccess
            } else {
                OpenOutcome::Failed
            },
        }),
{
    match errno {
        None => OpenOutcome::Opened,
        Some(e) => if e == EBUSY {
            OpenOutcome::ExclusiveAccess
        } else {
            OpenOutcome::Failed
        },
    }
}

/// The error of an open operation that gave up after `last`: still held
/// exclusively after every retry is `Busy` with the platform's detail; any
/// other failure means the device is not there to be opened.
pub fn give_up_error(last: OpenOutcome, detail: String, vendor_id: u16, product_id: u16) -> (r: DriverError)
    ensures
        last == OpenOutcome::ExclusiveAccess ==> r == DriverError::Busy(detail),
        last != OpenOutcome::ExclusiveAccess ==> r == DriverError::DeviceNotFound(vendor_id, product_id),
{
    match last {
        OpenOutcome::ExclusiveAccess => DriverError::Busy(detail),
        _ => DriverError::DeviceNotFound(vendor_id, product_id),
    }
}

} // verus!
