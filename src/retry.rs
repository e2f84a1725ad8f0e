//! Decisions of the retrying adapters: the shared writer, the retrying iterator and
//! the retrying open. Taking a lock, backing off and sleeping are the caller's.
use crate::reader::ReadResult;
use vstd::prelude::*;

verus! {

/// What a writer shared by several threads does next.
#[derive(Clone, Copy, Debug, PartialEq, Eq, Structural)]
pub enum RetryStep {
    /// The writer was taken: write the record.
    Write,
    /// The back-off budget is spent: give up with `WriteError::Wait`.
    Wait,
    /// Back off, then try to take the writer again.
    BackOff,
}

/// One decision of a shared write: write once the writer is `acquired`; otherwise
/// give up once the back-off budget is spent, or back off and try again.
pub fn retry_write_step(acquired: bool, budget_spent: bool) -> (r: RetryStep)
    ensures
        acquired ==> r == RetryStep::Write,
        !acquired && budget_spent ==> r == RetryStep::Wait,
        !acquired && !budget_spent ==> r == RetryStep::BackOff,
{
    if acquired {
        RetryStep::Write
    } else if budget_spent {
        RetryStep::Wait
    } else {
        RetryStep::BackOff
    }
}

/// One decision of a retrying iterator: read again only when the last item was
/// `Nothing` and the back-off budget is not spent; otherwise hand the item out.
pub fn retry_read_again<'a>(item: &Option<ReadResult<'a>>, budget_spent: bool) -> (r: bool)
    ensures
        r == ((*item matches Some(ReadResult::Nothing)) && !budget_spent),
{
    match item {
        Some(ReadResult::Nothing) => !budget_spent,
        _ => false,
    }
}

/// The pause between two tries to open a channel, out of `duration_ms` for `tries` tries.
pub fn open_retry_pause(duration_ms: u64, tries: u64) -> (r: u64)
    requires
        tries > 0,
    ensures
        r == duration_ms / tries,
{
    duration_ms / tries
}

/// One decision of a retrying open: after a try that `failed`, with `tries_left`
/// more allowed, try again (`Some` of the tries then left) or stop (`None`).
pub fn open_retry_next(failed: bool, tries_left: u64) -> (r: Option<u64>)
    ensures
        r == if failed && tries_left > 0 {
            Some((tries_left - 1) as u64)
        } else {
            None::<u64>
        },
{
    if failed && tries_left > 0 {
        Some(tries_left - 1)
    } else {
        None
    }
}

} // verus!
