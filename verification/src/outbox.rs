//! The transactional outbox each service publishes from: an event is marked
//! published only once the stream accepted it.
use vstd::prelude::*;

verus! {

/// What publishing one outbox event does to its row.
#[derive(Debug, Clone, Copy, PartialEq, Eq, Structural)]
pub enum OutboxUpdate {
    /// The stream accepted it: `published`.
    Published,
    /// The stream failed or timed out: it stays `pending`, one more retry
    /// is counted and it is scheduled again in 30 seconds.
    Retry,
    /// Its envelope cannot be read: `failed`, for repair.
    Failed,
}

/// Seconds before a failed publish is tried again.
pub const RETRY_DELAY_SECS: u32 = 30;

pub fn outbox_update(envelope_readable: bool, sent: bool) -> (r: OutboxUpdate)
    ensures
        !envelope_readable ==> r == OutboxUpdate::Failed,
        envelope_readable && sent ==> r == OutboxUpdate::Published,
        envelope_readable && !sent ==> r == OutboxUpdate::Retry,
{
    if !envelope_readable {
        OutboxUpdate::Failed
    } else if sent {
        OutboxUpdate::Published
    } else {
        OutboxUpdate::Retry
    }
}

/// A receipt is never lost: an event the stream did not accept is never
/// marked published.
pub proof fn lemma_unsent_is_not_published(readable: bool)
    ensures
        (if !readable {
            OutboxUpdate::Failed
        } else {
            OutboxUpdate::Retry
        }) != OutboxUpdate::Published,
{
}

} // verus!
