//! The retry-backed delivery queue: a bounded fire-and-forget mailbox
//! drained by a background consumer, and a retry-wrapped delivery path
//! that makes up to three attempts with a fixed delay between them. The
//! delay itself and the draining are performed by the host; the retry
//! decisions are taken here, by an explicit state machine.

use vstd::prelude::*;
use crate::envelope::WebSocketMessage;

verus! {

/// The number of delivery attempts the retry path makes in all.
pub const MAX_RETRIES: u32 = 3;

/// The fixed delay between two attempts, in milliseconds.
pub const RETRY_DELAY_MS: u64 = 1000;

/// The errors of the delivery queue.
#[derive(Debug, PartialEq)]
pub enum MessageError {
    /// The mailbox refused the envelope because it has been closed; the
    /// envelope is handed back.
    SendError(WebSocketMessage),
    /// Every delivery attempt failed and no retries are left.
    RetryExhausted,
}

/// The phases of the retry state machine.
#[derive(Debug, Clone, Copy, PartialEq, Eq, Structural)]
pub enum RetryPhase {
    /// No delivery has been asked for yet.
    Idle,
    /// Attempt number `attempt` (counted from 1) is being made.
    Attempting { attempt: u32 },
    /// Attempt number `attempt` failed; the inter-attempt delay runs.
    Retrying { attempt: u32 },
    /// An attempt succeeded.
    Succeeded,
    /// Every attempt failed and no retries are left.
    Exhausted,
}

/// The retry state machine: it decides, after each failed attempt,
/// whether to wait and try again or to give up, and accounts for the
/// attempts made and the delay waited.
#[derive(Debug, Clone, Copy, PartialEq, Eq, Structural)]
pub struct RetryMachine {
    pub phase: RetryPhase,
    /// Attempts made so far.
    pub attempts_made: u32,
    /// Total inter-attempt delay waited so far, in milliseconds.
    pub waited_ms: u64,
}

impl RetryMachine {
    /// The machine's bookkeeping is consistent with its phase.
    pub open spec fn inv(self) -> bool {
        match self.phase {
            RetryPhase::Idle => self.attempts_made == 0 && self.waited_ms == 0,
            RetryPhase::Attempting { attempt } => {
                &&& 1 <= attempt <= MAX_RETRIES
                &&& self.attempts_made == attempt - 1
                &&& self.waited_ms == (attempt - 1) as u64 * RETRY_DELAY_MS
            },
            RetryPhase::Retrying { attempt } => {
                &&& 1 <= attempt < MAX_RETRIES
                &&& self.attempts_made == attempt
                &&& self.waited_ms == (attempt - 1) as u64 * RETRY_DELAY_MS
            },
            RetryPhase::Succeeded => self.attempts_made <= MAX_RETRIES,
            RetryPhase::Exhausted => self.attempts_made == MAX_RETRIES && self.waited_ms == (
            MAX_RETRIES - 1) as u64 * RETRY_DELAY_MS,
        }
    }

    /// A machine that has decided nothing yet.
    pub fn new() -> (r: RetryMachine)
        ensures
            r.inv(),
            r.phase == RetryPhase::Idle,
    {
        RetryMachine { phase: RetryPhase::Idle, attempts_made: 0, waited_ms: 0 }
    }

    /// Begin the first attempt.
    pub fn start(&mut self)
        requires
            old(self).inv(),
            old(self).phase == RetryPhase::Idle,
        ensures
            final(self).inv(),
            final(self).phase == (RetryPhase::Attempting { attempt: 1 }),
            final(self).attempts_made == 0,
            final(self).waited_ms == 0,
    {
        self.phase = RetryPhase::Attempting { attempt: 1 };
    }

    /// Record the outcome of the running attempt: success ends the run;
    /// a failure waits and retries while attempts are left, and gives
    /// up after the last one.
    pub fn on_attempt(&mut self, succeeded: bool)
        requires
            old(self).inv(),
            old(self).phase is Attempting,
        ensures
            final(self).inv(),
            final(self).attempts_made == old(self).attempts_made + 1,
            final(self).waited_ms == old(self).waited_ms,
            ({
                let attempt = old(self).phase->Attempting_attempt;
                if succeeded {
                    final(self).phase == RetryPhase::Succeeded
                } else if attempt < MAX_RETRIES {
                    final(self).phase == (RetryPhase::Retrying { attempt })
                } else {
                    final(self).phase == RetryPhase::Exhausted
                }
            }),
    {
        match self.phase {
            RetryPhase::Attempting { attempt } => {
                self.attempts_made = attempt;
                if succeeded {
                    self.phase = RetryPhase::Succeeded;
                } else if attempt < MAX_RETRIES {
                    self.phase = RetryPhase::Retrying { attempt };
                } else {
                    self.phase = RetryPhase::Exhausted;
                }
            },
            _ => {
            },
        }
    }

    /// Record that the inter-attempt delay has been waited; the next
    /// attempt begins.
    pub fn on_delay_done(&mut self)
        requires
            old(self).inv(),
            old(self).phase is Retrying,
        ensures
            final(self).inv(),
            final(self).phase == (RetryPhase::Attempting {
                attempt: (old(self).phase->Retrying_attempt + 1) as u32,
            }),
            final(self).attempts_made == old(self).attempts_made,
            final(self).waited_ms == old(self).waited_ms + RETRY_DELAY_MS,
    {
        match self.phase {
            RetryPhase::Retrying { attempt } => {
                self.waited_ms = self.waited_ms + RETRY_DELAY_MS;
                self.phase = RetryPhase::Attempting { attempt: attempt + 1 };
            },
            _ => {
            },
        }
    }
}

/// Drive the retry machine against the given attempt outcomes. Against
/// a downstream that never accepts, the run fails after exactly
/// `MAX_RETRIES` attempts, with a total inter-attempt wait of
/// `(MAX_RETRIES - 1) * RETRY_DELAY_MS` milliseconds; a run succeeds
/// with the first accepted attempt and waits only for the failures
/// before it.
pub fn run_retry(outcomes: &Vec<bool>) -> (m: RetryMachine)
    requires
        outcomes@.len() >= MAX_RETRIES as int,
    ensures
        m.inv(),
        outcomes@[0] ==> m.phase == RetryPhase::Succeeded && m.attempts_made == 1
            && m.waited_ms == 0,
        !outcomes@[0] && outcomes@[1] ==> m.phase == RetryPhase::Succeeded && m.attempts_made
            == 2 && m.waited_ms == RETRY_DELAY_MS,
        !outcomes@[0] && !outcomes@[1] && outcomes@[2] ==> m.phase == RetryPhase::Succeeded
            && m.attempts_made == 3 && m.waited_ms == 2 * RETRY_DELAY_MS,
        !outcomes@[0] && !outcomes@[1] && !outcomes@[2] ==> m.phase == RetryPhase::Exhausted
            && m.attempts_made == MAX_RETRIES && m.waited_ms == 2 * RETRY_DELAY_MS,
{
    let mut m = RetryMachine::new();
    m.start();
    m.on_attempt(outcomes[0]);
    if outcomes[0] {
        return m;
    }
    m.on_delay_done();
    m.on_attempt(outcomes[1]);
    if outcomes[1] {
        return m;
    }
    m.on_delay_done();
    m.on_attempt(outcomes[2]);
    m
}

/// The value of the mailbox: whether it has been closed, its intake
/// bound, and the envelopes waiting for the consumer, oldest first.
pub ghost struct MailboxView {
    pub closed: bool,
    pub capacity: nat,
    pub pending: Seq<WebSocketMessage>,
}

/// The delivery queue: a mailbox of envelopes waiting for the
/// background consumer, plus the retry-wrapped delivery path. The
/// intake bound is what the host's channel enforces by making a
/// producer wait while the mailbox is full; the model records the
/// contents.
#[derive(Debug)]
pub struct MessageQueue {
    pending: Vec<WebSocketMessage>,
    capacity: usize,
    closed: bool,
}

impl View for MessageQueue {
    type V = MailboxView;

    closed spec fn view(&self) -> MailboxView {
        MailboxView {
            closed: self.closed,
            capacity: self.capacity as nat,
            pending: self.pending@,
        }
    }
}

impl MessageQueue {
    /// An open, empty mailbox with the standard intake bound of 1000
    /// envelopes.
    pub fn new() -> (r: MessageQueue)
        ensures
            !r@.closed,
            r@.capacity == 1000,
            r@.pending == Seq::<WebSocketMessage>::empty(),
    {
        let r = MessageQueue { pending: Vec::new(), capacity: 1000, closed: false };
        proof {
            assert(r@.pending =~= Seq::<WebSocketMessage>::empty());
        }
        r
    }

    /// Fire-and-forget delivery: hand the envelope to the mailbox. This
    /// path fails only if the mailbox has been closed, in which case
    /// the envelope is handed back.
    pub fn enqueue(&mut self, message: WebSocketMessage) -> (r: Result<(), MessageError>)
        ensures
            final(self)@.closed == old(self)@.closed,
            final(self)@.capacity == old(self)@.capacity,
            old(self)@.closed ==> (r matches Err(e) && e matches MessageError::SendError(m)
                && m == message && final(self)@ == old(self)@),
            !old(self)@.closed ==> r is Ok && final(self)@.pending == old(self)@.pending.push(
                message,
            ),
    {
        if self.closed {
            return Err(MessageError::SendError(message));
        }
        self.pending.push(message);
        Ok(())
    }

    /// Retry-wrapped delivery: attempt to hand the envelope to the
    /// mailbox up to `MAX_RETRIES` times, the host waiting
    /// `RETRY_DELAY_MS` milliseconds between attempts, and give up with
    /// `RetryExhausted` when every attempt failed. A closed mailbox
    /// refuses every attempt, so against it this path fails after
    /// exactly `MAX_RETRIES` attempts.
    pub fn process_message(&mut self, message: WebSocketMessage) -> (r: Result<(), MessageError>)
        ensures
            final(self)@.closed == old(self)@.closed,
            final(self)@.capacity == old(self)@.capacity,
            old(self)@.closed ==> (r matches Err(e) && e is RetryExhausted && final(self)@
                == old(self)@),
            !old(self)@.closed ==> r is Ok && final(self)@.pending == old(self)@.pending.push(
                message,
            ),
    {
        let mut machine = RetryMachine::new();
        machine.start();
        loop
            invariant
                self == old(self),
                machine.inv(),
                machine.phase is Attempting,
            decreases MAX_RETRIES - machine.attempts_made,
        {
            let accepted = !self.closed;
            machine.on_attempt(accepted);
            if accepted {
                self.pending.push(message);
                return Ok(());
            }
            match machine.phase {
                RetryPhase::Exhausted => {
                    return Err(MessageError::RetryExhausted);
                },
                _ => {
                    machine.on_delay_done();
                },
            }
        }
    }

    /// The number of envelopes waiting for the consumer.
    pub fn get_queue_size(&self) -> (r: usize)
        ensures
            r == self@.pending.len(),
    {
        self.pending.len()
    }

    /// Drop every waiting envelope.
    pub fn clear_queue(&mut self)
        ensures
            final(self)@.closed == old(self)@.closed,
            final(self)@.capacity == old(self)@.capacity,
            final(self)@.pending == Seq::<WebSocketMessage>::empty(),
    {
        self.pending.clear();
        proof {
            assert(self@.pending =~= Seq::<WebSocketMessage>::empty());
        }
    }

    /// The consumer side: take the oldest waiting envelope, if any.
    pub fn drain_next(&mut self) -> (r: Option<WebSocketMessage>)
        ensures
            final(self)@.closed == old(self)@.closed,
            final(self)@.capacity == old(self)@.capacity,
            old(self)@.pending.len() == 0 ==> r is None && final(self)@ == old(self)@,
            old(self)@.pending.len() > 0 ==> r == Some(old(self)@.pending.first())
                && final(self)@.pending == old(self)@.pending.drop_first(),
    {
        if self.pending.len() == 0 {
            return None;
        }
        let first = self.pending.remove(0);
        proof {
            assert(self@.pending =~= old(self)@.pending.drop_first());
        }
        Some(first)
    }

    /// Close the mailbox: every later delivery fails. This models the
    /// consumer going away at process shutdown.
    pub fn close(&mut self)
        ensures
            final(self)@.closed,
            final(self)@.capacity == old(self)@.capacity,
            final(self)@.pending == old(self)@.pending,
    {
        self.closed = true;
    }
}

} // verus!
