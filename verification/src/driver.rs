//! The delivery discipline for one command: a fixed budget of three
//! write/read-back round-trips, a tolerant reading of the status byte the
//! device sends back, and a per-attempt classification that is reported,
//! never escalated. The device is known to silently drop an occasional
//! write, so every attempt of the budget is made unconditionally.
//!
//! The application performs the actual ioctl exchange for each attempt and
//! records its outcome here; the session decides how many attempts are due
//! and what each outcome means.

use vstd::prelude::*;

verus! {

/// How many write/read-back round-trips are made for every command.
pub const ATTEMPT_BUDGET: usize = 3;

/// Largest status byte the device may answer with that still counts as an
/// acknowledgement (idle/busy/transitional states).
pub const MAX_ACK_STATUS: u8 = 3;

/// What one write/read-back round-trip with the device came to.
#[derive(Clone, Copy, Debug)]
pub enum ExchangeOutcome {
    /// The set-feature (write) call failed; no read-back was attempted.
    WriteFailed,
    /// The write went through but the get-feature (read-back) call failed.
    ReadFailed,
    /// Both calls went through; the device wrote this status byte.
    Status(u8),
}

/// What one attempt means for the caller.
#[derive(Clone, Copy, Debug)]
pub enum AttemptResult {
    /// The device acknowledged the command (status 0 through 3).
    Acknowledged(u8),
    /// The device answered, but with a status that marks the command as
    /// failed or unrecognized. Diagnostic only, never fatal.
    Rejected(u8),
    /// A system call failed during the exchange. Diagnostic only.
    Transport,
}

/// The reading of one exchange outcome: a returned status of at most 3 is
/// an acknowledgement, any other status is a rejection, and a failed system
/// call on either side of the round-trip is a transport problem.
pub open spec fn classify_spec(o: ExchangeOutcome) -> AttemptResult {
    match o {
        ExchangeOutcome::WriteFailed => AttemptResult::Transport,
        ExchangeOutcome::ReadFailed => AttemptResult::Transport,
        ExchangeOutcome::Status(s) => if s <= MAX_ACK_STATUS {
            AttemptResult::Acknowledged(s)
        } else {
            AttemptResult::Rejected(s)
        },
    }
}

/// Classifies the outcome of one round-trip.
pub fn classify(o: &ExchangeOutcome) -> (r: AttemptResult)
    ensures
        r == classify_spec(*o),
{
    match o {
        ExchangeOutcome::WriteFailed => AttemptResult::Transport,
        ExchangeOutcome::ReadFailed => AttemptResult::Transport,
        ExchangeOutcome::Status(s) => if *s <= MAX_ACK_STATUS {
            AttemptResult::Acknowledged(*s)
        } else {
            AttemptResult::Rejected(*s)
        },
    }
}

/// Whether some attempt of the sequence was acknowledged by the device.
pub open spec fn any_acknowledged_spec(s: Seq<AttemptResult>) -> bool {
    exists|i: int| 0 <= i < s.len() && s[i] is Acknowledged
}

/// How many attempts of the sequence deserve a diagnostic line: every one
/// that was not acknowledged.
pub open spec fn warning_count_spec(s: Seq<AttemptResult>) -> nat
    decreases s.len(),
{
    if s.len() == 0 {
        0
    } else {
        warning_count_spec(s.drop_last()) + if s.last() is Acknowledged {
            0nat
        } else {
            1nat
        }
    }
}

/// The delivery of one command: records the classified outcome of each
/// round-trip, up to the fixed budget of three. The budget does not shrink
/// on an early acknowledgement: every attempt is made regardless, as an
/// extra confirmation against the device's unreliable acknowledgement.
pub struct CommandSession {
    /// The classified outcomes of the attempts made so far, in order.
    pub results: Vec<AttemptResult>,
}

impl CommandSession {
    /// Starts the delivery of one command: no attempt made yet.
    pub fn new() -> (s: CommandSession)
        ensures
            s.results@.len() == 0,
    {
        CommandSession { results: Vec::new() }
    }

    /// Whether another round-trip is due: exactly the first three are.
    pub fn needs_attempt(&self) -> (r: bool)
        ensures
            r == (self.results@.len() < ATTEMPT_BUDGET),
    {
        self.results.len() < ATTEMPT_BUDGET
    }

    /// Records the outcome of one round-trip, classified.
    pub fn record(&mut self, o: ExchangeOutcome)
        requires
            old(self).results@.len() < ATTEMPT_BUDGET,
        ensures
            final(self).results@ == old(self).results@.push(classify_spec(o)),
    {
        let r = classify(&o);
        self.results.push(r);
    }

    /// Whether the device acknowledged any attempt so far.
    pub fn acknowledged(&self) -> (r: bool)
        ensures
            r == any_acknowledged_spec(self.results@),
    {
        let mut i: usize = 0;
        while i < self.results.len()
            invariant
                i <= self.results@.len(),
                forall|j: int| 0 <= j < i ==> !(self.results@[j] is Acknowledged),
            decreases self.results@.len() - i,
        {
            if let AttemptResult::Acknowledged(_) = self.results[i] {
                return true;
            }
            i = i + 1;
        }
        false
    }

    /// How many of the attempts so far deserve a diagnostic line.
    pub fn warning_count(&self) -> (n: usize)
        ensures
            n == warning_count_spec(self.results@),
    {
        let mut i: usize = 0;
        let mut n: usize = 0;
        while i < self.results.len()
            invariant
                i <= self.results@.len(),
                n == warning_count_spec(self.results@.take(i as int)),
                n <= i,
            decreases self.results@.len() - i,
        {
            if let AttemptResult::Acknowledged(_) = self.results[i] {
            } else {
                n = n + 1;
            }
            proof {
                assert(self.results@.take(i + 1).drop_last() =~= self.results@.take(i as int));
                assert(self.results@.take(i + 1).last() == self.results@[i as int]);
            }
            i = i + 1;
        }
        proof {
            assert(self.results@.take(self.results@.len() as int) =~= self.results@);
        }
        n
    }
}

} // verus!
