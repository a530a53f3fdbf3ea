use vstd::prelude::*;

verus! {

/// Number of faults that a node tolerates; one more halts it.
pub const ERROR_THRESHOLD: u8 = 3;

/// The fault count after one more fault, saturating at the counter's width.
pub open spec fn count_after_fault(count: u8) -> u8 {
    if count < u8::MAX {
        (count + 1) as u8
    } else {
        u8::MAX
    }
}

/// The fault count after `n` faults on a fresh counter.
pub open spec fn count_after_faults(n: nat) -> u8
    decreases n,
{
    if n == 0 {
        0
    } else {
        count_after_fault(count_after_faults((n - 1) as nat))
    }
}

/// Whether a node with this many faults must halt.
pub open spec fn must_halt(count: u8) -> bool {
    count > ERROR_THRESHOLD
}

/// Cumulative count of hardware and command faults of a node. It is never
/// reset: once more than `ERROR_THRESHOLD` faults were seen, the node halts.
pub struct FaultBreaker {
    error_count: u8,
}

impl View for FaultBreaker {
    type V = u8;

    closed spec fn view(&self) -> u8 {
        self.error_count
    }
}

impl FaultBreaker {
    pub fn new() -> (r: FaultBreaker)
        ensures
            r@ == 0,
    {
        FaultBreaker { error_count: 0 }
    }

    pub fn error_count(&self) -> (r: u8)
        ensures
            r == self@,
    {
        self.error_count
    }

    /// Whether the faults seen so far call for a halt.
    pub fn is_tripped(&self) -> (r: bool)
        ensures
            r == must_halt(self@),
    {
        self.error_count > ERROR_THRESHOLD
    }

    /// Counts one fault and tells whether the node must now halt.
    pub fn record_fault(&mut self) -> (halt: bool)
        ensures
            final(self)@ == count_after_fault(old(self)@),
            halt == must_halt(final(self)@),
    {
        self.error_count = self.error_count.saturating_add(1);
        self.error_count > ERROR_THRESHOLD
    }

    /// Counts the fault that `result` carries, if any, and tells whether the
    /// node must now halt.
    pub fn handle_result<E>(&mut self, result: &Result<(), E>) -> (halt: bool)
        ensures
            result is Ok ==> final(self)@ == old(self)@,
            result is Err ==> final(self)@ == count_after_fault(old(self)@),
            halt == (result is Err && must_halt(final(self)@)),
    {
        match result {
            Ok(()) => false,
            Err(_) => self.record_fault(),
        }
    }
}

proof fn lemma_count_after_faults(n: nat)
    ensures
        n <= 255 ==> count_after_faults(n) == n,
        n > 255 ==> count_after_faults(n) == 255,
    decreases n,
{
    if n > 0 {
        lemma_count_after_faults((n - 1) as nat);
    }
}

/// A fresh breaker halts the node exactly from the fourth fault on: after
/// three faults it has not tripped, after four or more it has.
pub proof fn lemma_breaker_trips_after_threshold(n: nat)
    ensures
        must_halt(count_after_faults(n)) <==> n > 3,
{
    lemma_count_after_faults(n);
}

} // verus!
