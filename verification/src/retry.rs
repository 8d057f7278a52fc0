use vstd::prelude::*;

use crate::outcome::AttemptEvent;
use crate::outcome::CheckStatus;

verus! {

/// The status the retry policy settles on when the attempts return the
/// given events, with at most `max_attempts` attempts: the first
/// well-formed response wins immediately; once `max_attempts` transport
/// failures have occurred, the last error message is surfaced.
pub open spec fn retry_status(events: Seq<AttemptEvent>, max_attempts: nat) -> CheckStatus
    recommends
        1 <= max_attempts <= events.len(),
    decreases max_attempts,
{
    match events[0] {
        AttemptEvent::Response(code) => CheckStatus::Success(code),
        AttemptEvent::TransportFailure(msg) => if max_attempts <= 1 {
            CheckStatus::Failure(msg)
        } else {
            retry_status(events.drop_first(), (max_attempts - 1) as nat)
        },
    }
}

/// How many attempts the retry policy performs on the given events
/// before it settles, with at most `max_attempts` attempts.
pub open spec fn retry_attempts(events: Seq<AttemptEvent>, max_attempts: nat) -> nat
    recommends
        1 <= max_attempts <= events.len(),
    decreases max_attempts,
{
    match events[0] {
        AttemptEvent::Response(_) => 1,
        AttemptEvent::TransportFailure(_) => if max_attempts <= 1 {
            1nat
        } else {
            1 + retry_attempts(events.drop_first(), (max_attempts - 1) as nat)
        },
    }
}

/// The delay the retry policy is forced to spend sleeping: a fixed
/// 100 ms pause follows every transport failure, so every attempt but a
/// final successful one contributes 100 ms.
pub open spec fn retry_forced_delay_ms(events: Seq<AttemptEvent>, max_attempts: nat) -> nat
    recommends
        1 <= max_attempts <= events.len(),
{
    if retry_status(events, max_attempts) is Success {
        100 * ((retry_attempts(events, max_attempts) - 1) as nat)
    } else {
        100 * retry_attempts(events, max_attempts)
    }
}

/// Unfolds the retry policy up to the first event that settles it: if
/// the first `i` events are transport failures, the policy's verdict is
/// decided by event `i` alone (a response there succeeds after `i + 1`
/// attempts; a failure there, when it is the last permitted attempt,
/// exhausts the policy).
proof fn lemma_retry_unfold(events: Seq<AttemptEvent>, max_attempts: nat, i: nat)
    requires
        i < max_attempts,
        max_attempts <= events.len(),
        forall|j: int| 0 <= j < i ==> events[j] is TransportFailure,
    ensures
        events[i as int] matches AttemptEvent::Response(code) ==> retry_status(
            events,
            max_attempts,
        ) == CheckStatus::Success(code) && retry_attempts(events, max_attempts) == i + 1,
        events[i as int] is TransportFailure && i + 1 == max_attempts ==> retry_attempts(
            events,
            max_attempts,
        ) == max_attempts,
        events[i as int] matches AttemptEvent::TransportFailure(msg) ==> (i + 1 == max_attempts
            ==> retry_status(events, max_attempts) == CheckStatus::Failure(msg)),
    decreases i,
{
    if i > 0 {
        assert(events[0] is TransportFailure);
        let rest = events.drop_first();
        assert(forall|j: int| 0 <= j < i - 1 ==> rest[j] is TransportFailure);
        lemma_retry_unfold(rest, (max_attempts - 1) as nat, (i - 1) as nat);
        assert(rest[i - 1] == events[i as int]);
    }
}

/// For every retry bound, a URL whose attempts all fail at the
/// transport level yields a `Failure` outcome carrying the last error
/// message, and the retry policy performs exactly `retries + 1`
/// attempts.
pub proof fn lemma_exhausted_attempts_fail(events: Seq<AttemptEvent>, retries: nat)
    requires
        events.len() == retries + 1,
        forall|j: int| 0 <= j < events.len() ==> events[j] is TransportFailure,
    ensures
        retry_status(events, retries + 1) is Failure,
        retry_attempts(events, retries + 1) == retries + 1,
        events[retries as int] matches AttemptEvent::TransportFailure(msg) ==> retry_status(
            events,
            retries + 1,
        ) == CheckStatus::Failure(msg),
{
    lemma_retry_unfold(events, retries + 1, retries);
    assert(events[retries as int] is TransportFailure);
}

/// A URL whose check gets a well-formed response on attempt `i + 1`
/// (for `i + 1 <= retries + 1`) makes the retry policy perform exactly
/// `i + 1` attempts and return `Success` with that response's code.
pub proof fn lemma_success_stops_retrying(events: Seq<AttemptEvent>, retries: nat, i: nat)
    requires
        events.len() == retries + 1,
        i < retries + 1,
        forall|j: int| 0 <= j < i ==> events[j] is TransportFailure,
        events[i as int] is Response,
    ensures
        retry_attempts(events, retries + 1) == i + 1,
        events[i as int] matches AttemptEvent::Response(code) ==> retry_status(
            events,
            retries + 1,
        ) == CheckStatus::Success(code),
        retry_status(events, retries + 1) is Success,
{
    lemma_retry_unfold(events, retries + 1, i);
}

/// A URL that fails every attempt forces the retry policy to sleep at
/// least 100 ms per configured retry (in fact 100 ms per attempt).
pub proof fn lemma_failure_delay_lower_bound(events: Seq<AttemptEvent>, retries: nat)
    requires
        events.len() == retries + 1,
        forall|j: int| 0 <= j < events.len() ==> events[j] is TransportFailure,
    ensures
        retry_forced_delay_ms(events, retries + 1) >= retries * 100,
{
    lemma_exhausted_attempts_fail(events, retries);
}

/// The retry policy never invents a status code: a settled `Success`
/// carries the code of one attempt's response event, so well-formed
/// events (codes in 100–599) settle to a well-formed status.
pub proof fn lemma_retry_status_wf(events: Seq<AttemptEvent>, max_attempts: nat)
    requires
        1 <= max_attempts <= events.len(),
        forall|j: int| 0 <= j < events.len() ==> (#[trigger] events[j]).wf(),
    ensures
        retry_status(events, max_attempts).wf(),
    decreases max_attempts,
{
    assert(events[0].wf());
    if events[0] is TransportFailure && max_attempts > 1 {
        let rest = events.drop_first();
        assert(forall|j: int| 0 <= j < rest.len() ==> (#[trigger] rest[j]).wf());
        lemma_retry_status_wf(rest, (max_attempts - 1) as nat);
    }
}

/// The retry policy as a step machine: the worker makes one HTTP
/// attempt at a time, reports what came back, and the machine decides
/// whether the check is settled or another attempt is owed. A fixed
/// 100 ms sleep follows every reported transport failure.
pub struct RetryMachine {
    /// How many re-attempts are permitted after the first failure.
    pub retries: u32,
    /// How many attempts have been reported so far.
    pub attempts_made: u64,
    /// The settled status, once the machine is complete.
    pub status: Option<CheckStatus>,
}

impl RetryMachine {
    /// The machine never exceeds `retries + 1` attempts and settles
    /// exactly when a response arrives or the attempts are exhausted.
    pub open spec fn wf(&self) -> bool {
        &&& self.status is None ==> self.attempts_made <= self.retries
        &&& self.status is Some ==> 1 <= self.attempts_made <= self.retries + 1
    }

    pub fn new(retries: u32) -> (r: RetryMachine)
        ensures
            r.wf(),
            r.retries == retries,
            r.attempts_made == 0,
            r.status is None,
    {
        RetryMachine { retries, attempts_made: 0, status: None }
    }

    pub fn is_complete(&self) -> (r: bool)
        ensures
            r == (self.status is Some),
    {
        match &self.status {
            Some(_) => true,
            None => false,
        }
    }

    /// Reports what one attempt produced. A response settles the check
    /// as `Success` at once; a transport failure on the last permitted
    /// attempt settles it as `Failure` with that message; an earlier
    /// transport failure leaves the machine waiting for another attempt.
    pub fn record_attempt(&mut self, event: AttemptEvent)
        requires
            old(self).wf(),
            old(self).status is None,
        ensures
            final(self).wf(),
            final(self).retries == old(self).retries,
            final(self).attempts_made == old(self).attempts_made + 1,
            event matches AttemptEvent::Response(code) ==> final(self).status == Some(
                CheckStatus::Success(code),
            ),
            event matches AttemptEvent::TransportFailure(msg)
                ==> (old(self).attempts_made == old(self).retries
                    ==> final(self).status == Some(CheckStatus::Failure(msg))),
            (event is TransportFailure && old(self).attempts_made < old(self).retries)
                ==> final(self).status is None,
            event.wf() ==> (final(self).status matches Some(st) ==> st.wf()),
    {
        self.attempts_made = self.attempts_made + 1;
        match event {
            AttemptEvent::Response(code) => {
                self.status = Some(CheckStatus::Success(code));
            },
            AttemptEvent::TransportFailure(msg) => {
                if self.attempts_made > self.retries as u64 {
                    self.status = Some(CheckStatus::Failure(msg));
                }
            },
        }
    }

    /// Hands out the settled status.
    pub fn into_status(self) -> (r: CheckStatus)
        requires
            self.status is Some,
        ensures
            Some(r) == self.status,
    {
        match self.status {
            Some(status) => status,
            None => vstd::pervasive::unreached(),
        }
    }
}

/// What one full run of the retry policy settled on.
pub struct RetryRun {
    pub status: CheckStatus,
    pub attempts: u64,
    pub forced_delay_ms: u64,
}

/// Replays the retry policy over a fixed list of attempt results, one
/// per permitted attempt: exactly what a worker does, with the HTTP
/// calls already resolved. Returns the settled status, the number of
/// attempts the policy consumed, and the sleep time it forced.
pub fn run_attempts(events: &Vec<AttemptEvent>, retries: u32) -> (r: RetryRun)
    requires
        events@.len() == retries + 1,
    ensures
        r.status == retry_status(events@, (retries + 1) as nat),
        r.attempts == retry_attempts(events@, (retries + 1) as nat),
        r.forced_delay_ms == retry_forced_delay_ms(events@, (retries + 1) as nat),
        (forall|j: int| 0 <= j < events@.len() ==> (#[trigger] events@[j]).wf()) ==> r.status.wf(),
{
    proof {
        if forall|j: int| 0 <= j < events@.len() ==> (#[trigger] events@[j]).wf() {
            lemma_retry_status_wf(events@, (retries + 1) as nat);
        }
    }
    let ghost max_attempts: nat = (retries + 1) as nat;
    let mut machine = RetryMachine::new(retries);
    while !machine.is_complete()
        invariant
            max_attempts == retries + 1,
            events@.len() == retries + 1,
            machine.wf(),
            machine.retries == retries,
            machine.status is None ==> forall|j: int|
                0 <= j < machine.attempts_made ==> events@[j] is TransportFailure,
            machine.status matches Some(st) ==> st == retry_status(events@, max_attempts)
                && machine.attempts_made == retry_attempts(events@, max_attempts),
        decreases retries + 1 - machine.attempts_made,
    {
        let ghost done_before: int = machine.attempts_made as int;
        let event = events[machine.attempts_made as usize].duplicate();
        machine.record_attempt(event);
        proof {
            lemma_retry_unfold(events@, max_attempts, done_before as nat);
            if machine.status is None {
                assert(forall|j: int|
                    0 <= j < machine.attempts_made ==> events@[j] is TransportFailure);
            }
        }
    }
    let attempts = machine.attempts_made;
    let status = machine.into_status();
    let failed_attempts: u64 = match &status {
        CheckStatus::Success(_) => attempts - 1,
        CheckStatus::Failure(_) => attempts,
    };
    let forced_delay_ms: u64 = failed_attempts * 100;
    RetryRun { status, attempts, forced_delay_ms }
}

} // verus!
