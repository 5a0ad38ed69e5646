//! The decode-retry policy.
//!
//! Decode errors on single packets are not fatal: the right action is to
//! fetch the next packet and try again. But more than
//! `MAX_DECODE_ERRORS` consecutive corrupt packets abort the stream, as
//! does any other kind of failure. This module states the policy as a
//! function over a finite record of packet attempts and proves its two
//! defining laws; the decode loops of the decoder maintain a ghost record
//! of their attempts and tie their exits to this model.

use vstd::prelude::*;

verus! {

/// More consecutive decode errors than this abort the stream.
pub const MAX_DECODE_ERRORS: usize = 3;

/// What one packet attempt (fetch one packet, decode it) came to.
#[derive(Clone, Copy, Debug, PartialEq, Eq, Structural)]
pub enum Attempt {
    /// The packet decoded into audio.
    Success,
    /// The packet was malformed; only this kind of failure is retried.
    Corrupt,
    /// Any other failure: fetching the packet failed, or decoding failed
    /// in a way that retrying cannot mend.
    Fatal,
}

/// What the retry loop comes to over a record of attempts.
#[derive(Clone, Copy, Debug, PartialEq, Eq, Structural)]
pub enum RetryOutcome {
    /// A packet was delivered; the stream continues.
    Delivers,
    /// The loop gave up; the stream ends.
    Ends,
    /// The record ran out before the loop settled.
    Undecided,
}

/// The retry policy over a record of attempts, having already seen
/// `errors` consecutive corrupt packets: deliver on the first success,
/// end on a fatal failure or once the corrupt count passes
/// `MAX_DECODE_ERRORS`.
pub open spec fn retry_outcome(attempts: Seq<Attempt>, errors: int) -> RetryOutcome
    decreases attempts.len(),
{
    if attempts.len() == 0 {
        RetryOutcome::Undecided
    } else {
        match attempts[0] {
            Attempt::Success => RetryOutcome::Delivers,
            Attempt::Fatal => RetryOutcome::Ends,
            Attempt::Corrupt => {
                if errors + 1 > MAX_DECODE_ERRORS {
                    RetryOutcome::Ends
                } else {
                    retry_outcome(attempts.drop_first(), errors + 1)
                }
            },
        }
    }
}

/// Runs the policy over a record whose every attempt but the last is
/// corrupt: the loop's verdict is decided by the last attempt alone, as
/// long as the corrupt prefix stays within the cap.
pub proof fn lemma_retry_run(attempts: Seq<Attempt>, errors: int)
    requires
        0 <= errors,
        attempts.len() >= 1,
        forall|i: int| 0 <= i < attempts.len() - 1 ==> attempts[i] == Attempt::Corrupt,
        errors + attempts.len() - 1 <= MAX_DECODE_ERRORS,
    ensures
        attempts.last() == Attempt::Success ==> retry_outcome(attempts, errors)
            == RetryOutcome::Delivers,
        attempts.last() == Attempt::Fatal ==> retry_outcome(attempts, errors)
            == RetryOutcome::Ends,
        attempts.last() == Attempt::Corrupt && errors + attempts.len() > MAX_DECODE_ERRORS
            ==> retry_outcome(attempts, errors) == RetryOutcome::Ends,
    decreases attempts.len(),
{
    if attempts.len() > 1 {
        assert(attempts[0] == Attempt::Corrupt);
        lemma_retry_run(attempts.drop_first(), errors + 1);
    }
}

/// A decoder that hits exactly `MAX_DECODE_ERRORS` consecutive decode
/// failures and then one success continues the stream.
pub proof fn lemma_retry_cap_tolerated(attempts: Seq<Attempt>)
    requires
        attempts.len() == MAX_DECODE_ERRORS + 1,
        forall|i: int| 0 <= i < MAX_DECODE_ERRORS ==> attempts[i] == Attempt::Corrupt,
        attempts.last() == Attempt::Success,
    ensures
        retry_outcome(attempts, 0) == RetryOutcome::Delivers,
{
    lemma_retry_run(attempts, 0);
}

/// A decoder that hits `MAX_DECODE_ERRORS + 1` consecutive decode
/// failures ends the stream.
pub proof fn lemma_retry_cap_exceeded(attempts: Seq<Attempt>)
    requires
        attempts.len() == MAX_DECODE_ERRORS + 1,
        forall|i: int| 0 <= i < attempts.len() ==> attempts[i] == Attempt::Corrupt,
    ensures
        retry_outcome(attempts, 0) == RetryOutcome::Ends,
{
    lemma_retry_run(attempts, 0);
}

/// The executable form of the retry policy over a finite record of
/// attempts, proved against the model it runs.
pub fn retry_outcome_of(attempts: &Vec<Attempt>) -> (r: RetryOutcome)
    ensures
        r == retry_outcome(attempts@, 0),
{
    let mut errors: usize = 0;
    let mut i: usize = 0;
    proof {
        assert(attempts@.skip(0) =~= attempts@);
    }
    while i < attempts.len()
        invariant
            0 <= i <= attempts.len(),
            errors == i,
            forall|j: int| 0 <= j < i ==> attempts@[j] == Attempt::Corrupt,
            errors <= MAX_DECODE_ERRORS,
            retry_outcome(attempts@, 0) == retry_outcome(attempts@.skip(i as int), errors as int),
        decreases attempts.len() - i,
    {
        match attempts[i] {
            Attempt::Success => {
                assert(attempts@.skip(i as int)[0] == attempts@[i as int]);
                return RetryOutcome::Delivers;
            },
            Attempt::Fatal => {
                assert(attempts@.skip(i as int)[0] == attempts@[i as int]);
                return RetryOutcome::Ends;
            },
            Attempt::Corrupt => {
                assert(attempts@.skip(i as int)[0] == attempts@[i as int]);
                assert(attempts@.skip(i as int).drop_first() =~= attempts@.skip(i + 1));
                if errors + 1 > MAX_DECODE_ERRORS {
                    return RetryOutcome::Ends;
                }
                errors = errors + 1;
                i = i + 1;
            },
        }
    }
    RetryOutcome::Undecided
}

} // verus!
