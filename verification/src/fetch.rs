//! What the bot does after each attempt to reach the exchange.

use vstd::prelude::*;

verus! {

/// How many times the account request is sent before the bot gives up.
pub const BALANCE_ATTEMPTS: u32 = 3;

/// How long the price poll waits before asking again, in milliseconds.
pub const PRICE_RETRY_PAUSE_MS: u64 = 1000;

/// The outcome of sending one request: a response with a success status, a
/// response with an error status, or no response at all.
#[derive(Clone, Copy, Debug, PartialEq, Eq, Structural)]
pub enum Outcome {
    Success,
    HttpError,
    TransportError,
}

/// The next move of the account request loop.
/// `ReadBody`: decode the response. `ReportError`: report the error status and
/// stop. `Retry(n)`: send again, `n` transport failures so far. `GiveUp`: every
/// attempt failed.
#[derive(Clone, Copy, Debug, PartialEq, Eq, Structural)]
pub enum BalanceStep {
    ReadBody,
    ReportError,
    Retry(u32),
    GiveUp,
}

/// The next move of the price poll: decode the response, or wait and ask again.
#[derive(Clone, Copy, Debug, PartialEq, Eq, Structural)]
pub enum PriceStep {
    ReadBody,
    WaitThenRetry(u64),
}

/// The move after an attempt of the account request, `retries` transport
/// failures having come before it.
pub open spec fn balance_next(retries: u32, outcome: Outcome) -> BalanceStep {
    match outcome {
        Outcome::Success => BalanceStep::ReadBody,
        Outcome::HttpError => BalanceStep::ReportError,
        Outcome::TransportError => if retries + 1 >= BALANCE_ATTEMPTS {
            BalanceStep::GiveUp
        } else {
            BalanceStep::Retry((retries + 1) as u32)
        },
    }
}

/// Decides what follows one attempt of the account request: only a failure to
/// get any response is retried, and only while attempts are left.
pub fn balance_step(retries: u32, outcome: Outcome) -> (step: BalanceStep)
    requires
        retries < BALANCE_ATTEMPTS,
    ensures
        step == balance_next(retries, outcome),
{
    match outcome {
        Outcome::Success => BalanceStep::ReadBody,
        Outcome::HttpError => BalanceStep::ReportError,
        Outcome::TransportError => {
            if retries + 1 >= BALANCE_ATTEMPTS {
                BalanceStep::GiveUp
            } else {
                BalanceStep::Retry(retries + 1)
            }
        },
    }
}

/// Decides what follows one attempt of the price poll: read a successful
/// response, otherwise wait a second and ask again.
pub fn price_step(outcome: Outcome) -> (step: PriceStep)
    ensures
        outcome is Success ==> step == PriceStep::ReadBody,
        !(outcome is Success) ==> step == PriceStep::WaitThenRetry(PRICE_RETRY_PAUSE_MS),
{
    match outcome {
        Outcome::Success => PriceStep::ReadBody,
        _ => PriceStep::WaitThenRetry(PRICE_RETRY_PAUSE_MS),
    }
}

/// The number of requests the account loop sends when the attempts have the
/// given outcomes, in order, starting after `retries` transport failures.
pub open spec fn balance_requests_sent(retries: u32, outcomes: Seq<Outcome>) -> nat
    decreases outcomes.len(),
{
    if outcomes.len() == 0 {
        0
    } else {
        match balance_next(retries, outcomes[0]) {
            BalanceStep::Retry(n) => 1 + balance_requests_sent(n, outcomes.drop_first()),
            _ => 1,
        }
    }
}

/// Whatever the exchange answers, the account loop sends at most as many
/// requests as it has attempts left: three from a fresh start.
pub proof fn balance_sends_at_most_three(retries: u32, outcomes: Seq<Outcome>)
    requires
        retries < BALANCE_ATTEMPTS,
    ensures
        balance_requests_sent(retries, outcomes) <= BALANCE_ATTEMPTS - retries,
    decreases outcomes.len(),
{
    if outcomes.len() > 0 {
        if let BalanceStep::Retry(n) = balance_next(retries, outcomes[0]) {
            balance_sends_at_most_three(n, outcomes.drop_first());
        }
    }
}

} // verus!
