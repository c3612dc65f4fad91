//! How connecting to the broker is retried at start-up.

use vstd::prelude::*;

verus! {

/// How many times a connection to the broker is attempted before start-up fails.
pub const RABBITMQ_CONNECT_ATTEMPTS: u32 = 12;

/// Seconds waited after a failed attempt before the next one.
pub const RABBITMQ_CONNECT_RETRY_DELAY_SECONDS: u64 = 5;

/// What follows an attempt to connect.
#[derive(Debug, Clone, Copy, PartialEq, Eq)]
pub enum ConnectStep {
    /// The connection is up; start-up goes on with it.
    Connected,
    /// Wait `delay_seconds`, then make attempt number `next_attempt`.
    Retry { next_attempt: u32, delay_seconds: u64 },
    /// Start-up fails with the error of the last attempt.
    GiveUp,
}

/// What follows attempt number `attempt`, counting from one, that did or did not connect.
pub open spec fn connect_step_spec(attempt: u32, connected: bool) -> ConnectStep {
    if connected {
        ConnectStep::Connected
    } else if attempt < RABBITMQ_CONNECT_ATTEMPTS {
        ConnectStep::Retry {
            next_attempt: (attempt + 1) as u32,
            delay_seconds: RABBITMQ_CONNECT_RETRY_DELAY_SECONDS,
        }
    } else {
        ConnectStep::GiveUp
    }
}

pub fn after_connect_attempt(attempt: u32, connected: bool) -> (res: ConnectStep)
    requires
        1 <= attempt <= RABBITMQ_CONNECT_ATTEMPTS,
    ensures
        res == connect_step_spec(attempt, connected),
{
    if connected {
        ConnectStep::Connected
    } else if attempt < RABBITMQ_CONNECT_ATTEMPTS {
        ConnectStep::Retry {
            next_attempt: attempt + 1,
            delay_seconds: RABBITMQ_CONNECT_RETRY_DELAY_SECONDS,
        }
    } else {
        ConnectStep::GiveUp
    }
}

/// The attempt that ends start-up, when the attempts from the first on fail as
/// `failures` says (`true` for a failed attempt) and retries go as `after_connect_attempt`
/// decides; `None` while attempts are still owed.
pub open spec fn final_attempt(attempt: u32, failures: Seq<bool>) -> Option<(u32, ConnectStep)>
    decreases failures.len(),
{
    if failures.len() == 0 {
        None
    } else {
        match connect_step_spec(attempt, !failures[0]) {
            ConnectStep::Retry { next_attempt, .. } => final_attempt(
                next_attempt,
                failures.drop_first(),
            ),
            step => Some((attempt, step)),
        }
    }
}

/// Start-up gives up only after all the attempts have failed, and never before: when
/// every attempt fails, the first `RABBITMQ_CONNECT_ATTEMPTS - 1` are retried after the
/// delay and the last one ends start-up.
pub proof fn lemma_gives_up_after_every_attempt(attempt: u32, failures: Seq<bool>)
    requires
        1 <= attempt <= RABBITMQ_CONNECT_ATTEMPTS,
        failures.len() == RABBITMQ_CONNECT_ATTEMPTS - attempt + 1,
        forall|i: int| 0 <= i < failures.len() ==> failures[i],
    ensures
        final_attempt(attempt, failures) == Some((RABBITMQ_CONNECT_ATTEMPTS, ConnectStep::GiveUp)),
    decreases failures.len(),
{
    if attempt < RABBITMQ_CONNECT_ATTEMPTS {
        let rest = failures.drop_first();
        assert forall|i: int| 0 <= i < rest.len() implies rest[i] by {
            assert(rest[i] == failures[i + 1]);
        }
        lemma_gives_up_after_every_attempt((attempt + 1) as u32, rest);
    }
}

/// A successful attempt ends start-up at once, whichever attempt it is, and an attempt
/// that fails before the last is retried as the next one after the delay.
pub proof fn lemma_connect_step(attempt: u32, connected: bool)
    requires
        1 <= attempt <= RABBITMQ_CONNECT_ATTEMPTS,
    ensures
        connected ==> connect_step_spec(attempt, connected) == ConnectStep::Connected,
        !connected && attempt < RABBITMQ_CONNECT_ATTEMPTS ==> connect_step_spec(attempt, connected)
            == (ConnectStep::Retry {
            next_attempt: (attempt + 1) as u32,
            delay_seconds: RABBITMQ_CONNECT_RETRY_DELAY_SECONDS,
        }),
        !connected && attempt == RABBITMQ_CONNECT_ATTEMPTS ==> connect_step_spec(attempt, connected)
            == ConnectStep::GiveUp,
{
}

} // verus!
