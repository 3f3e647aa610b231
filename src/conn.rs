use vstd::prelude::*;
use vstd::string::*;

verus! {

/// How many times a connection is attempted before giving up.
pub const CONNECTION_RETRY_NUMBER: usize = 5;

/// The pause between two attempts, in seconds.
pub const CONNECTION_RETRY_DELAY_SECS: u64 = 2;

/// What a connection is opened to.
#[derive(Clone, Copy, Debug, PartialEq, Eq)]
pub enum ConnectionTarget {
    Database,
    Gateway,
}

/// What to do after an attempt to connect.
#[derive(Clone, Copy, Debug, PartialEq, Eq)]
pub enum RetryStep {
    /// The attempt succeeded: hand out the connection.
    Connected,
    /// Wait `delay_secs`, then make attempt `next_attempt`.
    WaitThenRetry { next_attempt: usize, delay_secs: u64 },
    /// The last attempt failed: fail for good.
    GiveUp,
}

pub open spec fn retry_step_spec(attempt: nat, connected: bool) -> RetryStep {
    if connected {
        RetryStep::Connected
    } else if attempt < CONNECTION_RETRY_NUMBER {
        RetryStep::WaitThenRetry {
            next_attempt: (attempt + 1) as usize,
            delay_secs: CONNECTION_RETRY_DELAY_SECS,
        }
    } else {
        RetryStep::GiveUp
    }
}

/// The step after attempt `attempt` (counted from one) succeeded or failed.
pub fn next_retry_step(attempt: usize, connected: bool) -> (r: RetryStep)
    requires
        1 <= attempt <= CONNECTION_RETRY_NUMBER,
    ensures
        r == retry_step_spec(attempt as nat, connected),
{
    if connected {
        RetryStep::Connected
    } else if attempt < CONNECTION_RETRY_NUMBER {
        RetryStep::WaitThenRetry {
            next_attempt: attempt + 1,
            delay_secs: CONNECTION_RETRY_DELAY_SECS,
        }
    } else {
        RetryStep::GiveUp
    }
}

/// The attempts made from attempt `attempt` on when every one of them fails.
pub open spec fn failing_attempts(attempt: nat) -> nat
    decreases CONNECTION_RETRY_NUMBER - attempt,
{
    match retry_step_spec(attempt, false) {
        RetryStep::WaitThenRetry { next_attempt, .. } => if attempt < next_attempt
            <= CONNECTION_RETRY_NUMBER {
            1 + failing_attempts(next_attempt as nat)
        } else {
            1
        },
        _ => 1,
    }
}

/// The seconds waited from attempt `attempt` on when every attempt fails.
pub open spec fn failing_wait_secs(attempt: nat) -> nat
    decreases CONNECTION_RETRY_NUMBER - attempt,
{
    match retry_step_spec(attempt, false) {
        RetryStep::WaitThenRetry { next_attempt, delay_secs } => if attempt < next_attempt
            <= CONNECTION_RETRY_NUMBER {
            delay_secs as nat + failing_wait_secs(next_attempt as nat)
        } else {
            delay_secs as nat
        },
        _ => 0,
    }
}

/// A target that never accepts a connection is tried exactly five times,
/// with a pause of two seconds after each failed attempt but the last, and
/// the last failure is final.
pub proof fn lemma_retry_exhaustion()
    ensures
        failing_attempts(1) == 5,
        failing_wait_secs(1) == 8,
        forall|a: nat|
            1 <= a < 5 ==> retry_step_spec(a, false) == (RetryStep::WaitThenRetry {
                next_attempt: (a + 1) as usize,
                delay_secs: 2,
            }),
        retry_step_spec(5, false) == RetryStep::GiveUp,
{
    reveal_with_fuel(failing_attempts, 6);
    reveal_with_fuel(failing_wait_secs, 6);
}

/// The final failure to connect, naming the target.
#[derive(Clone, Debug, PartialEq)]
pub struct ConnectionExhausted {
    pub target: ConnectionTarget,
    pub url: String,
    pub attempts: usize,
}

pub open spec fn exhausted_message(target: ConnectionTarget, url: Seq<char>) -> Seq<char> {
    match target {
        ConnectionTarget::Database => "Could not connect to Postgres DB at url "@ + url,
        ConnectionTarget::Gateway => "Could not connect to Gateway at url "@ + url,
    }
}

impl ConnectionExhausted {
    /// The error after every attempt to reach `url` failed.
    pub fn new(target: ConnectionTarget, url: &str) -> (r: ConnectionExhausted)
        ensures
            r.target == target,
            r.url@ == url@,
            r.attempts == CONNECTION_RETRY_NUMBER,
    {
        ConnectionExhausted { target, url: String::from_str(url), attempts: CONNECTION_RETRY_NUMBER }
    }

    /// The error's text, which names the target's url.
    pub fn message(&self) -> (r: String)
        ensures
            r@ == exhausted_message(self.target, self.url@),
    {
        let mut s = match self.target {
            ConnectionTarget::Database => {
                proof {
                    reveal_strlit("Could not connect to Postgres DB at url ");
                }
                String::from_str("Could not connect to Postgres DB at url ")
            },
            ConnectionTarget::Gateway => {
                proof {
                    reveal_strlit("Could not connect to Gateway at url ");
                }
                String::from_str("Could not connect to Gateway at url ")
            },
        };
        s.append(self.url.as_str());
        s
    }
}

} // verus!
