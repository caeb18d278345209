//! How often, and how long, work is tried.
use crate::model::{Model, Same};
use crate::protocol::effect::{RetryConfig, RetryOverride, RetryPolicy};
use vstd::prelude::*;

verus! {

/// Whose retry policy applies.
#[derive(Debug, Clone, Copy, PartialEq, Eq, Structural)]
pub enum RetryTarget {
    WorkerTool,
    ClientTool,
    ConnectorTool,
    ConnectorSync,
    Decision,
    Llm,
    Subagent,
}

impl Model for RetryTarget {
    type V = RetryTarget;

    open spec fn v(&self) -> RetryTarget {
        *self
    }

    fn dup(&self) -> (r: RetryTarget) {
        *self
    }
}

impl Same for RetryTarget {
    fn same(&self, other: &RetryTarget) -> (r: bool) {
        *self == *other
    }
}

impl RetryPolicy {
    /// One attempt, without a deadline.
    pub open spec fn once() -> RetryPolicy {
        RetryPolicy {
            queue_timeout_secs: None,
            run_timeout_secs: None,
            total_timeout_secs: None,
            max_attempts: 1,
            backoff_base_secs: 0,
            backoff_max_secs: 0,
        }
    }

    /// The engine's own policy. A client answers when a person does, so a
    /// client tool has no deadline; whatever else runs out has one.
    pub open spec fn usual(target: RetryTarget) -> RetryPolicy {
        RetryPolicy {
            queue_timeout_secs: None,
            run_timeout_secs: match target {
                RetryTarget::ClientTool => None,
                RetryTarget::Subagent => None,
                RetryTarget::ConnectorSync => Some(30),
                RetryTarget::ConnectorTool => Some(60),
                _ => Some(300),
            },
            total_timeout_secs: None,
            max_attempts: match target {
                RetryTarget::WorkerTool => 1,
                RetryTarget::ClientTool => 1,
                RetryTarget::ConnectorTool => 1,
                RetryTarget::Subagent => 1,
                _ => 3,
            },
            backoff_base_secs: 1,
            backoff_max_secs: 30,
        }
    }

    /// The policy with the fields that `over` names.
    pub open spec fn overridden(self, over: RetryOverride) -> RetryPolicy {
        RetryPolicy {
            queue_timeout_secs: if over.queue_timeout_secs is Some {
                over.queue_timeout_secs
            } else {
                self.queue_timeout_secs
            },
            run_timeout_secs: if over.run_timeout_secs is Some {
                over.run_timeout_secs
            } else {
                self.run_timeout_secs
            },
            total_timeout_secs: if over.total_timeout_secs is Some {
                over.total_timeout_secs
            } else {
                self.total_timeout_secs
            },
            max_attempts: match over.max_attempts {
                Some(n) => n,
                None => self.max_attempts,
            },
            backoff_base_secs: match over.backoff_base_secs {
                Some(n) => n,
                None => self.backoff_base_secs,
            },
            backoff_max_secs: match over.backoff_max_secs {
                Some(n) => n,
                None => self.backoff_max_secs,
            },
        }
    }

    pub open spec fn overridden_by(self, over: Option<RetryOverride>) -> RetryPolicy {
        match over {
            Some(over) => self.overridden(over),
            None => self,
        }
    }

    /// The override a config holds for a target.
    pub open spec fn declared(config: RetryConfig, target: RetryTarget) -> Option<RetryOverride> {
        match target {
            RetryTarget::WorkerTool => config.tool,
            RetryTarget::ClientTool => config.tool,
            RetryTarget::ConnectorTool => config.tool,
            RetryTarget::ConnectorSync => config.connector,
            RetryTarget::Decision => None,
            RetryTarget::Llm => config.llm,
            RetryTarget::Subagent => config.subagent,
        }
    }

    /// The policy of one piece of work: the engine's own, then what the config
    /// says of all work, then what it says of this kind, then what was asked
    /// for. Each changes only the fields it names.
    pub open spec fn resolved(
        asked: Option<RetryOverride>,
        config: Option<RetryConfig>,
        target: RetryTarget,
    ) -> RetryPolicy {
        let usual = RetryPolicy::usual(target);
        let base = match config {
            Some(config) => usual.overridden_by(config.default).overridden_by(
                RetryPolicy::declared(config, target),
            ),
            None => usual,
        };
        base.overridden_by(asked)
    }

    /// One attempt, without a deadline.
    pub fn no_retry() -> (r: RetryPolicy)
        ensures
            r == RetryPolicy::once(),
    {
        RetryPolicy {
            queue_timeout_secs: None,
            run_timeout_secs: None,
            total_timeout_secs: None,
            max_attempts: 1,
            backoff_base_secs: 0,
            backoff_max_secs: 0,
        }
    }

    /// The engine's own policy.
    pub fn default_for(target: RetryTarget) -> (r: RetryPolicy)
        ensures
            r == RetryPolicy::usual(target),
    {
        RetryPolicy {
            queue_timeout_secs: None,
            run_timeout_secs: match target {
                RetryTarget::ClientTool => None,
                RetryTarget::Subagent => None,
                RetryTarget::ConnectorSync => Some(30),
                RetryTarget::ConnectorTool => Some(60),
                _ => Some(300),
            },
            total_timeout_secs: None,
            max_attempts: match target {
                RetryTarget::WorkerTool => 1,
                RetryTarget::ClientTool => 1,
                RetryTarget::ConnectorTool => 1,
                RetryTarget::Subagent => 1,
                _ => 3,
            },
            backoff_base_secs: 1,
            backoff_max_secs: 30,
        }
    }

    /// The policy with the fields that `over` names.
    pub fn with_override(self, over: &RetryOverride) -> (r: RetryPolicy)
        ensures
            r == self.overridden(*over),
    {
        RetryPolicy {
            queue_timeout_secs: if over.queue_timeout_secs.is_some() {
                over.queue_timeout_secs
            } else {
                self.queue_timeout_secs
            },
            run_timeout_secs: if over.run_timeout_secs.is_some() {
                over.run_timeout_secs
            } else {
                self.run_timeout_secs
            },
            total_timeout_secs: if over.total_timeout_secs.is_some() {
                over.total_timeout_secs
            } else {
                self.total_timeout_secs
            },
            max_attempts: match over.max_attempts {
                Some(n) => n,
                None => self.max_attempts,
            },
            backoff_base_secs: match over.backoff_base_secs {
                Some(n) => n,
                None => self.backoff_base_secs,
            },
            backoff_max_secs: match over.backoff_max_secs {
                Some(n) => n,
                None => self.backoff_max_secs,
            },
        }
    }

    fn with(self, over: Option<RetryOverride>) -> (r: RetryPolicy)
        ensures
            r == self.overridden_by(over),
    {
        match over {
            Some(over) => self.with_override(&over),
            None => self,
        }
    }

    /// The policy of one piece of work.
    pub fn resolve(
        asked: Option<RetryOverride>,
        config: Option<&RetryConfig>,
        target: RetryTarget,
    ) -> (r: RetryPolicy)
        ensures
            r == RetryPolicy::resolved(
                asked,
                match config {
                    Some(config) => Some(*config),
                    None => None,
                },
                target,
            ),
    {
        let usual = RetryPolicy::default_for(target);
        let base = match config {
            Some(config) => {
                let declared = match target {
                    RetryTarget::WorkerTool => config.tool,
                    RetryTarget::ClientTool => config.tool,
                    RetryTarget::ConnectorTool => config.tool,
                    RetryTarget::ConnectorSync => config.connector,
                    RetryTarget::Decision => None,
                    RetryTarget::Llm => config.llm,
                    RetryTarget::Subagent => config.subagent,
                };
                usual.with(config.default).with(declared)
            },
            None => usual,
        };
        base.with(asked)
    }
}

pub const NANOS_PER_SEC: i128 = 1_000_000_000;

/// `secs` seconds after `at`, in nanoseconds of the Unix epoch. The clock
/// stops at its last instant.
pub open spec fn later(at: i128, secs: int) -> i128 {
    if at + secs * NANOS_PER_SEC > i128::MAX {
        i128::MAX
    } else {
        (at + secs * NANOS_PER_SEC) as i128
    }
}

/// `secs` seconds after `at`.
pub fn after(at: i128, secs: u32) -> (r: i128)
    ensures
        r == later(at, secs as int),
{
    let nanos: i128 = secs as i128 * NANOS_PER_SEC;
    if at > i128::MAX - nanos {
        i128::MAX
    } else {
        at + nanos
    }
}

/// How long to wait before the attempt that follows `attempts` others: twice
/// as long each time, up to the policy's longest wait.
pub open spec fn backoff(policy: RetryPolicy, attempts: u32) -> u32
    decreases attempts,
{
    if attempts == 0 {
        if policy.backoff_base_secs < policy.backoff_max_secs {
            policy.backoff_base_secs
        } else {
            policy.backoff_max_secs
        }
    } else {
        let before = backoff(policy, (attempts - 1) as u32);
        if before * 2 < policy.backoff_max_secs {
            (before * 2) as u32
        } else {
            policy.backoff_max_secs
        }
    }
}

/// Once the longest wait, or none at all, is reached the wait stays.
proof fn lemma_backoff_stays(policy: RetryPolicy, i: u32, n: u32)
    requires
        i <= n,
        backoff(policy, i) == policy.backoff_max_secs || backoff(policy, i) == 0,
    ensures
        backoff(policy, n) == backoff(policy, i),
    decreases n - i,
{
    if i < n {
        lemma_backoff_stays(policy, i, (n - 1) as u32);
    }
}

/// How long to wait before the attempt that follows `attempts` others.
pub fn backoff_secs(policy: &RetryPolicy, attempts: u32) -> (r: u32)
    ensures
        r == backoff(*policy, attempts),
{
    let mut wait: u32 = if policy.backoff_base_secs < policy.backoff_max_secs {
        policy.backoff_base_secs
    } else {
        policy.backoff_max_secs
    };
    let mut i: u32 = 0;
    while i < attempts
        invariant
            i <= attempts,
            wait == backoff(*policy, i),
            wait <= policy.backoff_max_secs,
        decreases attempts - i,
    {
        if wait == policy.backoff_max_secs || wait == 0 {
            proof {
                lemma_backoff_stays(*policy, i, attempts);
            }
            return wait;
        }
        i = i + 1;
        wait = if (wait as u64) * 2 < policy.backoff_max_secs as u64 {
            wait * 2
        } else {
            policy.backoff_max_secs
        };
    }
    wait
}

} // verus!
