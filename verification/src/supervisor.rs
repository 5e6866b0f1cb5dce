//! Worker supervisor: owns one worker per configured target, staggers
//! their launches, and restarts a worker whose unit of execution
//! terminated for any reason other than intentional shutdown.

use crate::backoff::RetryState;
use crate::worker::{TargetConfig, Worker};
use vstd::prelude::*;

verus! {

/// Delay in milliseconds between the launches of two consecutive
/// workers, so many targets are not dialled at once.
pub const LAUNCH_STAGGER_MS: u64 = 2000;

/// Cooldown in milliseconds before an aborted worker is restarted.
pub const RESTART_COOLDOWN_MS: u64 = 2000;

/// How one worker's unit of execution ended.
#[derive(Clone, Copy, Debug, PartialEq, Eq, Structural)]
pub enum WorkerExit {
    /// It ran to completion under an intentional shutdown.
    Completed,
    /// It terminated abnormally (a panic or a cancelled unit).
    Aborted,
}

/// What the supervisor does about one worker's exit.
#[derive(Clone, Copy, Debug, PartialEq, Eq, Structural)]
pub enum SupervisorAction {
    /// Leave the worker down: the shutdown was intentional.
    Finish,
    /// Wait `cooldown_ms`, then restart the worker fresh.
    Restart { cooldown_ms: u64 },
}

/// A fresh (never started) worker: Disconnected, clean retry slate,
/// no handle ever issued.
pub open spec fn spec_fresh_worker(w: Worker, config: TargetConfig) -> bool {
    &&& w.config == config
    &&& w.state is Disconnected
    &&& w.retry == (RetryState { attempt: 1u64, delay: 0u64 })
    &&& w.generation == 0
}

/// How long after startup the worker at `index` is launched: launches
/// are staggered by a fixed delay per position.
pub fn launch_delay(index: usize) -> (delay_ms: u64)
    requires
        index * LAUNCH_STAGGER_MS <= u64::MAX,
    ensures
        delay_ms == index * LAUNCH_STAGGER_MS,
{
    (index as u64) * LAUNCH_STAGGER_MS
}

/// The restart rule: an intentional shutdown is final; any other exit
/// has the worker restarted after the fixed cooldown, if and only if
/// it aborted.
pub fn on_worker_exit(exit: &WorkerExit) -> (action: SupervisorAction)
    ensures
        action == (match exit {
            WorkerExit::Completed => SupervisorAction::Finish,
            WorkerExit::Aborted => (SupervisorAction::Restart { cooldown_ms: RESTART_COOLDOWN_MS }),
        }),
{
    match exit {
        WorkerExit::Completed => SupervisorAction::Finish,
        WorkerExit::Aborted => SupervisorAction::Restart { cooldown_ms: RESTART_COOLDOWN_MS },
    }
}

/// The top-level owner of every worker, one per configured target.
pub struct Supervisor {
    pub workers: Vec<Worker>,
}

impl Supervisor {
    /// One fresh worker per target, in the given order.
    pub fn new(configs: Vec<TargetConfig>) -> (r: Supervisor)
        ensures
            r.workers@.len() == configs@.len(),
            forall|i: int|
                0 <= i < configs@.len() ==> spec_fresh_worker(#[trigger] r.workers@[i], configs@[i]),
    {
        let mut workers: Vec<Worker> = Vec::new();
        let mut i: usize = 0;
        let ghost all = configs@;
        while i < configs.len()
            invariant
                i <= configs@.len(),
                configs@ == all,
                workers@.len() == i,
                forall|j: int| 0 <= j < i ==> spec_fresh_worker(#[trigger] workers@[j], all[j]),
            decreases configs@.len() - i,
        {
            let config = clone_target_config(&configs[i]);
            workers.push(Worker::new(config));
            i = i + 1;
        }
        Supervisor { workers }
    }

    /// Replaces the worker at `index` by a fresh one with the same
    /// target settings — and touches no other worker.
    pub fn restart(&mut self, index: usize)
        requires
            index < old(self).workers@.len(),
        ensures
            final(self).workers@.len() == old(self).workers@.len(),
            spec_fresh_worker(final(self).workers@[index as int], old(
                self,
            ).workers@[index as int].config),
            forall|j: int|
                0 <= j < old(self).workers@.len() && j != index ==> final(self).workers@[j] == old(
                    self,
                ).workers@[j],
    {
        let config = clone_target_config(&self.workers[index].config);
        self.workers[index] = Worker::new(config);
    }
}

/// Field-by-field copy.
pub fn clone_target_config(config: &TargetConfig) -> (r: TargetConfig)
    ensures
        r == *config,
{
    TargetConfig {
        address: config.address.clone(),
        identity: config.identity.clone(),
        poll_interval_ms: config.poll_interval_ms,
        max_retry_delay_s: config.max_retry_delay_s,
        retry_step_count: config.retry_step_count,
        retry_step_increment_s: config.retry_step_increment_s,
        connect_only_once: config.connect_only_once,
    }
}

} // verus!
