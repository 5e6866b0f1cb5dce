//! Per-target connection lifecycle: the state machine one worker runs
//! forever for one target.
//!
//! The worker owns the target's [`RetryState`] and the identity of the
//! live connection handle (modelled by a generation counter that grows
//! by one on every successful connect). Callers drive it with the
//! outcome of each outside operation ([`Event`]) and perform the
//! operation the worker orders next ([`Action`]): connect after a
//! backoff delay, fetch one reading on a given handle after a wait, or
//! emit the fetched reading to the sink. Connect and fetch failures are
//! absorbed into state transitions and never escape; a sink failure
//! changes nothing but the log.

use crate::backoff::{spec_next_delay, RetryState};
use crate::config::ServerConfiguration;
use vstd::prelude::*;

verus! {

/// Settle delay in milliseconds between a successful reconnect and the
/// first fetch on the new handle.
pub const RECONNECT_SETTLE_MS: u64 = 5000;

/// Fully resolved, immutable per-target settings handed to one worker.
pub struct TargetConfig {
    /// Address the connect operation dials: `ip:rcon_port`.
    pub address: String,
    /// Identity string every reading from this target is tagged with.
    pub identity: String,
    /// Fixed cadence of the poll loop, in milliseconds.
    pub poll_interval_ms: u64,
    /// Cap on the backoff delay, in seconds.
    pub max_retry_delay_s: u64,
    /// Failures per backoff step.
    pub retry_step_count: u64,
    /// Delay added per backoff step, in seconds.
    pub retry_step_increment_s: u64,
    /// Whether the connect operation should give up instead of keeping
    /// the session alive on its own; handed through to the collaborator.
    pub connect_only_once: bool,
}

impl TargetConfig {
    /// The invariants the worker relies on: a positive poll cadence, a
    /// positive step count, and a cap no smaller than one increment.
    pub open spec fn wf(self) -> bool {
        &&& self.poll_interval_ms >= 1
        &&& self.retry_step_count >= 1
        &&& self.max_retry_delay_s >= self.retry_step_increment_s
    }

    /// Resolves one server entry into the immutable settings for its
    /// worker. The entry must already satisfy the configuration
    /// invariants (positive poll interval and step count, cap at least
    /// one increment); entries that do not are rejected by the caller
    /// before any worker exists.
    pub fn from_server(server: &ServerConfiguration) -> (r: TargetConfig)
        requires
            server.spec_server_info_interval() >= 1,
            server.spec_retry_connection_step() >= 1,
            server.spec_max_retry_connection_interval()
                >= server.spec_retry_connection_addition(),
        ensures
            r.address@ == server.spec_game_ip_rcon_port(),
            r.identity@ == server.unique_id@,
            r.poll_interval_ms == server.spec_server_info_interval(),
            r.max_retry_delay_s == server.spec_max_retry_connection_interval(),
            r.retry_step_count == server.spec_retry_connection_step() as u64,
            r.retry_step_increment_s == server.spec_retry_connection_addition(),
            r.connect_only_once == false,
            r.wf(),
    {
        let step: i32 = server.get_retry_connection_step();
        TargetConfig {
            address: server.get_game_ip_rcon_port(),
            identity: server.get_unique_id(),
            poll_interval_ms: server.get_server_info_interval(),
            max_retry_delay_s: server.get_max_retry_connection_interval(),
            retry_step_count: step as u64,
            retry_step_increment_s: server.get_retry_connection_addition(),
            connect_only_once: false,
        }
    }
}

/// Where the worker stands in the connection lifecycle.
#[derive(Clone, Copy, Debug, PartialEq, Eq, Structural)]
pub enum LifecycleState {
    /// Before the first connect was ordered.
    Disconnected,
    /// The initial connect is in flight.
    Connecting,
    /// A live session exists; `generation` identifies its handle.
    Connected { generation: u64 },
    /// A previously live session failed; a reconnect is in flight.
    Reconnecting,
}

/// Outcome of the outside operation the worker last ordered.
#[derive(Clone, Copy, Debug, PartialEq, Eq, Structural)]
pub enum Event {
    ConnectSucceeded,
    ConnectFailed,
    FetchSucceeded,
    FetchFailed,
    SinkSucceeded,
    SinkFailed,
}

/// The next outside operation the worker orders.
#[derive(Clone, Copy, Debug, PartialEq, Eq, Structural)]
pub enum Action {
    /// Sleep `delay_s` seconds, then attempt to connect to the target.
    Connect { delay_s: u64 },
    /// Sleep `delay_ms` milliseconds, then fetch one reading through
    /// the handle of the given generation.
    Fetch { generation: u64, delay_ms: u64 },
    /// Emit the reading just fetched to the sink.
    Emit,
}

/// One target's worker: its settings, lifecycle state, retry state,
/// and the number of successful connects so far.
pub struct Worker {
    pub config: TargetConfig,
    pub state: LifecycleState,
    pub retry: RetryState,
    /// Successful connects so far; the handle obtained by the `n`-th
    /// successful connect has generation `n`.
    pub generation: u64,
}

impl Worker {
    /// Well-formedness the worker maintains across every step.
    pub open spec fn wf(self) -> bool {
        &&& self.config.wf()
        &&& self.retry.attempt >= 1
        &&& self.retry.delay <= self.config.max_retry_delay_s
        &&& (self.state matches LifecycleState::Connected { generation } ==> generation
            == self.generation && generation >= 1)
    }

    /// Which events can arrive in the current state: the outcome of a
    /// connect while one is in flight, and the outcome of a fetch or a
    /// sink write while a session is live.
    pub open spec fn accepts(self, ev: Event) -> bool {
        match self.state {
            LifecycleState::Disconnected => false,
            LifecycleState::Connecting => ev is ConnectSucceeded || ev is ConnectFailed,
            LifecycleState::Reconnecting => ev is ConnectSucceeded || ev is ConnectFailed,
            LifecycleState::Connected { .. } => ev is FetchSucceeded || ev is FetchFailed
                || ev is SinkSucceeded || ev is SinkFailed,
        }
    }

    /// A fresh worker for one target: no connection, a clean retry
    /// slate, no handle ever issued.
    pub fn new(config: TargetConfig) -> (r: Worker)
        ensures
            r.config == config,
            r.state is Disconnected,
            r.retry.attempt == 1,
            r.retry.delay == 0,
            r.generation == 0,
    {
        Worker { config, state: LifecycleState::Disconnected, retry: RetryState::new(), generation: 0 }
    }

    /// Orders the initial connect: Disconnected becomes Connecting and
    /// the caller dials the target at once.
    pub fn start(&mut self) -> (action: Action)
        requires
            old(self).state is Disconnected,
        ensures
            final(self).state is Connecting,
            final(self).config == old(self).config,
            final(self).retry == old(self).retry,
            final(self).generation == old(self).generation,
            action == (Action::Connect { delay_s: 0u64 }),
    {
        self.state = LifecycleState::Connecting;
        Action::Connect { delay_s: 0 }
    }

    /// Feeds one event to the worker and returns what it orders next.
    /// The whole transition relation is [`spec_step`].
    pub fn step(&mut self, ev: Event) -> (action: Action)
        requires
            old(self).wf(),
            old(self).accepts(ev),
            old(self).generation < u64::MAX,
            old(self).retry.attempt < u64::MAX,
        ensures
            *final(self) == spec_step(*old(self), ev).0,
            action == spec_step(*old(self), ev).1,
            final(self).wf(),
    {
        proof {
            crate::backoff::lemma_next_delay_bounded(
                self.retry.attempt as nat,
                self.config.retry_step_count as nat,
                self.config.retry_step_increment_s as nat,
                self.config.max_retry_delay_s as nat,
            );
        }
        match ev {
            Event::ConnectSucceeded => {
                let settling: bool = match self.state {
                    LifecycleState::Reconnecting => true,
                    LifecycleState::Connecting => false,
                    _ => unreached(),
                };
                self.generation = self.generation + 1;
                self.state = LifecycleState::Connected { generation: self.generation };
                self.retry.reset();
                Action::Fetch {
                    generation: self.generation,
                    delay_ms: if settling {
                        RECONNECT_SETTLE_MS
                    } else {
                        0
                    },
                }
            },
            Event::ConnectFailed => {
                self.retry.record_failure(
                    self.config.retry_step_count,
                    self.config.retry_step_increment_s,
                    self.config.max_retry_delay_s,
                );
                Action::Connect { delay_s: self.retry.delay }
            },
            Event::FetchSucceeded => Action::Emit,
            Event::FetchFailed => {
                self.state = LifecycleState::Reconnecting;
                self.retry.reset();
                Action::Connect { delay_s: 0 }
            },
            Event::SinkSucceeded | Event::SinkFailed => {
                let generation: u64 = match self.state {
                    LifecycleState::Connected { generation } => generation,
                    _ => unreached(),
                };
                Action::Fetch { generation, delay_ms: self.config.poll_interval_ms }
            },
        }
    }
}

/// The worker's whole transition relation: from a worker and the event
/// it just observed to the worker afterwards and the action it orders.
pub open spec fn spec_step(w: Worker, ev: Event) -> (Worker, Action)
    recommends
        w.wf(),
        w.accepts(ev),
        w.generation < u64::MAX,
        w.retry.attempt < u64::MAX,
{
    match ev {
        Event::ConnectSucceeded => {
            let g = (w.generation + 1) as u64;
            let w2 = Worker {
                config: w.config,
                state: LifecycleState::Connected { generation: g },
                retry: RetryState { attempt: 1, delay: 0 },
                generation: g,
            };
            let settle = if w.state is Reconnecting {
                RECONNECT_SETTLE_MS
            } else {
                0
            };
            (w2, Action::Fetch { generation: g, delay_ms: settle })
        },
        Event::ConnectFailed => {
            let delay = spec_next_delay(
                w.retry.attempt as nat,
                w.config.retry_step_count as nat,
                w.config.retry_step_increment_s as nat,
                w.config.max_retry_delay_s as nat,
            ) as u64;
            let w2 = Worker {
                config: w.config,
                state: w.state,
                retry: RetryState { attempt: (w.retry.attempt + 1) as u64, delay },
                generation: w.generation,
            };
            (w2, Action::Connect { delay_s: delay })
        },
        Event::FetchSucceeded => (w, Action::Emit),
        Event::FetchFailed => {
            let w2 = Worker {
                config: w.config,
                state: LifecycleState::Reconnecting,
                retry: RetryState { attempt: 1, delay: 0 },
                generation: w.generation,
            };
            (w2, Action::Connect { delay_s: 0 })
        },
        Event::SinkSucceeded | Event::SinkFailed => {
            let g = match w.state {
                LifecycleState::Connected { generation } => generation,
                _ => 0,
            };
            (w, Action::Fetch { generation: g, delay_ms: w.config.poll_interval_ms })
        },
    }
}

/// The worker after a whole sequence of events.
pub open spec fn spec_run(w: Worker, evs: Seq<Event>) -> Worker
    decreases evs.len(),
{
    if evs.len() == 0 {
        w
    } else {
        spec_run(spec_step(w, evs[0]).0, evs.drop_first())
    }
}

/// Whether a sequence of events can actually be observed from `w`:
/// each event is one the worker at that point accepts, and the
/// counters stay below their machine limits.
pub open spec fn valid_trace(w: Worker, evs: Seq<Event>) -> bool
    decreases evs.len(),
{
    evs.len() == 0 || {
        &&& w.accepts(evs[0])
        &&& w.generation < u64::MAX
        &&& w.retry.attempt < u64::MAX
        &&& valid_trace(spec_step(w, evs[0]).0, evs.drop_first())
    }
}

/// Every successful (re)connect resets the retry state to a clean
/// slate, regardless of how long the prior failure streak was.
pub proof fn lemma_connect_success_resets_retry(w: Worker)
    requires
        w.state is Connecting || w.state is Reconnecting,
    ensures
        spec_step(w, Event::ConnectSucceeded).0.retry == (RetryState { attempt: 1u64, delay: 0u64 }),
{
}

/// A fetch failure always forces a full reconnect: the worker leaves
/// Connected for Reconnecting, starts a clean retry slate, and orders
/// a connect — never another fetch on the failed handle.
pub proof fn lemma_fetch_error_forces_reconnect(w: Worker)
    requires
        w.state matches LifecycleState::Connected { .. },
    ensures
        spec_step(w, Event::FetchFailed).0.state is Reconnecting,
        spec_step(w, Event::FetchFailed).0.retry == (RetryState { attempt: 1u64, delay: 0u64 }),
        spec_step(w, Event::FetchFailed).1 == (Action::Connect { delay_s: 0u64 }),
{
}

/// A sink failure during emit leaves the worker — connection state,
/// retry state, and handle — exactly as it was, and the worker's next
/// order is the next poll fetch at the configured cadence: polling
/// continues unaffected. A sink success does the same.
pub proof fn lemma_sink_error_leaves_worker(w: Worker, g: u64, ev: Event)
    requires
        w.wf(),
        w.state == (LifecycleState::Connected { generation: g }),
        ev is SinkSucceeded || ev is SinkFailed,
    ensures
        spec_step(w, ev).0 == w,
        spec_step(w, ev).1 == (Action::Fetch { generation: g, delay_ms: w.config.poll_interval_ms }),
{
}

/// The freshness invariant carried through a run: the worker has
/// issued handles beyond generation `g`, and any live handle is newer
/// than `g`.
pub open spec fn handle_newer_than(w: Worker, g: u64) -> bool {
    &&& w.generation >= g
    &&& (w.state matches LifecycleState::Connected { generation } ==> generation == w.generation
        && generation > g)
}

/// One step preserves the freshness invariant.
pub proof fn lemma_step_preserves_newer_than(w: Worker, g: u64, ev: Event)
    requires
        handle_newer_than(w, g),
        w.generation < u64::MAX,
    ensures
        handle_newer_than(spec_step(w, ev).0, g),
{
}

/// A whole valid run preserves the freshness invariant.
pub proof fn lemma_run_preserves_newer_than(w: Worker, g: u64, evs: Seq<Event>)
    requires
        handle_newer_than(w, g),
        valid_trace(w, evs),
    ensures
        handle_newer_than(spec_run(w, evs), g),
    decreases evs.len(),
{
    if evs.len() > 0 {
        lemma_step_preserves_newer_than(w, g, evs[0]);
        lemma_run_preserves_newer_than(spec_step(w, evs[0]).0, g, evs.drop_first());
    }
}

/// Once a fetch failure discards the handle of generation `g`, no
/// fetch the worker ever orders again names that handle: however the
/// run continues, every later fetch uses a strictly newer generation.
pub proof fn lemma_discarded_handle_never_fetched(w: Worker, g: u64, evs: Seq<Event>, ev: Event)
    requires
        w.wf(),
        w.state == (LifecycleState::Connected { generation: g }),
        valid_trace(spec_step(w, Event::FetchFailed).0, evs),
        spec_run(spec_step(w, Event::FetchFailed).0, evs).accepts(ev),
        spec_run(spec_step(w, Event::FetchFailed).0, evs).generation < u64::MAX,
    ensures
        (spec_step(spec_run(spec_step(w, Event::FetchFailed).0, evs), ev).1 matches Action::Fetch {
            generation: g2,
            ..
        } ==> g2 > g),
{
    let w0 = spec_step(w, Event::FetchFailed).0;
    assert(handle_newer_than(w0, g));
    lemma_run_preserves_newer_than(w0, g, evs);
}

} // verus!
