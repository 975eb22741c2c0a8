//! The heartbeat: the worker tells the coordinator what it offers, but only
//! when that has changed, and not while the coordinator keeps failing.
//!
//! The loop itself waits, fetches and sends elsewhere. Here are its
//! decisions. Every `now` counts milliseconds on one clock that never runs
//! backwards.

use crate::shared::circuit_breaker::{BreakerModel, CircuitBreaker};
use crate::shared::errors::{TroopError, CIRCUIT_BREAKER_THRESHOLD, CIRCUIT_BREAKER_TIMEOUT};
use crate::shared::http::{is_success, success};
use crate::shared::models::{EngineInfo, HardwareInfo, NodeHeartbeat, NodeStatus};
use crate::text::join2;
use crate::worker::engines::routes::texts;
use crate::worker::engines::{
    build_model_registry, failure_of, registry_from_reports, reports_of, serves_any,
    EngineDriver, EngineReport, ModelRegistry,
};
use vstd::prelude::*;

verus! {

/// Milliseconds in a second.
pub const MILLIS_PER_SECOND: u64 = 1000;

/// Whether two lists of engines differ: in length, or at some place in
/// type, version or port.
pub open spec fn engines_differ(engines: Seq<EngineInfo>, last: Seq<EngineInfo>) -> bool {
    engines.len() != last.len() || exists|i: int|
        0 <= i < engines.len() && !(#[trigger] engines[i]).same_as(last[i])
}

/// Whether a heartbeat is due: the models are not those last sent, or the
/// engines differ from those last sent.
pub open spec fn heartbeat_due(
    models: Seq<Seq<char>>,
    last_models: Seq<Seq<char>>,
    engines: Seq<EngineInfo>,
    last_engines: Seq<EngineInfo>,
) -> bool {
    models != last_models || engines_differ(engines, last_engines)
}

/// Whether two lists of names differ.
pub fn models_changed(models: &[String], last: &[String]) -> (r: bool)
    ensures
        r == (texts(models@) != texts(last@)),
{
    if models.len() != last.len() {
        assert(texts(models@).len() != texts(last@).len());
        return true;
    }
    let mut i: usize = 0;
    while i < models.len()
        invariant
            i <= models@.len() == last@.len(),
            forall|j: int| 0 <= j < i ==> (#[trigger] models@[j])@ == last@[j]@,
        decreases models.len() - i,
    {
        if models[i] != last[i] {
            assert(texts(models@)[i as int] != texts(last@)[i as int]);
            return true;
        }
        i += 1;
    }
    assert(texts(models@) =~= texts(last@));
    false
}

/// Whether two lists of engines differ.
pub fn engines_changed(engines: &[EngineInfo], last: &[EngineInfo]) -> (r: bool)
    ensures
        r == engines_differ(engines@, last@),
{
    if engines.len() != last.len() {
        return true;
    }
    let mut i: usize = 0;
    while i < engines.len()
        invariant
            i <= engines@.len() == last@.len(),
            forall|j: int| 0 <= j < i ==> (#[trigger] engines@[j]).same_as(last@[j]),
        decreases engines.len() - i,
    {
        if !engines[i].matches(&last[i]) {
            return true;
        }
        i += 1;
    }
    false
}

/// Whether a heartbeat is due.
pub fn heartbeat_needed(
    models: &[String],
    last_models: &[String],
    engines: &[EngineInfo],
    last_engines: &[EngineInfo],
) -> (r: bool)
    ensures
        r == heartbeat_due(texts(models@), texts(last_models@), engines@, last_engines@),
{
    let models_differ = models_changed(models, last_models);
    let engines_differ = engines_changed(engines, last_engines);
    models_differ || engines_differ
}

/// The status to report: idle where the probe found the node idle, busy
/// where it found it busy or could not tell.
pub fn status_from_probe(idle: Option<bool>) -> (s: NodeStatus)
    ensures
        s == if idle == Some(true) {
            NodeStatus::Idle
        } else {
            NodeStatus::Busy
        },
{
    match idle {
        Some(true) => NodeStatus::Idle,
        _ => NodeStatus::Busy,
    }
}

/// Whether a heartbeat reached the coordinator: it answered, and with a
/// status from 200 to 299. `answer` is `None` where the call timed out or no
/// connection could be made.
pub fn delivered(answer: Option<u16>) -> (r: bool)
    ensures
        r == match answer {
            Some(status) => success(status),
            None => false,
        },
{
    match answer {
        Some(status) => is_success(status),
        None => false,
    }
}

/// A list with the same names.
pub fn copy_names(names: &[String]) -> (r: Vec<String>)
    ensures
        r@ == names@,
{
    let mut r: Vec<String> = Vec::new();
    let mut i: usize = 0;
    while i < names.len()
        invariant
            i <= names@.len(),
            r@ == names@.take(i as int),
        decreases names.len() - i,
    {
        r.push(names[i].clone());
        assert(names@.take(i + 1) == names@.take(i as int).push(names@[i as int]));
        i += 1;
    }
    assert(names@.take(names@.len() as int) == names@);
    r
}

/// A list with the same engines.
pub fn copy_engines(engines: &[EngineInfo]) -> (r: Vec<EngineInfo>)
    ensures
        r@ == engines@,
{
    let mut r: Vec<EngineInfo> = Vec::new();
    let mut i: usize = 0;
    while i < engines.len()
        invariant
            i <= engines@.len(),
            r@ == engines@.take(i as int),
        decreases engines.len() - i,
    {
        r.push(engines[i].duplicate());
        assert(engines@.take(i + 1) == engines@.take(i as int).push(engines@[i as int]));
        i += 1;
    }
    assert(engines@.take(engines@.len() as int) == engines@);
    r
}

/// The heartbeat of the node `node_id` at `tailscale_ip`, with the models
/// and engines of `registry`.
pub fn compose_heartbeat(
    node_id: &str,
    tailscale_ip: &str,
    idle: Option<bool>,
    gpu: String,
    vram_free: u64,
    registry: &ModelRegistry,
) -> (hb: NodeHeartbeat)
    ensures
        hb.node_id@ == node_id@,
        hb.tailscale_ip@ == tailscale_ip@,
        hb.status == if idle == Some(true) {
            NodeStatus::Idle
        } else {
            NodeStatus::Busy
        },
        texts(hb.models@) == registry@.models,
        hb.hardware.gpu == gpu,
        hb.hardware.vram_free == vram_free,
        hb.engines@ == registry@.engines,
{
    NodeHeartbeat {
        node_id: node_id.to_owned(),
        tailscale_ip: tailscale_ip.to_owned(),
        status: status_from_probe(idle),
        models: copy_names(registry.models()),
        hardware: HardwareInfo { gpu, vram_free },
        engines: copy_engines(registry.engines()),
    }
}

/// Where heartbeats are sent.
pub fn heartbeat_url(coordinator_url: &str) -> (url: String)
    ensures
        url@ == coordinator_url@ + "/heartbeat"@,
{
    join2(coordinator_url, "/heartbeat")
}

/// Puts the registry of the engines that gave `reports` in the place of
/// `current`. Where there are no reports, or no engine lists a model,
/// `current` stays as it is.
pub fn replace_registry(current: &mut ModelRegistry, reports: &Vec<EngineReport>) -> (res: Result<
    (),
    TroopError,
>)
    ensures
        match res {
            Ok(_) => final(current)@.is_registry_of(reports@) && serves_any(reports@),
            Err(e) => {
                &&& *final(current) == *old(current)
                &&& !serves_any(reports@)
                &&& e.is_internal(
                    if reports@.len() == 0 {
                        "No engines detected"@
                    } else {
                        "No models found in any engine"@
                    },
                )
            },
        },
{
    if reports.len() == 0 {
        return Err(TroopError::InternalError("No engines detected".to_owned()));
    }
    match registry_from_reports(reports) {
        Ok(registry) => {
            *current = registry;
            Ok(())
        },
        Err(e) => Err(e),
    }
}

/// Asks the engines that were found and puts their registry in the place
/// of `current`. Where no engine was found, an engine fails, or none lists
/// a model, `current` stays as it is.
pub fn refresh_model_registry<D: EngineDriver>(current: &mut ModelRegistry, found: &[D]) -> (res:
    Result<(), TroopError>)
    ensures
        match res {
            Ok(_) => exists|reports: Seq<EngineReport>|
                reports_of(reports, found@) && #[trigger] final(current)@.is_registry_of(reports)
                    && serves_any(reports),
            Err(e) => {
                &&& *final(current) == *old(current)
                &&& if found@.len() == 0 {
                    e.is_internal("No engines detected"@)
                } else {
                    e.is_internal("No models found in any engine"@) || failure_of(e, found@)
                }
            },
        },
{
    if found.len() == 0 {
        return Err(TroopError::InternalError("No engines detected".to_owned()));
    }
    match build_model_registry(found) {
        Ok(registry) => {
            *current = registry;
            Ok(())
        },
        Err(e) => Err(e),
    }
}

// ---------------------------------------------------------------------------
// The loop

/// What to do in a cycle of the loop.
#[derive(Debug, Clone, Copy, PartialEq, Eq, Structural)]
pub enum HeartbeatAction {
    /// The circuit breaker holds the heartbeat back.
    Skip,
    /// Nothing has changed since the last heartbeat: none is sent.
    Unchanged,
    /// Send a heartbeat.
    Send,
}

/// The state of the loop as the contracts see it.
pub struct HeartbeatModel {
    pub breaker: BreakerModel,
    /// The models of the last heartbeat that was sent.
    pub last_models: Seq<Seq<char>>,
    /// The engines of the last heartbeat that was sent.
    pub last_engines: Seq<EngineInfo>,
    /// When the registry was last refreshed.
    pub last_refresh: nat,
    /// Seconds from one refresh of the registry to the next.
    pub refresh_interval: nat,
}

impl HeartbeatModel {
    /// Whole seconds since the registry was last refreshed.
    pub open spec fn seconds_since_refresh(self, now: nat) -> nat {
        if now >= self.last_refresh {
            ((now - self.last_refresh) / MILLIS_PER_SECOND as int) as nat
        } else {
            0
        }
    }

    /// Whether the registry is to be refreshed at `now`.
    pub open spec fn refresh_due(self, now: nat) -> bool {
        self.seconds_since_refresh(now) >= self.refresh_interval
    }

    /// What to do at `now`, where the registry holds `models` and `engines`.
    pub open spec fn action(self, now: nat, models: Seq<Seq<char>>, engines: Seq<EngineInfo>) -> HeartbeatAction {
        if !self.breaker.allows(now) {
            HeartbeatAction::Skip
        } else if heartbeat_due(models, self.last_models, engines, self.last_engines) {
            HeartbeatAction::Send
        } else {
            HeartbeatAction::Unchanged
        }
    }

    /// The state after the decision at `now`. The breaker was asked. Where
    /// nothing has changed the cycle counts as a success.
    pub open spec fn after_action(
        self,
        now: nat,
        models: Seq<Seq<char>>,
        engines: Seq<EngineInfo>,
    ) -> HeartbeatModel {
        let asked = self.breaker.after_allow(now);
        HeartbeatModel {
            breaker: if self.action(now, models, engines) is Unchanged {
                asked.after_success()
            } else {
                asked
            },
            ..self
        }
    }
}

/// The state of the heartbeat loop.
pub struct HeartbeatLoop {
    breaker: CircuitBreaker,
    last_models: Vec<String>,
    last_engines: Vec<EngineInfo>,
    last_model_refresh: u64,
    model_refresh_interval: u64,
}

impl View for HeartbeatLoop {
    type V = HeartbeatModel;

    closed spec fn view(&self) -> HeartbeatModel {
        HeartbeatModel {
            breaker: self.breaker@,
            last_models: texts(self.last_models@),
            last_engines: self.last_engines@,
            last_refresh: self.last_model_refresh as nat,
            refresh_interval: self.model_refresh_interval as nat,
        }
    }
}

impl HeartbeatLoop {
    /// The state of a loop that starts at `now`: nothing was sent yet, the
    /// registry counts as fresh, and the breaker is closed.
    pub fn new(model_refresh_interval: u64, now: u64) -> (l: HeartbeatLoop)
        ensures
            l@.breaker == BreakerModel::fresh(
                CIRCUIT_BREAKER_THRESHOLD as nat,
                (CIRCUIT_BREAKER_TIMEOUT * MILLIS_PER_SECOND) as nat,
            ),
            l@.last_models == Seq::<Seq<char>>::empty(),
            l@.last_engines == Seq::<EngineInfo>::empty(),
            l@.last_refresh == now,
            l@.refresh_interval == model_refresh_interval,
    {
        let l = HeartbeatLoop {
            breaker: CircuitBreaker::new(
                CIRCUIT_BREAKER_THRESHOLD,
                CIRCUIT_BREAKER_TIMEOUT * MILLIS_PER_SECOND,
            ),
            last_models: Vec::new(),
            last_engines: Vec::new(),
            last_model_refresh: now,
            model_refresh_interval,
        };
        assert(texts(l.last_models@) =~= Seq::<Seq<char>>::empty());
        l
    }

    /// Whether the registry is to be refreshed at `now`.
    pub fn refresh_due(&self, now: u64) -> (r: bool)
        ensures
            r == self@.refresh_due(now as nat),
    {
        let elapsed: u64 = if now >= self.last_model_refresh {
            now - self.last_model_refresh
        } else {
            0
        };
        elapsed / MILLIS_PER_SECOND >= self.model_refresh_interval
    }

    /// Notes that the registry was refreshed at `now`.
    pub fn refreshed(&mut self, now: u64)
        ensures
            final(self)@ == (HeartbeatModel { last_refresh: now as nat, ..old(self)@ }),
    {
        self.last_model_refresh = now;
    }

    /// What to do at `now`. A heartbeat is to be sent if and only if the
    /// breaker lets it through and the models or engines of `registry` are
    /// not those last sent.
    pub fn next_action(&mut self, now: u64, registry: &ModelRegistry) -> (action: HeartbeatAction)
        ensures
            action == old(self)@.action(now as nat, registry@.models, registry@.engines),
            final(self)@ == old(self)@.after_action(now as nat, registry@.models, registry@.engines),
    {
        if !self.breaker.allow_request(now) {
            return HeartbeatAction::Skip;
        }
        if heartbeat_needed(
            registry.models(),
            self.last_models.as_slice(),
            registry.engines(),
            self.last_engines.as_slice(),
        ) {
            HeartbeatAction::Send
        } else {
            self.breaker.record_success();
            HeartbeatAction::Unchanged
        }
    }

    /// Notes that `sent` reached the coordinator: its models and engines
    /// are now those last sent, and the breaker sees a success.
    pub fn send_succeeded(&mut self, sent: &NodeHeartbeat)
        ensures
            final(self)@ == (HeartbeatModel {
                breaker: old(self)@.breaker.after_success(),
                last_models: texts(sent.models@),
                last_engines: sent.engines@,
                ..old(self)@
            }),
    {
        self.last_models = copy_names(sent.models.as_slice());
        self.last_engines = copy_engines(sent.engines.as_slice());
        self.breaker.record_success();
    }

    /// Notes that a heartbeat did not reach the coordinator at `now`: the
    /// breaker sees a failure, and what was last sent stays.
    pub fn send_failed(&mut self, now: u64)
        requires
            old(self)@.breaker.failures < u32::MAX,
        ensures
            final(self)@ == (HeartbeatModel {
                breaker: old(self)@.breaker.after_failure(now as nat),
                ..old(self)@
            }),
    {
        self.breaker.record_failure(now);
    }

    /// Failures of the coordinator since the last success.
    pub fn failures(&self) -> (n: u32)
        ensures
            n == self@.breaker.failures,
    {
        self.breaker.failure_count()
    }
}

/// Two cycles over a registry that stays the same send one heartbeat at
/// most: once a heartbeat with the models and engines of the registry has
/// been sent, no further one is due.
pub proof fn law_unchanged_is_silent(
    state: HeartbeatModel,
    now: nat,
    models: Seq<Seq<char>>,
    engines: Seq<EngineInfo>,
)
    requires
        state.last_models == models,
        state.last_engines == engines,
    ensures
        !(state.action(now, models, engines) is Send),
        !(state.after_action(now, models, engines).action(now, models, engines) is Send),
{
}

} // verus!
