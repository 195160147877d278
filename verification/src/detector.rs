//! Snapshot normalization and the transition detector.

use crate::state::{DeploymentState, DeploymentStateView, StateManager};
use vstd::prelude::*;
use vstd::string::StringExecFns;

verus! {

/// A raw deployment snapshot as the feed delivers it: every sub-field may
/// be missing. `pod_template` carries the serialized pod template content
/// used as the template fingerprint.
pub struct RawSnapshot {
    pub namespace: Option<String>,
    pub name: Option<String>,
    pub generation: Option<i64>,
    pub replicas: Option<i32>,
    pub ready_replicas: Option<i32>,
    pub available_replicas: Option<i32>,
    pub updated_replicas: Option<i32>,
    pub observed_generation: Option<i64>,
    pub pod_template: Option<String>,
}

/// The fully-defaulted state a raw snapshot normalizes to: a missing
/// desired-replica count becomes 1, missing counters become 0, missing
/// strings become empty. Bookkeeping fields start at 0 and are settled by
/// the detector.
pub open spec fn spec_normalized(raw: RawSnapshot) -> DeploymentStateView {
    DeploymentStateView {
        namespace: match raw.namespace {
            Some(s) => s@,
            None => Seq::empty(),
        },
        name: match raw.name {
            Some(s) => s@,
            None => Seq::empty(),
        },
        generation: match raw.generation {
            Some(g) => g as int,
            None => 0,
        },
        replicas: match raw.replicas {
            Some(r) => r as int,
            None => 1,
        },
        ready_replicas: match raw.ready_replicas {
            Some(r) => r as int,
            None => 0,
        },
        available_replicas: match raw.available_replicas {
            Some(r) => r as int,
            None => 0,
        },
        updated_replicas: match raw.updated_replicas {
            Some(r) => r as int,
            None => 0,
        },
        observed_generation: match raw.observed_generation {
            Some(g) => g as int,
            None => 0,
        },
        pod_template_hash: match raw.pod_template {
            Some(t) => t@,
            None => Seq::empty(),
        },
        last_completed_generation: 0,
        last_scaled_replicas: 0,
    }
}

/// Normalizes a raw snapshot, defaulting every missing field; never fails.
pub fn extract_deployment_state(raw: &RawSnapshot) -> (st: DeploymentState)
    ensures
        st@ == spec_normalized(*raw),
{
    let st = DeploymentState {
        namespace: match &raw.namespace {
            Some(s) => s.clone(),
            None => String::new(),
        },
        name: match &raw.name {
            Some(s) => s.clone(),
            None => String::new(),
        },
        generation: match raw.generation {
            Some(g) => g,
            None => 0,
        },
        replicas: match raw.replicas {
            Some(r) => r,
            None => 1,
        },
        ready_replicas: match raw.ready_replicas {
            Some(r) => r,
            None => 0,
        },
        available_replicas: match raw.available_replicas {
            Some(r) => r,
            None => 0,
        },
        updated_replicas: match raw.updated_replicas {
            Some(r) => r,
            None => 0,
        },
        observed_generation: match raw.observed_generation {
            Some(g) => g,
            None => 0,
        },
        pod_template_hash: match &raw.pod_template {
            Some(t) => t.clone(),
            None => String::new(),
        },
        last_completed_generation: 0,
        last_scaled_replicas: 0,
    };
    proof {
        assert(st@ =~= spec_normalized(*raw));
    }
    st
}

/// Namespace part of the canonical key; a missing namespace reads as
/// `"default"`.
pub open spec fn spec_key_namespace(raw: RawSnapshot) -> Seq<char> {
    match raw.namespace {
        Some(s) => s@,
        None => "default"@,
    }
}

/// Name part of the canonical key; a missing name reads as `"unknown"`.
pub open spec fn spec_key_name(raw: RawSnapshot) -> Seq<char> {
    match raw.name {
        Some(s) => s@,
        None => "unknown"@,
    }
}

/// Canonical per-resource key: `"namespace/name"`.
pub open spec fn spec_key(raw: RawSnapshot) -> Seq<char> {
    spec_key_namespace(raw) + "/"@ + spec_key_name(raw)
}

/// Builds the canonical `"namespace/name"` key of a snapshot.
pub fn resource_key(raw: &RawSnapshot) -> (key: String)
    ensures
        key@ == spec_key(*raw),
{
    let mut key: String = match &raw.namespace {
        Some(s) => s.clone(),
        None => "default".to_owned(),
    };
    key.append("/");
    match &raw.name {
        Some(s) => key.append(s.as_str()),
        None => key.append("unknown"),
    }
    key
}

/// Mathematical model of a [`DeploymentEvent`].
#[verifier::ext_equal]
pub enum DeploymentEventView {
    DeploymentStarted {
        namespace: Seq<char>,
        name: Seq<char>,
        old_generation: int,
        new_generation: int,
        old_replicas: Option<int>,
        new_replicas: Option<int>,
    },
    DeploymentCompleted {
        namespace: Seq<char>,
        name: Seq<char>,
        generation: int,
        replicas: int,
        replica_changed: Option<(int, int)>,
    },
    ReplicaScaleStarted {
        namespace: Seq<char>,
        name: Seq<char>,
        old_replicas: int,
        new_replicas: int,
    },
    ReplicaScaleCompleted {
        namespace: Seq<char>,
        name: Seq<char>,
        replicas: int,
    },
}

/// A lifecycle event derived from one observation of a deployment.
///
/// `DeploymentStarted`/`DeploymentCompleted` describe a rollout (template
/// change); `ReplicaScaleStarted`/`ReplicaScaleCompleted` describe a pure
/// replica-count change. Replica pairs are `(old, new)`.
#[derive(Debug, PartialEq, Eq)]
pub enum DeploymentEvent {
    DeploymentStarted {
        namespace: String,
        name: String,
        old_generation: i64,
        new_generation: i64,
        old_replicas: Option<i32>,
        new_replicas: Option<i32>,
    },
    DeploymentCompleted {
        namespace: String,
        name: String,
        generation: i64,
        replicas: i32,
        replica_changed: Option<(i32, i32)>,
    },
    ReplicaScaleStarted {
        namespace: String,
        name: String,
        old_replicas: i32,
        new_replicas: i32,
    },
    ReplicaScaleCompleted {
        namespace: String,
        name: String,
        replicas: i32,
    },
}

impl View for DeploymentEvent {
    type V = DeploymentEventView;

    open spec fn view(&self) -> DeploymentEventView {
        match *self {
            DeploymentEvent::DeploymentStarted {
                ref namespace,
                ref name,
                old_generation,
                new_generation,
                old_replicas,
                new_replicas,
            } => DeploymentEventView::DeploymentStarted {
                namespace: namespace@,
                name: name@,
                old_generation: old_generation as int,
                new_generation: new_generation as int,
                old_replicas: match old_replicas {
                    Some(r) => Some(r as int),
                    None => None,
                },
                new_replicas: match new_replicas {
                    Some(r) => Some(r as int),
                    None => None,
                },
            },
            DeploymentEvent::DeploymentCompleted {
                ref namespace,
                ref name,
                generation,
                replicas,
                replica_changed,
            } => DeploymentEventView::DeploymentCompleted {
                namespace: namespace@,
                name: name@,
                generation: generation as int,
                replicas: replicas as int,
                replica_changed: match replica_changed {
                    Some((a, b)) => Some((a as int, b as int)),
                    None => None,
                },
            },
            DeploymentEvent::ReplicaScaleStarted {
                ref namespace,
                ref name,
                old_replicas,
                new_replicas,
            } => DeploymentEventView::ReplicaScaleStarted {
                namespace: namespace@,
                name: name@,
                old_replicas: old_replicas as int,
                new_replicas: new_replicas as int,
            },
            DeploymentEvent::ReplicaScaleCompleted {
                ref namespace,
                ref name,
                replicas,
            } => DeploymentEventView::ReplicaScaleCompleted {
                namespace: namespace@,
                name: name@,
                replicas: replicas as int,
            },
        }
    }
}

impl DeepView for DeploymentEvent {
    type V = DeploymentEventView;

    open spec fn deep_view(&self) -> DeploymentEventView {
        self.view()
    }
}

/// A rollout is complete when the controller has observed the current
/// generation and every status counter has reached the desired count.
pub open spec fn spec_deployment_complete(s: DeploymentStateView) -> bool {
    s.observed_generation == s.generation && s.ready_replicas == s.replicas
        && s.available_replicas == s.replicas && s.updated_replicas == s.replicas
}

/// Whether the state counts as a completed rollout.
pub fn is_deployment_complete(state: &DeploymentState) -> (r: bool)
    ensures
        r == spec_deployment_complete(state@),
{
    state.observed_generation == state.generation && state.ready_replicas == state.replicas
        && state.available_replicas == state.replicas && state.updated_replicas == state.replicas
}

/// The desired replica count is fully ready and available.
pub open spec fn spec_replicas_ready(s: DeploymentStateView) -> bool {
    s.ready_replicas == s.replicas && s.available_replicas == s.replicas
}

/// Whether every desired replica is ready and available.
pub fn is_replicas_ready(state: &DeploymentState) -> (r: bool)
    ensures
        r == spec_replicas_ready(state@),
{
    state.ready_replicas == state.replicas && state.available_replicas == state.replicas
}

/// The desired replica count changed between the stored and the new state.
pub open spec fn spec_is_replica_change(p: DeploymentStateView, c: DeploymentStateView) -> bool {
    c.replicas != p.replicas
}

/// The generation counter moved forward: the spec was edited.
pub open spec fn spec_is_generation_bump(p: DeploymentStateView, c: DeploymentStateView) -> bool {
    c.generation > p.generation
}

/// The pod template fingerprint changed: the change affects the template.
pub open spec fn spec_is_template_change(p: DeploymentStateView, c: DeploymentStateView) -> bool {
    c.pod_template_hash != p.pod_template_hash
}

/// The new snapshot with the bookkeeping fields carried over from the
/// stored state.
pub open spec fn spec_carried(p: DeploymentStateView, c: DeploymentStateView) -> DeploymentStateView {
    DeploymentStateView {
        last_completed_generation: p.last_completed_generation,
        last_scaled_replicas: p.last_scaled_replicas,
        ..c
    }
}

/// First-ever observation of a key: record the current generation and
/// replica count as already completed, so nothing fires spuriously later.
pub open spec fn spec_bootstrap(c: DeploymentStateView) -> DeploymentStateView {
    DeploymentStateView {
        last_completed_generation: c.generation,
        last_scaled_replicas: c.replicas,
        ..c
    }
}

/// State after start classification: a rollout start absorbs a simultaneous
/// replica change into `last_scaled_replicas`; a generation bump without a
/// template change is only a scale, so its generation is recorded as
/// completed at once.
pub open spec fn spec_after_start(p: DeploymentStateView, c: DeploymentStateView) -> DeploymentStateView {
    let s = spec_carried(p, c);
    if spec_is_generation_bump(p, c) {
        if spec_is_template_change(p, c) {
            if spec_is_replica_change(p, c) {
                DeploymentStateView { last_scaled_replicas: c.replicas, ..s }
            } else {
                s
            }
        } else {
            DeploymentStateView { last_completed_generation: c.generation, ..s }
        }
    } else {
        s
    }
}

/// Rollout completion fires when the snapshot is complete and its
/// generation is newer than the completed generation as it stood at the
/// start of the observation.
pub open spec fn spec_rollout_completes(p: DeploymentStateView, c: DeploymentStateView) -> bool {
    spec_deployment_complete(c) && c.generation > p.last_completed_generation
}

/// State after rollout-completion handling.
pub open spec fn spec_after_completion(p: DeploymentStateView, c: DeploymentStateView) -> DeploymentStateView {
    let s = spec_after_start(p, c);
    if spec_rollout_completes(p, c) {
        DeploymentStateView { last_completed_generation: c.generation, ..s }
    } else {
        s
    }
}

/// Scale completion fires only when no rollout is outstanding: the replica
/// count differs from the last one signaled, the replicas are ready, and
/// the generation is observed and recorded as completed, judged on the
/// bookkeeping as updated within this same observation.
pub open spec fn spec_scale_completes(p: DeploymentStateView, c: DeploymentStateView) -> bool {
    let s = spec_after_completion(p, c);
    c.replicas != s.last_scaled_replicas && spec_replicas_ready(c) && c.observed_generation
        == c.generation && c.generation == s.last_completed_generation
}

/// The stored state after one observation against stored state `p`.
pub open spec fn spec_step_state(p: DeploymentStateView, c: DeploymentStateView) -> DeploymentStateView {
    let s = spec_after_completion(p, c);
    if spec_scale_completes(p, c) {
        DeploymentStateView { last_scaled_replicas: c.replicas, ..s }
    } else {
        s
    }
}

/// The events one observation emits, in their fixed order: rollout started,
/// rollout completed, scale started, scale completed. A rollout start
/// subsumes the scale start of the same generation bump.
pub open spec fn spec_step_events(
    p: DeploymentStateView,
    c: DeploymentStateView,
    namespace: Seq<char>,
    name: Seq<char>,
) -> Seq<DeploymentEventView> {
    let started: Seq<DeploymentEventView> = if spec_is_generation_bump(p, c)
        && spec_is_template_change(p, c) {
        seq![
            DeploymentEventView::DeploymentStarted {
                namespace,
                name,
                old_generation: p.generation,
                new_generation: c.generation,
                old_replicas: if spec_is_replica_change(p, c) {
                    Some(p.replicas)
                } else {
                    None
                },
                new_replicas: if spec_is_replica_change(p, c) {
                    Some(c.replicas)
                } else {
                    None
                },
            },
        ]
    } else {
        Seq::empty()
    };
    let completed: Seq<DeploymentEventView> = if spec_rollout_completes(p, c) {
        seq![
            DeploymentEventView::DeploymentCompleted {
                namespace,
                name,
                generation: c.generation,
                replicas: c.replicas,
                replica_changed: if spec_is_generation_bump(p, c) && spec_is_replica_change(p, c) {
                    Some((p.replicas, c.replicas))
                } else {
                    None
                },
            },
        ]
    } else {
        Seq::empty()
    };
    let scale_started: Seq<DeploymentEventView> = if (spec_is_generation_bump(p, c)
        && !spec_is_template_change(p, c)) || (!spec_is_generation_bump(p, c)
        && spec_is_replica_change(p, c)) {
        seq![
            DeploymentEventView::ReplicaScaleStarted {
                namespace,
                name,
                old_replicas: p.replicas,
                new_replicas: c.replicas,
            },
        ]
    } else {
        Seq::empty()
    };
    let scale_completed: Seq<DeploymentEventView> = if spec_scale_completes(p, c) {
        seq![DeploymentEventView::ReplicaScaleCompleted { namespace, name, replicas: c.replicas }]
    } else {
        Seq::empty()
    };
    started + completed + scale_started + scale_completed
}

/// The stored state under a key, if the key has been seen.
pub open spec fn spec_prev_of(
    m: Map<Seq<char>, DeploymentStateView>,
    k: Seq<char>,
) -> Option<DeploymentStateView> {
    if m.contains_key(k) {
        Some(m[k])
    } else {
        None
    }
}

/// The state written back by one observation: bootstrap on first sight,
/// otherwise the transition rules.
pub open spec fn spec_next_stored(
    prev: Option<DeploymentStateView>,
    c: DeploymentStateView,
) -> DeploymentStateView {
    match prev {
        None => spec_bootstrap(c),
        Some(p) => spec_step_state(p, c),
    }
}

/// The events one observation emits: none on first sight, otherwise what
/// the transition rules fire.
pub open spec fn spec_emitted(
    prev: Option<DeploymentStateView>,
    c: DeploymentStateView,
    namespace: Seq<char>,
    name: Seq<char>,
) -> Seq<DeploymentEventView> {
    match prev {
        None => Seq::empty(),
        Some(p) => spec_step_events(p, c, namespace, name),
    }
}

/// The store model after one raw snapshot has been observed.
pub open spec fn spec_observe(
    m: Map<Seq<char>, DeploymentStateView>,
    raw: RawSnapshot,
) -> Map<Seq<char>, DeploymentStateView> {
    m.insert(
        spec_key(raw),
        spec_next_stored(spec_prev_of(m, spec_key(raw)), spec_normalized(raw)),
    )
}

/// Processes one observation: normalizes the snapshot, compares it with the
/// stored previous state of the same resource, emits the derived events in
/// their fixed order, and writes the updated state back. The state is
/// written exactly once, whether or not any event fired; a first-ever
/// observation only bootstraps the bookkeeping and emits nothing.
pub fn detect_changes(snapshot: &RawSnapshot, state_manager: &mut StateManager) -> (events: Vec<
    DeploymentEvent,
>)
    ensures
        final(state_manager)@ == spec_observe(old(state_manager)@, *snapshot),
        events.deep_view() == spec_emitted(
            spec_prev_of(old(state_manager)@, spec_key(*snapshot)),
            spec_normalized(*snapshot),
            spec_key_namespace(*snapshot),
            spec_key_name(*snapshot),
        ),
{
    let ghost c0 = spec_normalized(*snapshot);
    let ghost pv = spec_prev_of(old(state_manager)@, spec_key(*snapshot));
    let mut events: Vec<DeploymentEvent> = Vec::new();

    let namespace: String = match &snapshot.namespace {
        Some(s) => s.clone(),
        None => "default".to_owned(),
    };
    let name: String = match &snapshot.name {
        Some(s) => s.clone(),
        None => "unknown".to_owned(),
    };
    let mut key: String = namespace.clone();
    key.append("/");
    key.append(name.as_str());

    let mut current = extract_deployment_state(snapshot);
    let previous = state_manager.get(key.as_str());

    match previous {
        None => {
            current.last_completed_generation = current.generation;
            current.last_scaled_replicas = current.replicas;
            proof {
                assert(current@ =~= spec_next_stored(pv, c0));
            }
        },
        Some(prev) => {
            current.last_completed_generation = prev.last_completed_generation;
            current.last_scaled_replicas = prev.last_scaled_replicas;

            let is_replica_change = current.replicas != prev.replicas;
            let is_generation_bump = current.generation > prev.generation;
            let is_template_change = current.pod_template_hash != prev.pod_template_hash;
            let rollout_completes = is_deployment_complete(&current) && current.generation
                > prev.last_completed_generation;

            if is_generation_bump && is_template_change {
                let (old_replicas, new_replicas) = if is_replica_change {
                    (Some(prev.replicas), Some(current.replicas))
                } else {
                    (None, None)
                };
                events.push(
                    DeploymentEvent::DeploymentStarted {
                        namespace: namespace.clone(),
                        name: name.clone(),
                        old_generation: prev.generation,
                        new_generation: current.generation,
                        old_replicas,
                        new_replicas,
                    },
                );
                if is_replica_change {
                    // The replica change rides along with the rollout; it
                    // must not fire a scale completion of its own later.
                    current.last_scaled_replicas = current.replicas;
                }
            } else if is_generation_bump {
                // A generation bump without a template change was only a
                // scale: record the generation as completed right away.
                current.last_completed_generation = current.generation;
            }

            if rollout_completes {
                let replica_changed = if is_generation_bump && is_replica_change {
                    Some((prev.replicas, current.replicas))
                } else {
                    None
                };
                events.push(
                    DeploymentEvent::DeploymentCompleted {
                        namespace: namespace.clone(),
                        name: name.clone(),
                        generation: current.generation,
                        replicas: current.replicas,
                        replica_changed,
                    },
                );
                current.last_completed_generation = current.generation;
            }

            if (is_generation_bump && !is_template_change) || (!is_generation_bump
                && is_replica_change) {
                events.push(
                    DeploymentEvent::ReplicaScaleStarted {
                        namespace: namespace.clone(),
                        name: name.clone(),
                        old_replicas: prev.replicas,
                        new_replicas: current.replicas,
                    },
                );
            }

            let scale_completes = current.replicas != current.last_scaled_replicas
                && is_replicas_ready(&current) && current.observed_generation
                == current.generation && current.generation == current.last_completed_generation;
            if scale_completes {
                events.push(
                    DeploymentEvent::ReplicaScaleCompleted {
                        namespace: namespace.clone(),
                        name: name.clone(),
                        replicas: current.replicas,
                    },
                );
                current.last_scaled_replicas = current.replicas;
            }
            proof {
                assert(current@ =~= spec_next_stored(pv, c0));
                assert(events.deep_view() =~= spec_emitted(
                    pv,
                    c0,
                    spec_key_namespace(*snapshot),
                    spec_key_name(*snapshot),
                ));
            }
        },
    }

    state_manager.update(key, current);
    proof {
        assert(state_manager@ =~= spec_observe(old(state_manager)@, *snapshot));
    }
    events
}

/// Bootstrap law: whatever the snapshot holds, the first observation of a
/// previously-unseen key emits no events and records the current generation
/// and replica count as already completed.
pub proof fn lemma_bootstrap(c: DeploymentStateView, namespace: Seq<char>, name: Seq<char>)
    ensures
        spec_emitted(None, c, namespace, name) == Seq::<DeploymentEventView>::empty(),
        spec_next_stored(None, c).last_completed_generation == c.generation,
        spec_next_stored(None, c).last_scaled_replicas == c.replicas,
{
}

/// Idempotence law: after an observation has been applied, applying a
/// snapshot with the same observable fields once more emits no events and
/// leaves the stored state unchanged.
pub proof fn lemma_idempotent(
    p: DeploymentStateView,
    c: DeploymentStateView,
    namespace: Seq<char>,
    name: Seq<char>,
)
    ensures
        spec_step_events(spec_step_state(p, c), c, namespace, name) == Seq::<
            DeploymentEventView,
        >::empty(),
        spec_step_state(spec_step_state(p, c), c) == spec_step_state(p, c),
{
    let s = spec_step_state(p, c);
    assert(spec_step_events(s, c, namespace, name) =~= Seq::<DeploymentEventView>::empty());
    assert(spec_step_state(s, c) =~= s);
}

/// Idempotence law at the store: after a snapshot has been observed,
/// observing it once more emits no events and leaves the store unchanged.
pub proof fn lemma_observe_idempotent(m: Map<Seq<char>, DeploymentStateView>, raw: RawSnapshot)
    ensures
        spec_emitted(
            spec_prev_of(spec_observe(m, raw), spec_key(raw)),
            spec_normalized(raw),
            spec_key_namespace(raw),
            spec_key_name(raw),
        ) == Seq::<DeploymentEventView>::empty(),
        spec_observe(spec_observe(m, raw), raw) == spec_observe(m, raw),
{
    let k = spec_key(raw);
    let c = spec_normalized(raw);
    let ns = spec_key_namespace(raw);
    let nm = spec_key_name(raw);
    match spec_prev_of(m, k) {
        None => {
            assert(spec_step_events(spec_bootstrap(c), c, ns, nm) =~= Seq::<
                DeploymentEventView,
            >::empty());
            assert(spec_step_state(spec_bootstrap(c), c) =~= spec_bootstrap(c));
        },
        Some(p) => {
            lemma_idempotent(p, c, ns, nm);
        },
    }
    assert(spec_observe(spec_observe(m, raw), raw) =~= spec_observe(m, raw));
}

/// A start event: a rollout start or a scale start.
pub open spec fn spec_is_start_event(e: DeploymentEventView) -> bool {
    e is DeploymentStarted || e is ReplicaScaleStarted
}

/// Classification law: one observation never emits two start events; when
/// generation and replicas change together, the rollout start subsumes the
/// scale start.
pub proof fn lemma_at_most_one_start(
    p: DeploymentStateView,
    c: DeploymentStateView,
    namespace: Seq<char>,
    name: Seq<char>,
)
    ensures
        forall|i: int, j: int|
            0 <= i < j < spec_step_events(p, c, namespace, name).len() && spec_is_start_event(
                spec_step_events(p, c, namespace, name)[i],
            ) ==> !spec_is_start_event(spec_step_events(p, c, namespace, name)[j]),
{
}

/// Bookkeeping invariant: as long as the generation counter never moves
/// backwards, the recorded completed generation never exceeds the current
/// generation.
pub proof fn lemma_completed_generation_bounded(p: DeploymentStateView, c: DeploymentStateView)
    requires
        p.last_completed_generation <= p.generation,
        c.generation >= p.generation,
    ensures
        spec_step_state(p, c).last_completed_generation <= spec_step_state(p, c).generation,
{
}

/// The store model after a whole feed of observations, applied in order.
pub open spec fn spec_run(
    m: Map<Seq<char>, DeploymentStateView>,
    feed: Seq<RawSnapshot>,
) -> Map<Seq<char>, DeploymentStateView>
    decreases feed.len(),
{
    if feed.len() == 0 {
        m
    } else {
        spec_observe(spec_run(m, feed.drop_last()), feed.last())
    }
}

/// The subsequence of a feed that concerns one resource key, in its
/// original order.
pub open spec fn spec_own_observations(feed: Seq<RawSnapshot>, k: Seq<char>) -> Seq<RawSnapshot> {
    feed.filter(|raw: RawSnapshot| spec_key(raw) == k)
}

/// Interleaving law: the final state under a key is exactly what that
/// key's own observations alone produce, in their original order, whatever
/// observations for other keys are interleaved among them.
pub proof fn lemma_key_independence(
    m: Map<Seq<char>, DeploymentStateView>,
    feed: Seq<RawSnapshot>,
    k: Seq<char>,
)
    ensures
        spec_run(m, feed).contains_key(k) == spec_run(m, spec_own_observations(feed, k)).contains_key(
            k,
        ),
        spec_run(m, feed).contains_key(k) ==> spec_run(m, feed)[k] == spec_run(
            m,
            spec_own_observations(feed, k),
        )[k],
    decreases feed.len(),
{
    reveal(Seq::filter);
    if feed.len() > 0 {
        let prefix = feed.drop_last();
        let last = feed.last();
        lemma_key_independence(m, prefix, k);
        if spec_key(last) == k {
            assert(spec_own_observations(feed, k).drop_last() =~= spec_own_observations(prefix, k));
            assert(spec_own_observations(feed, k).last() == last);
        } else {
            assert(spec_own_observations(feed, k) =~= spec_own_observations(prefix, k));
        }
    }
}

} // verus!
