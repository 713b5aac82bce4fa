//! The remediation dispatcher.
//!
//! Each handled runtime event drives one subject's metering pipeline: the
//! rate meter ticks, its reading is compared against a threshold, the
//! anomaly state machine escalates or diminishes, and -- when the
//! frequency divider admits the cycle -- the resulting transition is
//! turned into external effects: a container kill and an upstream
//! notification. The handlers are pure state-and-event functions; the
//! caller performs the returned effects.

use vstd::prelude::*;
use crate::anomaly::Anomaly;
use crate::anomaly::AnomalyTransition;
use crate::anomaly::ImportantExt;
use crate::anomaly::spec_apply;
use crate::anomaly::spec_diminish;
use crate::anomaly::spec_edge;
use crate::anomaly::spec_escalate;
use crate::anomaly::spec_important;
use crate::anomaly::spec_label;
use crate::classify::Route;
use crate::classify::classify;
use crate::classify::spec_classify;
use crate::divider::FrequencyDivider;
use crate::divider::spec_div_read;
use crate::divider::spec_div_tick;
use crate::meter::DEFAULT_WINDOW_MS;
use crate::meter::EventRateMeter;
use crate::meter::spec_read;
use crate::meter::spec_tick;
use crate::notify::Notification;
use crate::notify::data_view;
use crate::registry::MeterEntry;
use crate::registry::MeterRegistry;
use crate::sprinkler::DockerOOM;

verus! {

/// Rate above which an OOM stream counts as an incident, in milli-hertz.
pub const OOM_RATE_THRESHOLD_MILLIHZ: u64 = 10_000;

/// Rate above which unclassified events count as a flood, in milli-hertz.
pub const PANIC_RATE_THRESHOLD_MILLIHZ: u64 = 70_000;

/// Intervention attempts before a subject is declared out of control.
pub const MAX_RETRY: u32 = 20;

/// Divider interval for per-pod subjects.
pub const POD_DIVIDER_INTERVAL: u64 = 5;

/// Divider interval for the catch-all bucket.
pub const CATCH_ALL_DIVIDER_INTERVAL: u64 = 15;

/// Key of the catch-all OOM bucket.
pub open spec fn catch_all_key() -> Seq<char> {
    "."@
}

/// Key of the bucket reserved for other kinds of message flooding; seeded
/// but not yet written to.
pub open spec fn flood_key() -> Seq<char> {
    "!"@
}

/// Identity of the pod a scoped OOM event belongs to.
#[derive(Clone, Debug)]
pub struct PodInfo {
    /// Kubernetes namespace of the pod.
    pub namespace: String,
    /// Name of the pod; also the subject key in the registry.
    pub name: String,
    /// Uid of the pod.
    pub uid: String,
}

/// External effects one handled event calls for. The caller kills (and
/// force-removes) the named container and sends the notification; neither
/// effect blocks the metering pipeline.
pub struct Remediation {
    /// Kill and force-remove this container, if any.
    pub kill: Option<String>,
    /// Send this notification upstream, if any.
    pub notify: Option<Notification>,
}

/// A fresh meter for a window starting at `now`.
pub open spec fn spec_fresh_meter(now: u64) -> EventRateMeter {
    EventRateMeter {
        count: 0,
        t0: now,
        last_rate: 0,
        interval: DEFAULT_WINDOW_MS,
        state: Anomaly::Negative,
    }
}

/// The catch-all bucket's seed: a fresh meter and a divider of interval
/// `CATCH_ALL_DIVIDER_INTERVAL`.
pub open spec fn spec_catch_all_entry(now: u64) -> MeterEntry {
    MeterEntry {
        meter: spec_fresh_meter(now),
        divider: FrequencyDivider { count: 0, interval: CATCH_ALL_DIVIDER_INTERVAL, output: 0 },
    }
}

/// The reserved flood bucket's seed: a fresh meter and a transparent
/// divider.
pub open spec fn spec_flood_entry(now: u64) -> MeterEntry {
    MeterEntry {
        meter: spec_fresh_meter(now),
        divider: FrequencyDivider { count: 0, interval: 0, output: 0 },
    }
}

/// The warm-start entry for a pod first seen OOMing at `now`: its first
/// OOM already counts, the state jumps straight to `Fixing(1)` (skipping
/// `Positive`), and the divider interval is `POD_DIVIDER_INTERVAL`.
pub open spec fn spec_warm_entry(now: u64) -> MeterEntry {
    MeterEntry {
        meter: EventRateMeter {
            count: 1,
            t0: now,
            last_rate: 0,
            interval: DEFAULT_WINDOW_MS,
            state: Anomaly::Fixing(1),
        },
        divider: FrequencyDivider { count: 0, interval: POD_DIVIDER_INTERVAL, output: 0 },
    }
}

/// The outcome of one escalate-or-diminish step of an OOM bucket.
pub struct OomStep {
    /// The bucket's entry after the step.
    pub entry: MeterEntry,
    /// The transition the step computed.
    pub transition: AnomalyTransition,
    /// Whether the meter read above the OOM threshold.
    pub high_rate: bool,
    /// Whether the divider admitted this cycle (always true on the
    /// low-rate path, which the divider does not gate).
    pub admitted: bool,
}

/// One OOM observation against a bucket at time `now`: the meter ticks;
/// above the threshold the state escalates and the divider decides whether
/// this cycle acts (an unadmitted cycle leaves the state untouched, so the
/// next admitted cycle re-evaluates from the same state); at or below the
/// threshold the state diminishes, ungated.
pub open spec fn spec_oom_step(e: MeterEntry, now: u64) -> OomStep {
    let m1 = spec_tick(e.meter, now);
    if spec_read(m1, now) > OOM_RATE_THRESHOLD_MILLIHZ {
        let t = spec_escalate(m1.state, MAX_RETRY);
        let d1 = spec_div_tick(e.divider);
        let rd = spec_div_read(d1);
        if rd.1 {
            OomStep {
                entry: MeterEntry {
                    meter: EventRateMeter { state: spec_apply(m1.state, t), ..m1 },
                    divider: rd.0,
                },
                transition: t,
                high_rate: true,
                admitted: true,
            }
        } else {
            OomStep {
                entry: MeterEntry { meter: m1, divider: rd.0 },
                transition: t,
                high_rate: true,
                admitted: false,
            }
        }
    } else {
        let t = spec_diminish(m1.state);
        OomStep {
            entry: MeterEntry {
                meter: EventRateMeter { state: spec_apply(m1.state, t), ..m1 },
                divider: e.divider,
            },
            transition: t,
            high_rate: false,
            admitted: true,
        }
    }
}

/// Whether a step's transition must be killed for: only an admitted
/// high-rate `Fixing` cycle invokes the remediation action.
pub open spec fn spec_kill_due(step: OomStep) -> bool {
    step.high_rate && step.admitted && step.transition == AnomalyTransition::Fixing
}

/// Whether a step's transition is reported upstream: an important
/// transition, on the high-rate path only when the cycle was admitted.
pub open spec fn spec_notify_due(step: OomStep) -> bool {
    if step.high_rate {
        step.admitted && spec_important(step.transition)
    } else {
        spec_important(step.transition)
    }
}

/// The outcome of one unclassified-event step against the catch-all
/// bucket.
pub struct PanicStep {
    /// The bucket's entry after the step.
    pub entry: MeterEntry,
    /// Whether a flood notification is reported upstream.
    pub notify_due: bool,
}

/// One unclassified event against the catch-all bucket at time `now`: the
/// meter ticks; above the flood threshold the state is forced to
/// `Positive` when the machine permits that edge (there is no specific
/// actor to fix, only something to report); otherwise the state
/// diminishes.
pub open spec fn spec_panic_step(e: MeterEntry, now: u64) -> PanicStep {
    let m1 = spec_tick(e.meter, now);
    if spec_read(m1, now) > PANIC_RATE_THRESHOLD_MILLIHZ {
        match spec_edge(m1.state, Anomaly::Positive) {
            Some(t) => PanicStep {
                entry: MeterEntry {
                    meter: EventRateMeter { state: Anomaly::Positive, ..m1 },
                    divider: e.divider,
                },
                notify_due: spec_important(t),
            },
            None => PanicStep {
                entry: MeterEntry { meter: m1, divider: e.divider },
                notify_due: false,
            },
        }
    } else {
        let t = spec_diminish(m1.state);
        PanicStep {
            entry: MeterEntry {
                meter: EventRateMeter { state: spec_apply(m1.state, t), ..m1 },
                divider: e.divider,
            },
            notify_due: spec_important(t),
        }
    }
}

/// What a pod-scoped transition notification carries: the sprinkler id,
/// the master address, and the message plus the pod's identity.
pub open spec fn spec_pod_notification(
    n: Notification,
    from: usize,
    master: String,
    t: AnomalyTransition,
    pod: PodInfo,
) -> bool {
    &&& n.from == from
    &&& n.to_addr == master
    &&& data_view(n.data@) == seq![
        ("msg"@, "DockerOOM "@ + spec_label(t)),
        ("io.kubernetes.pod.namespace"@, pod.namespace@),
        ("io.kubernetes.pod.name"@, pod.name@),
        ("io.kubernetes.pod.uid"@, pod.uid@),
    ]
}

/// What a catch-all OOM transition notification carries: the message plus
/// the container's `name` attribute.
pub open spec fn spec_name_notification(
    n: Notification,
    from: usize,
    master: String,
    t: AnomalyTransition,
    name: Seq<char>,
) -> bool {
    &&& n.from == from
    &&& n.to_addr == master
    &&& data_view(n.data@) == seq![("msg"@, "DockerOOM "@ + spec_label(t)), ("name"@, name)]
}

/// What a flood notification carries: the fixed message alone.
pub open spec fn spec_panic_notification(n: Notification, from: usize, master: String) -> bool {
    &&& n.from == from
    &&& n.to_addr == master
    &&& data_view(n.data@) == seq![("msg"@, "Docker Panic"@)]
}

/// What a completed-remediation notification carries.
pub open spec fn spec_fix_notification(
    n: Notification,
    from: usize,
    master: String,
    container_id: Seq<char>,
) -> bool {
    &&& n.from == from
    &&& n.to_addr == master
    &&& data_view(n.data@) == seq![("msg"@, "Killed & Removed "@ + container_id)]
}

/// How one pod-scoped OOM observation relates the registry before and
/// after, and the effects it returns: a first observation warm-starts the
/// pod's entry with no external effect; any later one runs an OOM step
/// against the pod's bucket, kills on an admitted `Fixing` cycle, and
/// reports important transitions.
pub open spec fn spec_anticipated_post(
    s: DockerOOM,
    pre: Map<Seq<char>, MeterEntry>,
    post: Map<Seq<char>, MeterEntry>,
    r: Remediation,
    now: u64,
    pod: PodInfo,
    actor_id: String,
) -> bool {
    if !pre.dom().contains(pod.name@) {
        &&& post == pre.insert(pod.name@, spec_warm_entry(now))
        &&& r.kill is None
        &&& r.notify is None
    } else {
        let step = spec_oom_step(pre[pod.name@], now);
        &&& post == pre.insert(pod.name@, step.entry)
        &&& (r.kill is Some <==> spec_kill_due(step))
        &&& (r.kill is Some ==> r.kill->0 == actor_id)
        &&& (r.notify is Some <==> spec_notify_due(step))
        &&& (r.notify is Some ==> spec_pod_notification(
            r.notify->0,
            s.options.id,
            s.options.master_addr,
            step.transition,
            pod,
        ))
    }
}

/// How one catch-all OOM observation relates the registry before and
/// after, and the effects it returns.
pub open spec fn spec_other_oom_post(
    s: DockerOOM,
    pre: Map<Seq<char>, MeterEntry>,
    post: Map<Seq<char>, MeterEntry>,
    r: Remediation,
    now: u64,
    name: Seq<char>,
    actor_id: String,
) -> bool {
    let step = spec_oom_step(pre[catch_all_key()], now);
    &&& post == pre.insert(catch_all_key(), step.entry)
    &&& (r.kill is Some <==> spec_kill_due(step))
    &&& (r.kill is Some ==> r.kill->0 == actor_id)
    &&& (r.notify is Some <==> spec_notify_due(step))
    &&& (r.notify is Some ==> spec_name_notification(
        r.notify->0,
        s.options.id,
        s.options.master_addr,
        step.transition,
        name,
    ))
}

/// How one unclassified event relates the registry before and after, and
/// the effects it returns; it never kills.
pub open spec fn spec_panic_post(
    s: DockerOOM,
    pre: Map<Seq<char>, MeterEntry>,
    post: Map<Seq<char>, MeterEntry>,
    r: Remediation,
    now: u64,
) -> bool {
    let step = spec_panic_step(pre[catch_all_key()], now);
    &&& post == pre.insert(catch_all_key(), step.entry)
    &&& r.kill is None
    &&& (r.notify is Some <==> step.notify_due)
    &&& (r.notify is Some ==> spec_panic_notification(
        r.notify->0,
        s.options.id,
        s.options.master_addr,
    ))
}

/// The registry an agent starts with: the catch-all OOM bucket under `"."`
/// and the reserved flood bucket under `"!"`, both metering from `now`.
pub fn agent_registry(now: u64) -> (r: MeterRegistry)
    ensures
        r.wf(),
        r@ == Map::<Seq<char>, MeterEntry>::empty().insert(
            flood_key(),
            spec_flood_entry(now),
        ).insert(catch_all_key(), spec_catch_all_entry(now)),
{
    let mut reg = MeterRegistry::new();
    let flood = MeterEntry {
        meter: EventRateMeter::new(now),
        divider: FrequencyDivider::new(0),
    };
    let catch_all = MeterEntry {
        meter: EventRateMeter::new(now),
        divider: FrequencyDivider::new(CATCH_ALL_DIVIDER_INTERVAL),
    };
    let k_flood: String = String::from_str("!");
    let k_catch: String = String::from_str(".");
    reg.put(&k_flood, flood);
    reg.put(&k_catch, catch_all);
    reg
}

impl DockerOOM {
    /// Handle one OOM event scoped to a pod: warm-start an unseen pod,
    /// otherwise run one OOM step against the pod's bucket, killing the
    /// event's container on an admitted `Fixing` cycle and reporting
    /// important transitions with the pod's identity.
    pub fn handle_anticipated_oom(
        &self,
        reg: &mut MeterRegistry,
        now: u64,
        pod: &PodInfo,
        actor_id: &String,
    ) -> (r: Remediation)
        requires
            old(reg).wf(),
        ensures
            final(reg).wf(),
            spec_anticipated_post(*self, old(reg)@, final(reg)@, r, now, *pod, *actor_id),
    {
        if !reg.contains(&pod.name) {
            let warm = MeterEntry {
                meter: EventRateMeter {
                    count: 1,
                    t0: now,
                    last_rate: 0,
                    interval: DEFAULT_WINDOW_MS,
                    state: Anomaly::Fixing(1),
                },
                divider: FrequencyDivider::new(POD_DIVIDER_INTERVAL),
            };
            reg.put(&pod.name, warm);
            Remediation { kill: None, notify: None }
        } else {
            let e0 = reg.get(&pod.name).unwrap();
            let mut m1 = e0.meter;
            m1.tick_at(now);
            let rate = m1.read_at(now);
            if rate > OOM_RATE_THRESHOLD_MILLIHZ {
                let t = m1.state.escalate(MAX_RETRY);
                let mut d1 = e0.divider;
                d1.tick();
                let admitted = d1.read();
                if admitted {
                    let kill = if t == AnomalyTransition::Fixing {
                        Some(actor_id.clone())
                    } else {
                        None
                    };
                    let notify = if t.is_important() {
                        Some(self.pod_notification(t, pod))
                    } else {
                        None
                    };
                    m1.state.apply(t);
                    reg.put(&pod.name, MeterEntry { meter: m1, divider: d1 });
                    Remediation { kill, notify }
                } else {
                    reg.put(&pod.name, MeterEntry { meter: m1, divider: d1 });
                    Remediation { kill: None, notify: None }
                }
            } else {
                let t = m1.state.diminish();
                let notify = if t.is_important() {
                    Some(self.pod_notification(t, pod))
                } else {
                    None
                };
                m1.state.apply(t);
                reg.put(&pod.name, MeterEntry { meter: m1, divider: e0.divider });
                Remediation { kill: None, notify }
            }
        }
    }

    /// Handle one OOM event on a container outside the orchestrator: one
    /// OOM step against the catch-all bucket, reporting with the
    /// container's `name` attribute.
    pub fn handle_other_oom(
        &self,
        reg: &mut MeterRegistry,
        now: u64,
        name: &String,
        actor_id: &String,
    ) -> (r: Remediation)
        requires
            old(reg).wf(),
            old(reg)@.dom().contains(catch_all_key()),
        ensures
            final(reg).wf(),
            spec_other_oom_post(*self, old(reg)@, final(reg)@, r, now, name@, *actor_id),
    {
        let key: String = String::from_str(".");
        let e0 = reg.get(&key).unwrap();
        let mut m1 = e0.meter;
        m1.tick_at(now);
        let rate = m1.read_at(now);
        if rate > OOM_RATE_THRESHOLD_MILLIHZ {
            let t = m1.state.escalate(MAX_RETRY);
            let mut d1 = e0.divider;
            d1.tick();
            let admitted = d1.read();
            if admitted {
                let kill = if t == AnomalyTransition::Fixing {
                    Some(actor_id.clone())
                } else {
                    None
                };
                let notify = if t.is_important() {
                    Some(self.name_notification(t, name))
                } else {
                    None
                };
                m1.state.apply(t);
                reg.put(&key, MeterEntry { meter: m1, divider: d1 });
                Remediation { kill, notify }
            } else {
                reg.put(&key, MeterEntry { meter: m1, divider: d1 });
                Remediation { kill: None, notify: None }
            }
        } else {
            let t = m1.state.diminish();
            let notify = if t.is_important() {
                Some(self.name_notification(t, name))
            } else {
                None
            };
            m1.state.apply(t);
            reg.put(&key, MeterEntry { meter: m1, divider: e0.divider });
            Remediation { kill: None, notify }
        }
    }

    /// Handle one unclassified runtime event: rate-limit the catch-all
    /// bucket and report a flood; there is no specific actor, so nothing
    /// is ever killed.
    pub fn handle_other_panic(&self, reg: &mut MeterRegistry, now: u64) -> (r: Remediation)
        requires
            old(reg).wf(),
            old(reg)@.dom().contains(catch_all_key()),
        ensures
            final(reg).wf(),
            spec_panic_post(*self, old(reg)@, final(reg)@, r, now),
    {
        let key: String = String::from_str(".");
        let e0 = reg.get(&key).unwrap();
        let mut m1 = e0.meter;
        m1.tick_at(now);
        let rate = m1.read_at(now);
        if rate > PANIC_RATE_THRESHOLD_MILLIHZ {
            match m1.state.edge_to(&Anomaly::Positive) {
                Some(t) => {
                    let notify = if t.is_important() {
                        Some(self.panic_notification())
                    } else {
                        None
                    };
                    m1.state = Anomaly::Positive;
                    reg.put(&key, MeterEntry { meter: m1, divider: e0.divider });
                    Remediation { kill: None, notify }
                },
                None => {
                    reg.put(&key, MeterEntry { meter: m1, divider: e0.divider });
                    Remediation { kill: None, notify: None }
                },
            }
        } else {
            let t = m1.state.diminish();
            let notify = if t.is_important() {
                Some(self.panic_notification())
            } else {
                None
            };
            m1.state.apply(t);
            reg.put(&key, MeterEntry { meter: m1, divider: e0.divider });
            Remediation { kill: None, notify }
        }
    }

    /// The notification reporting a pod-scoped transition.
    fn pod_notification(&self, t: AnomalyTransition, pod: &PodInfo) -> (n: Notification)
        ensures
            spec_pod_notification(n, self.options.id, self.options.master_addr, t, *pod),
    {
        let msg: String = String::from_str("DockerOOM ").concat(t.label());
        let mut data: Vec<(String, String)> = Vec::new();
        data.push((String::from_str("msg"), msg));
        data.push((String::from_str("io.kubernetes.pod.namespace"), pod.namespace.clone()));
        data.push((String::from_str("io.kubernetes.pod.name"), pod.name.clone()));
        data.push((String::from_str("io.kubernetes.pod.uid"), pod.uid.clone()));
        proof {
            assert(data_view(data@) =~= seq![
                ("msg"@, "DockerOOM "@ + spec_label(t)),
                ("io.kubernetes.pod.namespace"@, pod.namespace@),
                ("io.kubernetes.pod.name"@, pod.name@),
                ("io.kubernetes.pod.uid"@, pod.uid@),
            ]);
        }
        Notification { from: self.options.id, to_addr: self.options.master_addr.clone(), data }
    }

    /// The notification reporting a catch-all OOM transition.
    fn name_notification(&self, t: AnomalyTransition, name: &String) -> (n: Notification)
        ensures
            spec_name_notification(n, self.options.id, self.options.master_addr, t, name@),
    {
        let msg: String = String::from_str("DockerOOM ").concat(t.label());
        let mut data: Vec<(String, String)> = Vec::new();
        data.push((String::from_str("msg"), msg));
        data.push((String::from_str("name"), name.clone()));
        proof {
            assert(data_view(data@) =~= seq![
                ("msg"@, "DockerOOM "@ + spec_label(t)),
                ("name"@, name@),
            ]);
        }
        Notification { from: self.options.id, to_addr: self.options.master_addr.clone(), data }
    }

    /// The notification reporting an unclassified-event flood.
    fn panic_notification(&self) -> (n: Notification)
        ensures
            spec_panic_notification(n, self.options.id, self.options.master_addr),
    {
        let mut data: Vec<(String, String)> = Vec::new();
        data.push((String::from_str("msg"), String::from_str("Docker Panic")));
        proof {
            assert(data_view(data@) =~= seq![("msg"@, "Docker Panic"@)]);
        }
        Notification { from: self.options.id, to_addr: self.options.master_addr.clone(), data }
    }

    /// The notification reporting that a container was killed and removed;
    /// sent only after both steps succeeded.
    pub fn fix_notification(&self, container_id: &String) -> (n: Notification)
        ensures
            spec_fix_notification(n, self.options.id, self.options.master_addr, container_id@),
    {
        let msg: String = String::from_str("Killed & Removed ").concat(container_id.as_str());
        let mut data: Vec<(String, String)> = Vec::new();
        data.push((String::from_str("msg"), msg));
        proof {
            assert(data_view(data@) =~= seq![("msg"@, "Killed & Removed "@ + container_id@)]);
        }
        Notification { from: self.options.id, to_addr: self.options.master_addr.clone(), data }
    }
}

/// One normalised runtime event, as the event stream hands it over.
#[derive(Clone, Debug)]
pub struct RuntimeEvent {
    /// Event type, `container` for container events.
    pub typ: String,
    /// Event action, `oom` for out-of-memory kills.
    pub action: String,
    /// Id of the container the event concerns.
    pub actor_id: String,
    /// Pod identity, when the container carries the pod attributes.
    pub pod: Option<PodInfo>,
    /// The container's `name` attribute, if present.
    pub container_name: Option<String>,
}

impl DockerOOM {
    /// Route one runtime event to its handler: pod-scoped OOMs to the
    /// pod's bucket, other OOMs to the catch-all bucket, everything else
    /// to the flood detector.
    pub fn handle_event(&self, reg: &mut MeterRegistry, now: u64, ev: &RuntimeEvent) -> (r:
        Remediation)
        requires
            old(reg).wf(),
            old(reg)@.dom().contains(catch_all_key()),
            spec_classify(ev.typ@, ev.action@, ev.pod is Some) == Route::OtherOom
                ==> ev.container_name is Some,
        ensures
            final(reg).wf(),
            match spec_classify(ev.typ@, ev.action@, ev.pod is Some) {
                Route::AnticipatedOom => spec_anticipated_post(
                    *self,
                    old(reg)@,
                    final(reg)@,
                    r,
                    now,
                    ev.pod->0,
                    ev.actor_id,
                ),
                Route::OtherOom => spec_other_oom_post(
                    *self,
                    old(reg)@,
                    final(reg)@,
                    r,
                    now,
                    ev.container_name->0@,
                    ev.actor_id,
                ),
                Route::OtherPanic => spec_panic_post(*self, old(reg)@, final(reg)@, r, now),
            },
    {
        match classify(&ev.typ, &ev.action, ev.pod.is_some()) {
            Route::AnticipatedOom => {
                let pod = ev.pod.as_ref().unwrap();
                self.handle_anticipated_oom(reg, now, pod, &ev.actor_id)
            },
            Route::OtherOom => {
                let name = ev.container_name.as_ref().unwrap();
                self.handle_other_oom(reg, now, name, &ev.actor_id)
            },
            Route::OtherPanic => self.handle_other_panic(reg, now),
        }
    }
}

} // verus!
