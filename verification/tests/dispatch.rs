use sprinkler::anomaly::Anomaly;
use sprinkler::dispatch::PodInfo;
use sprinkler::dispatch::Remediation;
use sprinkler::dispatch::RuntimeEvent;
use sprinkler::dispatch::agent_registry;
use sprinkler::registry::MeterRegistry;
use sprinkler::sprinkler::DockerOOM;
use sprinkler::sprinkler::SprinklerOptions;

fn watchdog() -> DockerOOM {
    DockerOOM::build(SprinklerOptions {
        id: 3,
        hostname: String::from("node-1"),
        master_addr: String::from("127.0.0.1:3777"),
        heartbeat: 3,
    })
}

fn pod() -> PodInfo {
    PodInfo {
        namespace: String::from("default"),
        name: String::from("p1"),
        uid: String::from("u-123"),
    }
}

fn msg_of(r: &Remediation) -> Option<String> {
    r.notify.as_ref().map(|n| n.data[0].1.clone())
}

#[test]
fn single_oom_is_quiet() {
    // The first OOM of an unseen pod warm-starts its entry, already in
    // Fixing(1), with no kill and no notification.
    let d = watchdog();
    let mut reg = MeterRegistry::new();
    let r = d.handle_anticipated_oom(&mut reg, 0, &pod(), &String::from("c1"));
    assert!(r.kill.is_none());
    assert!(r.notify.is_none());
    let e = reg.get(&String::from("p1")).unwrap();
    assert_eq!(e.meter.count, 1);
    assert_eq!(e.meter.state, Anomaly::Fixing(1));
    assert_eq!(e.divider.interval, 5);
}

#[test]
fn sustained_oom_flood_kills_on_admitted_cycles() {
    // At about 83 Hz, every fifth cycle is admitted and kills; Fixing is
    // not an important transition, so nothing is reported yet.
    let d = watchdog();
    let mut reg = MeterRegistry::new();
    d.handle_anticipated_oom(&mut reg, 0, &pod(), &String::from("c1"));
    let mut kills = 0;
    let mut notifications = 0;
    for i in 1..=25u64 {
        let r = d.handle_anticipated_oom(&mut reg, 12 * i, &pod(), &String::from("c1"));
        if let Some(id) = &r.kill {
            assert_eq!(id, "c1");
            kills += 1;
        }
        if r.notify.is_some() {
            notifications += 1;
        }
    }
    assert_eq!(kills, 5);
    assert_eq!(notifications, 0);
    let e = reg.get(&String::from("p1")).unwrap();
    assert_eq!(e.meter.state, Anomaly::Fixing(6));
}

#[test]
fn persistent_flood_escalates_to_out_of_control() {
    // After the retry budget (20) is spent, the next admitted cycle yields
    // GaveUp -- the one important, reported transition of the flood -- and
    // leaves the state OutOfControl.
    let d = watchdog();
    let mut reg = MeterRegistry::new();
    d.handle_anticipated_oom(&mut reg, 0, &pod(), &String::from("c1"));
    let mut kills = 0;
    let mut messages = Vec::new();
    for i in 1..=100u64 {
        let r = d.handle_anticipated_oom(&mut reg, 12 * i, &pod(), &String::from("c1"));
        if r.kill.is_some() {
            kills += 1;
        }
        if let Some(m) = msg_of(&r) {
            messages.push(m);
        }
    }
    assert_eq!(kills, 19);
    assert_eq!(messages, vec![String::from("DockerOOM GaveUp")]);
    let e = reg.get(&String::from("p1")).unwrap();
    assert_eq!(e.meter.state, Anomaly::OutOfControl);

    // Recovery: once the stream has been silent past two windows, the next
    // check diminishes, reports Disappeared, and resets to Negative.
    let r = d.handle_anticipated_oom(&mut reg, 3700, &pod(), &String::from("c1"));
    assert!(r.kill.is_none());
    assert_eq!(msg_of(&r), Some(String::from("DockerOOM Disappeared")));
    let e = reg.get(&String::from("p1")).unwrap();
    assert_eq!(e.meter.state, Anomaly::Negative);
}

#[test]
fn unadmitted_cycles_leave_the_state_untouched() {
    let d = watchdog();
    let mut reg = MeterRegistry::new();
    d.handle_anticipated_oom(&mut reg, 0, &pod(), &String::from("c1"));
    for i in 1..=4u64 {
        let r = d.handle_anticipated_oom(&mut reg, 12 * i, &pod(), &String::from("c1"));
        assert!(r.kill.is_none());
        assert!(r.notify.is_none());
        let e = reg.get(&String::from("p1")).unwrap();
        assert_eq!(e.meter.state, Anomaly::Fixing(1));
    }
}

#[test]
fn other_panic_flood_forces_positive_once() {
    // 50 unclassified events at 100 Hz: the first crossing reports the
    // flood and forces Positive; later cycles find the edge unimportant
    // and nothing is ever killed.
    let d = watchdog();
    let mut reg = agent_registry(0);
    let mut notifications = Vec::new();
    for i in 1..=50u64 {
        let r = d.handle_other_panic(&mut reg, 10 * i);
        assert!(r.kill.is_none());
        if let Some(m) = msg_of(&r) {
            notifications.push(m);
        }
    }
    assert_eq!(notifications, vec![String::from("Docker Panic")]);
    let e = reg.get(&String::from(".")).unwrap();
    assert_eq!(e.meter.state, Anomaly::Positive);
    // The panic path never touches the catch-all divider.
    assert_eq!(e.divider.count, 0);
}

#[test]
fn other_oom_uses_the_catch_all_bucket() {
    // 40 catch-all OOMs at 100 Hz with divider interval 15: the first
    // admitted cycle reports Occurred, the second kills on Fixing.
    let d = watchdog();
    let mut reg = agent_registry(0);
    let mut kills = Vec::new();
    let mut messages = Vec::new();
    for i in 1..=40u64 {
        let r = d.handle_other_oom(
            &mut reg,
            10 * i,
            &String::from("web"),
            &String::from("c9"),
        );
        if let Some(id) = r.kill {
            kills.push(id);
        }
        if let Some(n) = r.notify {
            assert_eq!(n.data[1].0, "name");
            assert_eq!(n.data[1].1, "web");
            messages.push(n.data[0].1.clone());
        }
    }
    assert_eq!(kills, vec![String::from("c9")]);
    assert_eq!(messages, vec![String::from("DockerOOM Occurred")]);
    let e = reg.get(&String::from(".")).unwrap();
    assert_eq!(e.meter.state, Anomaly::Fixing(1));
}

#[test]
fn events_are_routed_by_type_action_and_pod_name() {
    let d = watchdog();
    let mut reg = agent_registry(0);

    // container/oom with a pod name: a fresh per-pod bucket appears.
    let ev = RuntimeEvent {
        typ: String::from("container"),
        action: String::from("oom"),
        actor_id: String::from("c1"),
        pod: Some(pod()),
        container_name: Some(String::from("web")),
    };
    d.handle_event(&mut reg, 5, &ev);
    assert!(reg.get(&String::from("p1")).is_some());

    // container/oom without a pod name: the catch-all bucket meters it.
    let ev = RuntimeEvent {
        typ: String::from("container"),
        action: String::from("oom"),
        actor_id: String::from("c2"),
        pod: None,
        container_name: Some(String::from("db")),
    };
    d.handle_event(&mut reg, 10, &ev);
    assert_eq!(reg.get(&String::from(".")).unwrap().meter.count, 1);

    // anything else: the flood detector meters it, the divider stays put.
    let ev = RuntimeEvent {
        typ: String::from("network"),
        action: String::from("connect"),
        actor_id: String::from("c3"),
        pod: None,
        container_name: None,
    };
    d.handle_event(&mut reg, 15, &ev);
    let e = reg.get(&String::from(".")).unwrap();
    assert_eq!(e.meter.count, 2);
    assert_eq!(e.divider.count, 1);
}

#[test]
fn agent_registry_is_seeded_with_the_two_buckets() {
    let reg = agent_registry(42);
    let catch_all = reg.get(&String::from(".")).unwrap();
    assert_eq!(catch_all.divider.interval, 15);
    assert_eq!(catch_all.meter.t0, 42);
    assert_eq!(catch_all.meter.state, Anomaly::Negative);
    let flood = reg.get(&String::from("!")).unwrap();
    assert_eq!(flood.divider.interval, 0);
    assert!(reg.get(&String::from("p1")).is_none());
}

#[test]
fn pod_notifications_carry_the_pod_identity() {
    // Drive the warm-started pod to its first important transition
    // (GaveUp) and inspect the notification fields.
    let d = watchdog();
    let mut reg = MeterRegistry::new();
    d.handle_anticipated_oom(&mut reg, 0, &pod(), &String::from("c1"));
    let mut seen = None;
    for i in 1..=100u64 {
        let r = d.handle_anticipated_oom(&mut reg, 12 * i, &pod(), &String::from("c1"));
        if let Some(n) = r.notify {
            seen = Some(n);
        }
    }
    let n = seen.expect("the flood must report GaveUp");
    assert_eq!(n.from, 3);
    assert_eq!(n.to_addr, "127.0.0.1:3777");
    let fields: Vec<(String, String)> = n.data.clone();
    assert_eq!(fields[0], (String::from("msg"), String::from("DockerOOM GaveUp")));
    assert_eq!(
        fields[1],
        (String::from("io.kubernetes.pod.namespace"), String::from("default"))
    );
    assert_eq!(fields[2], (String::from("io.kubernetes.pod.name"), String::from("p1")));
    assert_eq!(fields[3], (String::from("io.kubernetes.pod.uid"), String::from("u-123")));
}

#[test]
fn fix_notification_reports_the_container() {
    let d = watchdog();
    let n = d.fix_notification(&String::from("abc123"));
    assert_eq!(n.from, 3);
    assert_eq!(n.to_addr, "127.0.0.1:3777");
    assert_eq!(n.data[0].0, "msg");
    assert_eq!(n.data[0].1, "Killed & Removed abc123");
    assert_eq!(n.body_string(), "msg = Killed & Removed abc123");
}
