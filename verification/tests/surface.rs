use sprinkler::classify::Route;
use sprinkler::dispatch::agent_registry;
use sprinkler::classify::classify;
use sprinkler::notify::Notification;
use sprinkler::notify::NotifyStep;
use sprinkler::notify::RETRY_DELAY;
use sprinkler::notify::transmit_outcome;
use sprinkler::registry::MeterRegistry;
use sprinkler::sprinkler::SprinklerBuilder;
use sprinkler::sprinkler::SprinklerOptions;

fn options(master: &str) -> SprinklerOptions {
    SprinklerOptions {
        id: 0,
        hostname: String::new(),
        master_addr: String::from(master),
        heartbeat: 3,
    }
}

#[test]
fn classify_routes_the_three_kinds() {
    assert_eq!(
        classify(&String::from("container"), &String::from("oom"), true),
        Route::AnticipatedOom
    );
    assert_eq!(
        classify(&String::from("container"), &String::from("oom"), false),
        Route::OtherOom
    );
    assert_eq!(
        classify(&String::from("container"), &String::from("die"), true),
        Route::OtherPanic
    );
    assert_eq!(
        classify(&String::from("network"), &String::from("oom"), false),
        Route::OtherPanic
    );
}

#[test]
fn notification_body_is_line_oriented() {
    let n = Notification {
        from: 1,
        to_addr: String::from("10.0.0.1:3777"),
        data: vec![
            (String::from("msg"), String::from("hello")),
            (String::from("name"), String::from("web")),
        ],
    };
    assert_eq!(n.body_string(), "msg = hello\nname = web");
}

#[test]
fn empty_notification_body_is_empty() {
    let n = Notification { from: 1, to_addr: String::from("a:1"), data: vec![] };
    assert_eq!(n.body_string(), "");
}

#[test]
fn transmission_is_delivered_only_when_connected_and_written() {
    assert_eq!(transmit_outcome(true, true), NotifyStep::Delivered);
    assert_eq!(transmit_outcome(true, false), NotifyStep::RetryAfterDelay);
    assert_eq!(transmit_outcome(false, false), NotifyStep::RetryAfterDelay);
    assert_eq!(RETRY_DELAY, 20);
}

#[test]
fn builder_assigns_increasing_ids_from_zero() {
    let mut b = SprinklerBuilder::new(options("bridge:3777"));
    let s0 = b.build(String::from("host-a"));
    let s1 = b.build(String::from("host-b"));
    let s2 = b.build(String::from("host-c"));
    assert_eq!(s0.id(), 0);
    assert_eq!(s1.id(), 1);
    assert_eq!(s2.id(), 2);
    assert_eq!(s1.hostname(), "host-b");
    assert_eq!(s1.options.master_addr, "bridge:3777");
}

#[test]
fn deactivation_sets_the_flag_once() {
    let mut b = SprinklerBuilder::new(options("m:1"));
    let mut s = b.build(String::from("h"));
    assert!(!s.is_deactivated());
    s.deactivate();
    assert!(s.is_deactivated());
    s.deactivate();
    assert!(s.is_deactivated());
}

#[test]
fn registry_inserts_and_replaces() {
    let mut reg = MeterRegistry::new();
    assert!(!reg.contains(&String::from("k")));
    let seeded = agent_registry(0);
    let seed = seeded.get(&String::from(".")).unwrap();
    reg.put(&String::from("k"), seed);
    assert!(reg.contains(&String::from("k")));
    assert_eq!(reg.get(&String::from("k")).unwrap().divider.interval, 15);

    let flood = seeded.get(&String::from("!")).unwrap();
    reg.put(&String::from("k"), flood);
    assert_eq!(reg.get(&String::from("k")).unwrap().divider.interval, 0);

    // get_or_insert keeps what is there and seeds what is not.
    let e = reg.get_or_insert(&String::from("k"), seed);
    assert_eq!(e.divider.interval, 0);
    let e = reg.get_or_insert(&String::from("fresh"), seed);
    assert_eq!(e.divider.interval, 15);
    assert!(reg.contains(&String::from("fresh")));
}
