use companion_service::{deinit, init, restart, start, stop, Counter, Registry, Service};

fn counts(registry: &Registry<Counter>) -> Vec<i64> {
    let mut out = Vec::new();
    for i in 0..registry.len() {
        out.push(registry.entry(i).count());
    }
    out
}

fn three() -> Registry<Counter> {
    Registry::new(vec![Counter::new("db"), Counter::new("broker"), Counter::new("db")])
}

#[test]
fn new_counter_is_at_zero_with_its_name() {
    let c = Counter::new("cache");
    assert_eq!(c.count(), 0);
    assert_eq!(c.name(), "cache");
}

#[test]
fn registry_keeps_order_and_length() {
    let registry = three();
    assert_eq!(registry.len(), 3);
    assert_eq!(registry.entry(0).name(), "db");
    assert_eq!(registry.entry(1).name(), "broker");
    assert_eq!(registry.entry(2).name(), "db");
}

#[test]
fn init_starts_every_service_once() {
    let mut registry = three();
    init(&mut registry);
    assert_eq!(counts(&registry), vec![1, 1, 1]);
}

#[test]
fn deinit_stops_every_service_once() {
    let mut registry = three();
    init(&mut registry);
    deinit(&mut registry);
    assert_eq!(counts(&registry), vec![0, 0, 0]);
}

#[test]
fn deinit_stops_a_service_already_stopped_by_name() {
    let mut registry = three();
    init(&mut registry);
    stop(&mut registry, "broker");
    deinit(&mut registry);
    assert_eq!(counts(&registry), vec![0, -1, 0]);
}

#[test]
fn start_touches_only_the_named_services() {
    let mut registry = three();
    start(&mut registry, "db");
    assert_eq!(counts(&registry), vec![1, 0, 1]);
    start(&mut registry, "broker");
    assert_eq!(counts(&registry), vec![1, 1, 1]);
}

#[test]
fn stop_touches_only_the_named_services() {
    let mut registry = three();
    init(&mut registry);
    stop(&mut registry, "broker");
    assert_eq!(counts(&registry), vec![1, 0, 1]);
}

#[test]
fn unknown_name_changes_nothing() {
    let mut registry = three();
    init(&mut registry);
    start(&mut registry, "nothing");
    stop(&mut registry, "nothing");
    restart(&mut registry, "nothing");
    assert_eq!(counts(&registry), vec![1, 1, 1]);
}

#[test]
fn names_must_match_exactly() {
    let mut registry = three();
    start(&mut registry, "d");
    start(&mut registry, "dbx");
    start(&mut registry, "DB");
    start(&mut registry, "");
    assert_eq!(counts(&registry), vec![0, 0, 0]);
}

#[test]
fn restart_keeps_counts_of_every_match() {
    let mut registry = three();
    start(&mut registry, "db");
    start(&mut registry, "db");
    restart(&mut registry, "db");
    assert_eq!(counts(&registry), vec![2, 0, 2]);
}

#[test]
fn restart_of_a_stopped_counter_keeps_it() {
    let mut registry = three();
    restart(&mut registry, "broker");
    assert_eq!(counts(&registry), vec![0, 0, 0]);
}

#[test]
fn stop_twice_goes_below_zero() {
    let mut registry = three();
    init(&mut registry);
    stop(&mut registry, "db");
    stop(&mut registry, "db");
    assert_eq!(counts(&registry), vec![-1, 1, -1]);
}

#[test]
fn empty_registry_is_valid() {
    let mut registry: Registry<Counter> = Registry::new(Vec::new());
    init(&mut registry);
    start(&mut registry, "db");
    stop(&mut registry, "db");
    restart(&mut registry, "db");
    deinit(&mut registry);
    assert_eq!(registry.len(), 0);
}

#[test]
fn non_ascii_names_are_matched() {
    let mut registry = Registry::new(vec![Counter::new("café"), Counter::new("cafe")]);
    start(&mut registry, "café");
    assert_eq!(counts(&registry), vec![1, 0]);
}

#[test]
fn counter_start_and_stop_directly() {
    let mut c = Counter::new("x");
    c.start();
    c.start();
    c.stop();
    assert_eq!(c.count(), 1);
    c.restart();
    assert_eq!(c.count(), 1);
}
