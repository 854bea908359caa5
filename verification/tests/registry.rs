use service_registry::ProbeOutcome;
use service_registry::Registry;
use service_registry::Status;

#[test]
fn seeded_has_five_unknown_services() {
    let reg = Registry::seeded();
    assert_eq!(reg.len(), 5);
    let records = reg.list();
    let expected = [
        ("Eternal Daemon", 9999u16),
        ("Consciousness Tracker", 9998),
        ("Self-Modification Engine", 9997),
        ("Memory System", 9995),
        ("Groq API", 9987),
    ];
    for (rec, (name, port)) in records.iter().zip(expected.iter()) {
        assert_eq!(rec.name, *name);
        assert_eq!(rec.port, *port);
        assert_eq!(rec.status, Status::Unknown);
        assert_eq!(rec.url, format!("http://localhost:{}", port));
    }
}

#[test]
fn update_known_port_keeps_length_and_position() {
    let mut reg = Registry::seeded();
    let rec = reg.upsert("Memory System".to_string(), 9995, ProbeOutcome::Failure);
    assert_eq!(rec.name, "Memory System");
    assert_eq!(rec.port, 9995);
    assert_eq!(rec.status, Status::Offline);
    assert_eq!(rec.status.label(), "offline");
    assert_eq!(rec.url, "http://localhost:9995");
    assert_eq!(reg.len(), 5);
    let records = reg.list();
    assert_eq!(records[3].port, 9995);
    assert_eq!(records[3].status, Status::Offline);
    assert_eq!(records[0].status, Status::Unknown);
}

#[test]
fn update_new_port_appends() {
    let mut reg = Registry::seeded();
    let rec = reg.upsert("New Service".to_string(), 9000, ProbeOutcome::Failure);
    assert_eq!(rec.name, "New Service");
    assert_eq!(rec.port, 9000);
    assert_eq!(rec.status, Status::Offline);
    assert_eq!(rec.url, "http://localhost:9000");
    assert_eq!(reg.len(), 6);
    let records = reg.list();
    assert_eq!(records[5].name, "New Service");
    assert_eq!(records[5].port, 9000);
}

#[test]
fn upsert_replaces_name_and_status_in_place() {
    let mut reg = Registry::new();
    reg.upsert("First".to_string(), 8080, ProbeOutcome::Failure);
    reg.upsert("Second".to_string(), 9090, ProbeOutcome::Response(200));
    let rec = reg.upsert("Renamed".to_string(), 8080, ProbeOutcome::Response(204));
    assert_eq!(rec.status, Status::Online);
    assert_eq!(reg.len(), 2);
    let records = reg.list();
    assert_eq!(records[0].name, "Renamed");
    assert_eq!(records[0].port, 8080);
    assert_eq!(records[0].status, Status::Online);
    assert_eq!(records[1].name, "Second");
    assert_eq!(records[1].port, 9090);
}

#[test]
fn repeated_upserts_on_same_port_keep_one_record() {
    let mut reg = Registry::new();
    reg.upsert("Svc".to_string(), 7000, ProbeOutcome::Failure);
    reg.upsert("Svc".to_string(), 7000, ProbeOutcome::Response(200));
    reg.upsert("Svc".to_string(), 7000, ProbeOutcome::Response(500));
    assert_eq!(reg.len(), 1);
    let records = reg.list();
    assert_eq!(records[0].status, Status::Offline);
}

#[test]
fn listed_ports_are_pairwise_distinct() {
    let mut reg = Registry::seeded();
    reg.upsert("A".to_string(), 9000, ProbeOutcome::Failure);
    reg.upsert("B".to_string(), 9999, ProbeOutcome::Response(200));
    reg.upsert("C".to_string(), 9000, ProbeOutcome::Response(200));
    let records = reg.list();
    for i in 0..records.len() {
        for j in 0..records.len() {
            if i != j {
                assert_ne!(records[i].port, records[j].port);
            }
        }
    }
}

#[test]
fn list_returns_a_snapshot_copy() {
    let mut reg = Registry::seeded();
    let before = reg.list();
    reg.upsert("Eternal Daemon".to_string(), 9999, ProbeOutcome::Response(200));
    assert_eq!(before[0].status, Status::Unknown);
    let after = reg.list();
    assert_eq!(after[0].status, Status::Online);
}

#[test]
fn extreme_ports_are_accepted() {
    let mut reg = Registry::new();
    let low = reg.upsert("Low".to_string(), 1, ProbeOutcome::Failure);
    let high = reg.upsert("High".to_string(), 65535, ProbeOutcome::Response(200));
    assert_eq!(low.url, "http://localhost:1");
    assert_eq!(high.url, "http://localhost:65535");
    assert_eq!(reg.len(), 2);
}

#[test]
fn status_labels() {
    assert_eq!(Status::Unknown.label(), "unknown");
    assert_eq!(Status::Online.label(), "online");
    assert_eq!(Status::Offline.label(), "offline");
}
