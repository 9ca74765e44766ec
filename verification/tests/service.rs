use vessel_registry::{Error, Registry, VesselPayload, VoyagePayload};

fn vessel_payload(name: &str) -> VesselPayload {
    VesselPayload {
        name: name.to_string(),
        captain: "Ada".to_string(),
        capacity: 40,
        current_location: "Pier 3".to_string(),
    }
}

fn voyage_payload(vessel_id: u64, departure_time: u64) -> VoyagePayload {
    VoyagePayload {
        vessel_id,
        departure_port: "Hamburg".to_string(),
        destination_port: "Oslo".to_string(),
        departure_time,
        arrival_time: None,
    }
}

#[test]
fn add_vessel_assigns_strictly_increasing_ids() {
    let mut r = Registry::new();
    let a = r
        .add_vessel(vessel_payload("Aurora"), "alice".to_string(), 10)
        .unwrap_or_else(|_| panic!("valid payload rejected"));
    let b = r
        .add_vessel(vessel_payload("Borealis"), "bob".to_string(), 11)
        .unwrap_or_else(|_| panic!("valid payload rejected"));
    assert_eq!(a.id, 0);
    assert_eq!(b.id, 1);
    assert!(b.id > a.id);
    assert!(a.voyages_ids.is_empty());
    assert!(b.voyages_ids.is_empty());
}

#[test]
fn add_vessel_accumulates_all_violations() {
    let mut r = Registry::new();
    let mut p = vessel_payload("");
    p.capacity = 0;
    match r.add_vessel(p, "alice".to_string(), 10) {
        Err(Error::InvalidPayload { errors }) => {
            assert_eq!(
                errors,
                vec![
                    "Vessel name='' cannot be empty.".to_string(),
                    "Capacity cannot be set to zero".to_string(),
                ]
            );
        }
        _ => panic!("expected InvalidPayload"),
    }
    assert!(matches!(r.get_vessel(0), Err(Error::NotFound { .. })));
}

#[test]
fn whitespace_only_name_is_rejected() {
    let mut r = Registry::new();
    match r.add_vessel(vessel_payload(" \t\n "), "alice".to_string(), 10) {
        Err(Error::InvalidPayload { errors }) => {
            assert_eq!(errors, vec!["Vessel name=' \t\n ' cannot be empty.".to_string()]);
        }
        _ => panic!("expected InvalidPayload"),
    }
}

#[test]
fn add_voyage_against_missing_vessel_allocates_no_id() {
    let mut r = Registry::new();
    match r.add_voyage(voyage_payload(9, 100), "alice".to_string(), 50) {
        Err(Error::NotFound { msg }) => assert_eq!(msg, "a vessel with id=9 not found"),
        _ => panic!("expected NotFound"),
    }
    // The failed call consumed no voyage id: the next creation still gets 0.
    let v = r
        .add_vessel(vessel_payload("Aurora"), "bob".to_string(), 60)
        .unwrap_or_else(|_| panic!("valid payload rejected"));
    let y = r
        .add_voyage(voyage_payload(v.id, 100), "bob".to_string(), 70)
        .unwrap_or_else(|_| panic!("valid voyage rejected"));
    assert_eq!(y.id, 0);
}

#[test]
fn add_voyage_lists_the_new_id_exactly_once() {
    let mut r = Registry::new();
    let v = r
        .add_vessel(vessel_payload("Aurora"), "alice".to_string(), 10)
        .unwrap_or_else(|_| panic!("valid payload rejected"));
    let y = r
        .add_voyage(voyage_payload(v.id, 100), "alice".to_string(), 20)
        .unwrap_or_else(|_| panic!("valid voyage rejected"));
    let fetched = r.get_vessel(v.id).unwrap_or_else(|_| panic!("vessel vanished"));
    let occurrences = fetched.voyages_ids.iter().filter(|&&i| i == y.id).count();
    assert_eq!(occurrences, 1);
    assert_eq!(y.admin_principal, "alice".to_string());
    assert_eq!(y.departure_time, 20);
    assert!(y.vessel_data.is_none());
}

#[test]
fn foreign_principal_cannot_mutate_anything() {
    let mut r = Registry::new();
    let v = r
        .add_vessel(vessel_payload("Aurora"), "alice".to_string(), 10)
        .unwrap_or_else(|_| panic!("valid payload rejected"));
    let y = r
        .add_voyage(voyage_payload(v.id, 100), "alice".to_string(), 20)
        .unwrap_or_else(|_| panic!("valid voyage rejected"));

    assert!(matches!(
        r.update_vessel(v.id, vessel_payload("Hijack"), "mallory".to_string(), 30),
        Err(Error::NotVesselAdmin)
    ));
    assert!(matches!(
        r.update_voyage(y.id, voyage_payload(v.id, 200), "mallory".to_string(), 30),
        Err(Error::NotVesselAdmin)
    ));
    assert!(matches!(
        r.delete_vessel(v.id, "mallory".to_string()),
        Err(Error::NotVesselAdmin)
    ));
    assert!(matches!(
        r.delete_voyage(y.id, "mallory".to_string()),
        Err(Error::NotVoyageAdmin)
    ));
    assert!(matches!(
        r.add_voyage(voyage_payload(v.id, 300), "mallory".to_string(), 30),
        Err(Error::NotVesselAdmin)
    ));

    // Nothing moved.
    let v2 = r.get_vessel(v.id).unwrap_or_else(|_| panic!("vessel vanished"));
    assert_eq!(v2.name, "Aurora".to_string());
    assert_eq!(v2.last_update, 10);
    assert_eq!(v2.voyages_ids, vec![y.id]);
    let y2 = r.get_voyage(y.id).unwrap_or_else(|_| panic!("voyage vanished"));
    assert_eq!(y2.departure_port, "Hamburg".to_string());
    assert_eq!(y2.departure_time, 20);
}

#[test]
fn delete_vessel_detaches_voyages_with_a_frozen_snapshot() {
    let mut r = Registry::new();
    let v = r
        .add_vessel(vessel_payload("Aurora"), "alice".to_string(), 10)
        .unwrap_or_else(|_| panic!("valid payload rejected"));
    let a = r
        .add_voyage(voyage_payload(v.id, 100), "alice".to_string(), 20)
        .unwrap_or_else(|_| panic!("valid voyage rejected"));
    let b = r
        .add_voyage(voyage_payload(v.id, 150), "alice".to_string(), 25)
        .unwrap_or_else(|_| panic!("valid voyage rejected"));

    let before = r.get_vessel(v.id).unwrap_or_else(|_| panic!("vessel vanished"));
    r.delete_vessel(v.id, "alice".to_string())
        .unwrap_or_else(|_| panic!("delete refused"));

    match r.get_vessel(v.id) {
        Err(Error::NotFound { msg }) => assert_eq!(msg, format!("a vessel with id={} not found", v.id)),
        _ => panic!("vessel should be gone"),
    }
    for yid in [a.id, b.id] {
        let y = r.get_voyage(yid).unwrap_or_else(|_| panic!("voyage row lost"));
        let snap = y.vessel_data.unwrap_or_else(|| panic!("snapshot missing"));
        assert_eq!(snap.id, before.id);
        assert_eq!(snap.name, before.name);
        assert_eq!(snap.captain, before.captain);
        assert_eq!(snap.admin_principal, before.admin_principal);
        assert_eq!(snap.capacity, before.capacity);
        assert_eq!(snap.current_location, before.current_location);
        assert_eq!(snap.last_update, before.last_update);
        assert_eq!(snap.voyages_ids, before.voyages_ids);
    }
}

#[test]
fn delete_voyage_unlinks_it_from_its_vessel() {
    let mut r = Registry::new();
    let v = r
        .add_vessel(vessel_payload("Aurora"), "alice".to_string(), 10)
        .unwrap_or_else(|_| panic!("valid payload rejected"));
    let a = r
        .add_voyage(voyage_payload(v.id, 100), "alice".to_string(), 20)
        .unwrap_or_else(|_| panic!("valid voyage rejected"));
    let b = r
        .add_voyage(voyage_payload(v.id, 150), "alice".to_string(), 25)
        .unwrap_or_else(|_| panic!("valid voyage rejected"));

    r.delete_voyage(a.id, "alice".to_string())
        .unwrap_or_else(|_| panic!("delete refused"));

    let fetched = r.get_vessel(v.id).unwrap_or_else(|_| panic!("vessel vanished"));
    assert!(!fetched.voyages_ids.contains(&a.id));
    assert_eq!(fetched.voyages_ids, vec![b.id]);
    match r.get_voyage(a.id) {
        Err(Error::NotFound { msg }) => assert_eq!(msg, format!("a voyage with id={} not found", a.id)),
        _ => panic!("voyage should be gone"),
    }
}

#[test]
fn created_records_round_trip_field_by_field() {
    let mut r = Registry::new();
    let payload = VesselPayload {
        name: "Aurora".to_string(),
        captain: "Ada".to_string(),
        capacity: 40,
        current_location: "Pier 3".to_string(),
    };
    let v = r
        .add_vessel(payload.clone(), "alice".to_string(), 10)
        .unwrap_or_else(|_| panic!("valid payload rejected"));
    let fetched = r.get_vessel(v.id).unwrap_or_else(|_| panic!("vessel vanished"));
    assert_eq!(fetched.name, payload.name);
    assert_eq!(fetched.captain, payload.captain);
    assert_eq!(fetched.capacity, payload.capacity);
    assert_eq!(fetched.current_location, payload.current_location);
    assert_eq!(fetched.id, v.id);
    assert_eq!(fetched.admin_principal, "alice".to_string());
    assert_eq!(fetched.last_update, 10);

    let ypayload = VoyagePayload {
        vessel_id: v.id,
        departure_port: "Hamburg".to_string(),
        destination_port: "Oslo".to_string(),
        departure_time: 100,
        arrival_time: Some(900),
    };
    let y = r
        .add_voyage(ypayload.clone(), "alice".to_string(), 20)
        .unwrap_or_else(|_| panic!("valid voyage rejected"));
    let yfetched = r.get_voyage(y.id).unwrap_or_else(|_| panic!("voyage vanished"));
    assert_eq!(yfetched.vessel_id, ypayload.vessel_id);
    assert_eq!(yfetched.departure_port, ypayload.departure_port);
    assert_eq!(yfetched.destination_port, ypayload.destination_port);
    assert_eq!(yfetched.arrival_time, ypayload.arrival_time);
    // Server-assigned on creation: the departure time is stamped from the clock.
    assert_eq!(yfetched.departure_time, 20);
    assert_eq!(yfetched.id, y.id);
    assert_eq!(yfetched.admin_principal, "alice".to_string());
}
