use vessel_registry::{
    is_invalid_string_input, validate_vessel_payload, validate_voyage_payload, Error, Registry,
    VesselPayload, VoyagePayload,
};

fn voyage_payload(vessel_id: u64, departure_time: u64) -> VoyagePayload {
    VoyagePayload {
        vessel_id,
        departure_port: "Hamburg".to_string(),
        destination_port: "Oslo".to_string(),
        departure_time,
        arrival_time: None,
    }
}

#[test]
fn blank_detection_matches_trimming() {
    assert!(is_invalid_string_input(""));
    assert!(is_invalid_string_input("   "));
    assert!(is_invalid_string_input(" \t\r\n"));
    assert!(is_invalid_string_input("\u{00a0}\u{2003}"));
    assert!(!is_invalid_string_input("x"));
    assert!(!is_invalid_string_input("  x  "));
}

#[test]
fn valid_vessel_payload_passes() {
    let p = VesselPayload {
        name: "Aurora".to_string(),
        captain: "Ada".to_string(),
        capacity: 1,
        current_location: "Pier 3".to_string(),
    };
    assert!(validate_vessel_payload(&p).is_ok());
}

#[test]
fn vessel_messages_carry_the_offending_values() {
    let p = VesselPayload {
        name: "  ".to_string(),
        captain: "\t".to_string(),
        capacity: 0,
        current_location: "".to_string(),
    };
    match validate_vessel_payload(&p) {
        Err(Error::InvalidPayload { errors }) => {
            assert_eq!(
                errors,
                vec![
                    "Vessel name='  ' cannot be empty.".to_string(),
                    "Captain='\t' cannot be empty.".to_string(),
                    "Current location='' cannot be empty.".to_string(),
                    "Capacity cannot be set to zero".to_string(),
                ]
            );
        }
        _ => panic!("expected InvalidPayload"),
    }
}

#[test]
fn voyage_time_messages_render_both_timestamps() {
    let p = VoyagePayload {
        vessel_id: 0,
        departure_port: "Hamburg".to_string(),
        destination_port: "Oslo".to_string(),
        departure_time: 5,
        arrival_time: Some(3),
    };
    match validate_voyage_payload(&p, 10) {
        Err(Error::InvalidPayload { errors }) => {
            assert_eq!(
                errors,
                vec![
                    "Departure time=5 needs to be equal or greater than the current timestamp=10"
                        .to_string(),
                    "Arrival time=3 needs to be greater than the departure time=5".to_string(),
                ]
            );
        }
        _ => panic!("expected InvalidPayload"),
    }
}

#[test]
fn voyage_ports_and_times_validate_together() {
    let p = VoyagePayload {
        vessel_id: 0,
        departure_port: " ".to_string(),
        destination_port: "".to_string(),
        departure_time: 7,
        arrival_time: Some(7),
    };
    match validate_voyage_payload(&p, 7) {
        Err(Error::InvalidPayload { errors }) => {
            assert_eq!(
                errors,
                vec![
                    "Voyage departure port=' ' cannot be empty.".to_string(),
                    "Voyage destination port='' cannot be empty.".to_string(),
                    "Arrival time=7 needs to be greater than the departure time=7".to_string(),
                ]
            );
        }
        _ => panic!("expected InvalidPayload"),
    }
}

#[test]
fn arrival_after_departure_passes() {
    let p = VoyagePayload {
        vessel_id: 0,
        departure_port: "Hamburg".to_string(),
        destination_port: "Oslo".to_string(),
        departure_time: 7,
        arrival_time: Some(8),
    };
    assert!(validate_voyage_payload(&p, 7).is_ok());
}

#[test]
fn update_vessel_overwrites_payload_fields_and_stamps_the_clock() {
    let mut r = Registry::new();
    let v = r
        .add_vessel(
            VesselPayload {
                name: "Aurora".to_string(),
                captain: "Ada".to_string(),
                capacity: 40,
                current_location: "Pier 3".to_string(),
            },
            "alice".to_string(),
            10,
        )
        .unwrap_or_else(|_| panic!("valid payload rejected"));
    r.update_vessel(
        v.id,
        VesselPayload {
            name: "Aurora II".to_string(),
            captain: "Grace".to_string(),
            capacity: 60,
            current_location: "Pier 4".to_string(),
        },
        "alice".to_string(),
        33,
    )
    .unwrap_or_else(|_| panic!("update refused"));
    let fetched = r.get_vessel(v.id).unwrap_or_else(|_| panic!("vessel vanished"));
    assert_eq!(fetched.name, "Aurora II".to_string());
    assert_eq!(fetched.captain, "Grace".to_string());
    assert_eq!(fetched.capacity, 60);
    assert_eq!(fetched.current_location, "Pier 4".to_string());
    assert_eq!(fetched.last_update, 33);
    assert_eq!(fetched.admin_principal, "alice".to_string());
    assert_eq!(fetched.id, v.id);
}

#[test]
fn update_voyage_overwrites_ports_and_times() {
    let mut r = Registry::new();
    let v = r
        .add_vessel(
            VesselPayload {
                name: "Aurora".to_string(),
                captain: "Ada".to_string(),
                capacity: 40,
                current_location: "Pier 3".to_string(),
            },
            "alice".to_string(),
            10,
        )
        .unwrap_or_else(|_| panic!("valid payload rejected"));
    let y = r
        .add_voyage(voyage_payload(v.id, 100), "alice".to_string(), 20)
        .unwrap_or_else(|_| panic!("valid voyage rejected"));
    let mut upd = voyage_payload(v.id, 200);
    upd.departure_port = "Kiel".to_string();
    upd.arrival_time = Some(900);
    r.update_voyage(y.id, upd, "alice".to_string(), 30)
        .unwrap_or_else(|_| panic!("update refused"));
    let fetched = r.get_voyage(y.id).unwrap_or_else(|_| panic!("voyage vanished"));
    assert_eq!(fetched.departure_port, "Kiel".to_string());
    assert_eq!(fetched.destination_port, "Oslo".to_string());
    assert_eq!(fetched.departure_time, 200);
    assert_eq!(fetched.arrival_time, Some(900));
    assert_eq!(fetched.vessel_id, v.id);
    assert_eq!(fetched.admin_principal, "alice".to_string());
}

#[test]
fn detached_voyage_cannot_be_updated_but_can_be_deleted() {
    let mut r = Registry::new();
    let v = r
        .add_vessel(
            VesselPayload {
                name: "Aurora".to_string(),
                captain: "Ada".to_string(),
                capacity: 40,
                current_location: "Pier 3".to_string(),
            },
            "alice".to_string(),
            10,
        )
        .unwrap_or_else(|_| panic!("valid payload rejected"));
    let y = r
        .add_voyage(voyage_payload(v.id, 100), "alice".to_string(), 20)
        .unwrap_or_else(|_| panic!("valid voyage rejected"));
    r.delete_vessel(v.id, "alice".to_string())
        .unwrap_or_else(|_| panic!("delete refused"));

    // The vessel is gone, so the re-resolution inside update_voyage fails.
    match r.update_voyage(y.id, voyage_payload(v.id, 300), "alice".to_string(), 30) {
        Err(Error::NotFound { msg }) => assert_eq!(msg, format!("a vessel with id={} not found", v.id)),
        _ => panic!("expected NotFound for the vanished vessel"),
    }

    // Deletion checks the voyage's own recorded admin and skips the vessel.
    r.delete_voyage(y.id, "alice".to_string())
        .unwrap_or_else(|_| panic!("delete refused"));
    assert!(matches!(r.get_voyage(y.id), Err(Error::NotFound { .. })));
}

#[test]
fn large_ids_render_in_decimal() {
    let mut r = Registry::new();
    match r.get_voyage(18446744073709551615) {
        Err(Error::NotFound { msg }) => {
            assert_eq!(msg, "a voyage with id=18446744073709551615 not found".to_string());
        }
        _ => panic!("expected NotFound"),
    }
    match r.get_vessel(907) {
        Err(Error::NotFound { msg }) => {
            assert_eq!(msg, "a vessel with id=907 not found".to_string());
        }
        _ => panic!("expected NotFound"),
    }
}
