use f1_game_telemetry::TelemetryBuilder;

#[test]
fn new_builder_subscribes_to_nothing() {
    let tel = TelemetryBuilder::new("127.0.0.1:2995".to_string()).build();
    for id in 0u8..=255 {
        assert!(!tel.is_wanted(id));
    }
    assert_eq!(tel.endpoint(), "127.0.0.1:2995");
}

#[test]
fn each_add_subscribes_to_its_id() {
    let cases: [(fn(TelemetryBuilder) -> TelemetryBuilder, u8); 12] = [
        (TelemetryBuilder::add_motion_data, 0),
        (TelemetryBuilder::add_session_data, 1),
        (TelemetryBuilder::add_lap_data, 2),
        (TelemetryBuilder::add_events_data, 3),
        (TelemetryBuilder::add_participant_data, 4),
        (TelemetryBuilder::add_car_setup_data, 5),
        (TelemetryBuilder::add_car_telemetry_data, 6),
        (TelemetryBuilder::add_car_status_data, 7),
        (TelemetryBuilder::add_final_classification_data, 8),
        (TelemetryBuilder::add_lobby_info_data, 9),
        (TelemetryBuilder::add_car_damage_data, 10),
        (TelemetryBuilder::add_session_history_data, 11),
    ];
    for (add, id) in cases {
        let tel = add(TelemetryBuilder::new("e".to_string())).build();
        for other in 0u8..=255 {
            assert_eq!(tel.is_wanted(other), other == id, "add for {} / id {}", id, other);
        }
    }
}

#[test]
fn add_all_data_includes_events() {
    let tel = TelemetryBuilder::new("e".to_string()).add_all_data().build();
    for id in 0u8..=255 {
        assert_eq!(tel.is_wanted(id), id <= 11);
    }
}

#[test]
fn add_all_data_except_events_leaves_events_out() {
    let tel = TelemetryBuilder::new("e".to_string()).add_all_data_except_events().build();
    for id in 0u8..=255 {
        assert_eq!(tel.is_wanted(id), id <= 11 && id != 3);
    }
    let tel = TelemetryBuilder::new("e".to_string())
        .add_events_data()
        .add_all_data_except_events()
        .build();
    assert!(tel.is_wanted(3));
}

#[test]
fn car_status_is_subscribed_by_add_all() {
    let tel = TelemetryBuilder::new("e".to_string()).add_all_data_except_events().build();
    assert!(tel.is_wanted(7));
    assert!(tel.is_wanted(10));
}

#[test]
fn adding_twice_is_the_same_as_once() {
    let tel = TelemetryBuilder::new("e".to_string())
        .add_lap_data()
        .add_lap_data()
        .build();
    assert!(tel.is_wanted(2));
    assert!(!tel.is_wanted(0));
}
