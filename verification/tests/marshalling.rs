//! Marshalling behaviour: the embedded-NUL check, the boolean convention,
//! the enumeration constants, and the result-code mapping.

use simconnect::calls::ForeignCall;
use simconnect::marshal::{as_c_bool, check_c_string};
use simconnect::simconnect::{
    get_last_sent_packet_id_result, request_response_times_result, SimConnect,
};
use simconnect::types::{
    ClientDataPeriod, ClientDataRequestFlag, ClientDataSetFlag, ClientDataType,
    CreateClientDataFlag, DataRequestFlag, DataSetFlag, DataType, EventFlag, FacilityListType,
    Guid, InitPosition, Period, SimConnectError, SimObjectType, State,
};

#[test]
fn embedded_nul_is_rejected_before_any_foreign_call() {
    assert!(!check_c_string("a\0b"));
    assert!(!check_c_string("\0"));
    assert!(!check_c_string("ends in nul\0"));
    assert!(check_c_string(""));
    assert!(check_c_string("test"));
    // Multi-byte characters never encode a NUL byte.
    assert!(check_c_string("h\u{e9}llo \u{6a5f} \u{1f600}"));
    assert!(!check_c_string("h\u{e9}llo\0\u{6a5f}"));
}

#[test]
fn booleans_cross_as_exactly_zero_or_one() {
    assert_eq!(as_c_bool(true), 1);
    assert_eq!(as_c_bool(false), 0);
    let sc = SimConnect::new();
    match sc.add_client_event_to_notification_group(1, 2, true) {
        ForeignCall::AddClientEventToNotificationGroup { maskable, .. } => {
            assert_eq!(maskable, 1)
        }
        other => panic!("unexpected call: {:?}", other),
    }
    match sc.add_client_event_to_notification_group(1, 2, false) {
        ForeignCall::AddClientEventToNotificationGroup { maskable, .. } => {
            assert_eq!(maskable, 0)
        }
        other => panic!("unexpected call: {:?}", other),
    }
}

#[test]
fn init_position_marshals_bitwise_with_c_boolean() {
    let pos = InitPosition {
        latitude_bits: 1,
        longitude_bits: 2,
        altitude_bits: 3,
        pitch_bits: 4,
        bank_bits: 5,
        heading_bits: 6,
        on_ground: true,
        airspeed: 120,
    };
    let raw = pos.as_c_struct();
    assert_eq!(raw.latitude_bits, 1);
    assert_eq!(raw.longitude_bits, 2);
    assert_eq!(raw.altitude_bits, 3);
    assert_eq!(raw.pitch_bits, 4);
    assert_eq!(raw.bank_bits, 5);
    assert_eq!(raw.heading_bits, 6);
    assert_eq!(raw.on_ground, 1);
    assert_eq!(raw.airspeed, 120);
    let mut grounded = pos;
    grounded.on_ground = false;
    assert_eq!(grounded.as_c_struct().on_ground, 0);
}

#[test]
fn client_data_type_codes_match_the_vendor_sentinels() {
    assert_eq!(ClientDataType::Int8.code(), -1);
    assert_eq!(ClientDataType::Int16.code(), -2);
    assert_eq!(ClientDataType::Int32.code(), -3);
    assert_eq!(ClientDataType::Int64.code(), -4);
    assert_eq!(ClientDataType::Float32.code(), -5);
    assert_eq!(ClientDataType::Float64.code(), -6);
}

#[test]
fn data_type_codes_match_the_vendor_enumeration() {
    assert_eq!(DataType::Invalid.code(), 0);
    assert_eq!(DataType::Int32.code(), 1);
    assert_eq!(DataType::Int64.code(), 2);
    assert_eq!(DataType::Float32.code(), 3);
    assert_eq!(DataType::Float64.code(), 4);
    assert_eq!(DataType::String8.code(), 5);
    assert_eq!(DataType::String32.code(), 6);
    assert_eq!(DataType::String64.code(), 7);
    assert_eq!(DataType::String128.code(), 8);
    assert_eq!(DataType::String256.code(), 9);
    assert_eq!(DataType::String260.code(), 10);
    assert_eq!(DataType::StringV.code(), 11);
    assert_eq!(DataType::InitPosition.code(), 12);
    assert_eq!(DataType::MarkerState.code(), 13);
    assert_eq!(DataType::Waypoint.code(), 14);
    assert_eq!(DataType::LatLonAlt.code(), 15);
    assert_eq!(DataType::Xyz.code(), 16);
    assert_eq!(DataType::Max.code(), 17);
}

#[test]
fn period_and_flag_codes_match_the_vendor_constants() {
    assert_eq!(Period::Never.code(), 0);
    assert_eq!(Period::Once.code(), 1);
    assert_eq!(Period::VisualFrame.code(), 2);
    assert_eq!(Period::SimFrame.code(), 3);
    assert_eq!(Period::Second.code(), 4);

    assert_eq!(ClientDataPeriod::Never.code(), 0);
    assert_eq!(ClientDataPeriod::Once.code(), 1);
    assert_eq!(ClientDataPeriod::VisualFrame.code(), 2);
    assert_eq!(ClientDataPeriod::OnSet.code(), 3);
    assert_eq!(ClientDataPeriod::Second.code(), 4);

    assert_eq!(DataRequestFlag::Default.code(), 0);
    assert_eq!(DataRequestFlag::Changed.code(), 1);
    assert_eq!(DataRequestFlag::Tagged.code(), 2);

    assert_eq!(ClientDataRequestFlag::Default.code(), 0);
    assert_eq!(ClientDataRequestFlag::Changed.code(), 1);
    assert_eq!(ClientDataRequestFlag::Tagged.code(), 2);

    assert_eq!(DataSetFlag::Default.code(), 0);
    assert_eq!(DataSetFlag::Tagged.code(), 1);

    assert_eq!(ClientDataSetFlag::Default.code(), 0);
    assert_eq!(ClientDataSetFlag::Tagged.code(), 1);

    assert_eq!(CreateClientDataFlag::Default.code(), 0);
    assert_eq!(CreateClientDataFlag::ReadOnly.code(), 1);

    assert_eq!(EventFlag::Default.code(), 0);
    assert_eq!(EventFlag::FastRepeatTimer.code(), 1);
    assert_eq!(EventFlag::SlowRepeatTimer.code(), 2);
    assert_eq!(EventFlag::GroupIdIsPriority.code(), 16);

    assert_eq!(SimObjectType::User.code(), 0);
    assert_eq!(SimObjectType::All.code(), 1);
    assert_eq!(SimObjectType::Aircraft.code(), 2);
    assert_eq!(SimObjectType::Helicopter.code(), 3);
    assert_eq!(SimObjectType::Boat.code(), 4);
    assert_eq!(SimObjectType::Ground.code(), 5);

    assert_eq!(FacilityListType::Airport.code(), 0);
    assert_eq!(FacilityListType::Waypoint.code(), 1);
    assert_eq!(FacilityListType::Ndb.code(), 2);
    assert_eq!(FacilityListType::Vor.code(), 3);
    assert_eq!(FacilityListType::Count.code(), 4);

    assert_eq!(State::Off.code(), 0);
    assert_eq!(State::On.code(), 1);
}

#[test]
fn zero_result_code_is_success() {
    let sc = SimConnect::new();
    let call = sc.menu_delete_item(9);
    assert!(call.outcome(0).is_ok());
}

#[test]
fn nonzero_result_code_carries_label_and_raw_code() {
    let sc = SimConnect::new();
    let call = sc.menu_delete_item(9);
    let err = call.outcome(-2147467259).unwrap_err();
    assert_eq!(err.message, "Failed to delete menu item");
    assert_eq!(err.result, Some(-2147467259));
}

#[test]
fn packet_id_query_wraps_the_out_parameter() {
    assert_eq!(get_last_sent_packet_id_result(0, 42).unwrap(), 42);
    let err = get_last_sent_packet_id_result(1, 42).unwrap_err();
    assert_eq!(err.message, "Failed to get last sent package id");
    assert_eq!(err.result, Some(1));
}

#[test]
fn response_times_query_wraps_the_out_parameter() {
    let bits = 1.5f32.to_bits();
    assert_eq!(request_response_times_result(0, bits).unwrap(), bits);
    assert_eq!(f32::from_bits(request_response_times_result(0, bits).unwrap()), 1.5);
    let err = request_response_times_result(-5, bits).unwrap_err();
    assert_eq!(err.message, "Failed to request response times");
    assert_eq!(err.result, Some(-5));
}

#[test]
fn error_constructor_keeps_message_and_code() {
    let e = SimConnectError::new("some label", Some(7));
    assert_eq!(e.message, "some label");
    assert_eq!(e.result, Some(7));
    let e2 = SimConnectError::new("other", None);
    assert_eq!(e2.message, "other");
    assert_eq!(e2.result, None);
}

#[test]
fn guid_is_carried_through_unchanged() {
    let sc = SimConnect::new();
    let id = Guid { data1: 0xDEADBEEF, data2: 1, data3: 2, data4: [1, 2, 3, 4, 5, 6, 7, 8] };
    match sc.execute_missing_action(id) {
        ForeignCall::ExecuteMissionAction { instance_id, .. } => assert_eq!(instance_id, id),
        other => panic!("unexpected call: {:?}", other),
    }
    match sc.complete_custom_missing_action(id) {
        ForeignCall::CompleteCustomMissionAction { instance_id, .. } => {
            assert_eq!(instance_id, id)
        }
        other => panic!("unexpected call: {:?}", other),
    }
}
