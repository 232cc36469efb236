//! Forwarding operations build exactly the marshalled vendor call.

use simconnect::calls::ForeignCall;
use simconnect::simconnect::SimConnect;
use simconnect::types::{
    ClientDataPeriod, ClientDataRequestFlag, ClientDataSetFlag, DataRequestFlag, DataSetFlag,
    DataType, EventFlag, FacilityListType, InitPosition, Period, SimObjectType, State,
};

/// A wrapper whose connection is open on a known handle value.
fn open_wrapper(handle: u64) -> SimConnect {
    let mut sc = SimConnect::new();
    let call = sc.open("test");
    assert!(call.is_some());
    sc.finish_open(Some(handle)).unwrap();
    sc
}

#[test]
fn ai_create_enroute_atc_aircraft_marshals_every_argument() {
    let sc = open_wrapper(0x77);
    let pos_bits = 0.5f64.to_bits();
    let call = sc.ai_create_enroute_atc_aircraft(
        "Boeing 737",
        "N123",
        404,
        "plans/plan.pln",
        pos_bits,
        true,
        12,
    );
    assert_eq!(
        call,
        ForeignCall::AiCreateEnrouteAtcAircraft {
            handle: 0x77,
            container_title: "Boeing 737".to_string(),
            tail_number: "N123".to_string(),
            flight_number: 404,
            flight_plan_path: "plans/plan.pln".to_string(),
            flight_plan_position_bits: pos_bits,
            touch_and_go: 1,
            request_id: 12,
        }
    );
}

#[test]
fn ai_create_parked_atc_aircraft_marshals_every_argument() {
    let sc = open_wrapper(0x77);
    let call = sc.ai_create_parked_atc_aircraft("Cessna", "D-ABCD", "EDDF", 3);
    assert_eq!(
        call,
        ForeignCall::AiCreateParkedAtcAircraft {
            handle: 0x77,
            container_title: "Cessna".to_string(),
            tail_number: "D-ABCD".to_string(),
            airport_id: "EDDF".to_string(),
            request_id: 3,
        }
    );
}

#[test]
fn ai_object_calls_carry_identifiers_unchanged() {
    let sc = open_wrapper(5);
    assert_eq!(
        sc.ai_release_control(10, 11),
        ForeignCall::AiReleaseControl { handle: 5, object_id: 10, request_id: 11 }
    );
    assert_eq!(
        sc.ai_remove_object(10, 11),
        ForeignCall::AiRemoveObject { handle: 5, object_id: 10, request_id: 11 }
    );
    assert_eq!(
        sc.ai_set_aircraft_flight_plan(10, "p.pln", 11),
        ForeignCall::AiSetAircraftFlightPlan {
            handle: 5,
            object_id: 10,
            flight_plan_path: "p.pln".to_string(),
            request_id: 11,
        }
    );
}

#[test]
fn simulated_objects_carry_the_marshalled_position() {
    let sc = open_wrapper(5);
    let pos = InitPosition {
        latitude_bits: 47.0f64.to_bits(),
        longitude_bits: 11.0f64.to_bits(),
        altitude_bits: 3000.0f64.to_bits(),
        pitch_bits: 0,
        bank_bits: 0,
        heading_bits: 90.0f64.to_bits(),
        on_ground: false,
        airspeed: 140,
    };
    match sc.ai_create_non_atc_aircraft("Glider", "D-1234", pos, 9) {
        ForeignCall::AiCreateNonAtcAircraft { handle, init_pos, request_id, .. } => {
            assert_eq!(handle, 5);
            assert_eq!(init_pos, pos.as_c_struct());
            assert_eq!(init_pos.on_ground, 0);
            assert_eq!(f64::from_bits(init_pos.heading_bits), 90.0);
            assert_eq!(request_id, 9);
        }
        other => panic!("unexpected call: {:?}", other),
    }
    match sc.ai_create_simulated_object("Balloon", pos, 2) {
        ForeignCall::AiCreateSimulatedObject { init_pos, .. } => {
            assert_eq!(init_pos, pos.as_c_struct())
        }
        other => panic!("unexpected call: {:?}", other),
    }
}

#[test]
fn data_definition_calls_marshal_enums_and_strings() {
    let sc = open_wrapper(8);
    let eps = 0.25f32.to_bits();
    assert_eq!(
        sc.add_to_data_definition(4, "PLANE ALTITUDE", "feet", DataType::Float64, eps, 17),
        ForeignCall::AddToDataDefinition {
            handle: 8,
            define_id: 4,
            datum_name: "PLANE ALTITUDE".to_string(),
            units_name: "feet".to_string(),
            datum_type: 4,
            epsilon_bits: eps,
            datum_id: 17,
        }
    );
    assert_eq!(
        sc.add_to_client_data_definition(4, 16, 8, eps, 17),
        ForeignCall::AddToClientDataDefinition {
            handle: 8,
            define_id: 4,
            offset: 16,
            size_or_type: 8,
            epsilon_bits: eps,
            datum_id: 17,
        }
    );
    assert_eq!(
        sc.clear_data_definition(4),
        ForeignCall::ClearDataDefinition { handle: 8, define_id: 4 }
    );
    assert_eq!(
        sc.clear_client_data_definition(4),
        ForeignCall::ClearClientDataDefinition { handle: 8, define_id: 4 }
    );
}

#[test]
fn request_calls_marshal_periods_and_flags() {
    let sc = open_wrapper(8);
    assert_eq!(
        sc.request_data_on_sim_object(1, 2, 3, Period::SimFrame, DataRequestFlag::Changed, 4, 5, 6),
        ForeignCall::RequestDataOnSimObject {
            handle: 8,
            request_id: 1,
            define_id: 2,
            object_id: 3,
            period: 3,
            flags: 1,
            origin: 4,
            interval: 5,
            limit: 6,
        }
    );
    assert_eq!(
        sc.request_client_data(
            7,
            1,
            2,
            ClientDataPeriod::OnSet,
            ClientDataRequestFlag::Tagged,
            4,
            5,
            6,
        ),
        ForeignCall::RequestClientData {
            handle: 8,
            client_data_id: 7,
            request_id: 1,
            define_id: 2,
            period: 3,
            flags: 2,
            origin: 4,
            interval: 5,
            limit: 6,
        }
    );
    assert_eq!(
        sc.request_data_on_sim_object_type(1, 2, 5000, SimObjectType::Helicopter),
        ForeignCall::RequestDataOnSimObjectType {
            handle: 8,
            request_id: 1,
            define_id: 2,
            radius_meters: 5000,
            object_type: 3,
        }
    );
    assert_eq!(
        sc.request_facilities_list(FacilityListType::Vor, 21),
        ForeignCall::RequestFacilitiesList { handle: 8, list_type: 3, request_id: 21 }
    );
    assert_eq!(
        sc.subscribe_to_facilities(FacilityListType::Ndb, 22),
        ForeignCall::SubscribeToFacilities { handle: 8, list_type: 2, request_id: 22 }
    );
    assert_eq!(
        sc.unsubcribe_to_facilities(FacilityListType::Airport),
        ForeignCall::UnsubscribeToFacilities { handle: 8, list_type: 0 }
    );
}

#[test]
fn client_data_writes_carry_the_buffer() {
    let sc = open_wrapper(8);
    let bytes = vec![1u8, 2, 3, 4];
    assert_eq!(
        sc.set_client_data(1, 2, ClientDataSetFlag::Tagged, 0, 4, bytes.clone()),
        ForeignCall::SetClientData {
            handle: 8,
            client_id: 1,
            define_id: 2,
            flags: 1,
            reserved: 0,
            cb_unit_size: 4,
            data_set: bytes.clone(),
        }
    );
    assert_eq!(
        sc.set_data_on_sim_object(2, 3, DataSetFlag::Default, 1, 4, bytes.clone()),
        ForeignCall::SetDataOnSimObject {
            handle: 8,
            define_id: 2,
            object_id: 3,
            flags: 0,
            array_count: 1,
            cb_unit_size: 4,
            data_set: bytes,
        }
    );
}

#[test]
fn event_calls_marshal_booleans_and_flags() {
    let sc = open_wrapper(8);
    assert_eq!(
        sc.map_client_event_to_sim_event(30, "BRAKES"),
        ForeignCall::MapClientEventToSimEvent {
            handle: 8,
            event_id: 30,
            event_name: "BRAKES".to_string(),
        }
    );
    assert_eq!(
        sc.map_input_event_to_client_event(1, "joystick:0:button:0", 30, 1, 31, 0, false),
        ForeignCall::MapInputEventToClientEvent {
            handle: 8,
            group_id: 1,
            input_definition: "joystick:0:button:0".to_string(),
            down_event_id: 30,
            down_value: 1,
            up_event_id: 31,
            up_value: 0,
            maskable: 0,
        }
    );
    assert_eq!(
        sc.transmit_client_event(0, 30, 1, 2, EventFlag::GroupIdIsPriority),
        ForeignCall::TransmitClientEvent {
            handle: 8,
            object_id: 0,
            event_id: 30,
            data: 1,
            group_id: 2,
            flags: 16,
        }
    );
    assert_eq!(
        sc.set_system_event_state(30, State::On),
        ForeignCall::SetSystemEventState { handle: 8, event_id: 30, state: 1 }
    );
    assert_eq!(
        sc.subscribe_to_system_event(30, "4sec"),
        ForeignCall::SubscribeToSystemEvent {
            handle: 8,
            event_id: 30,
            system_event_name: "4sec".to_string(),
        }
    );
    assert_eq!(
        sc.unsubscribe_from_system_event(30),
        ForeignCall::UnsubscribeFromSystemEvent { handle: 8, event_id: 30 }
    );
}

#[test]
fn menu_flight_and_state_calls_marshal_their_arguments() {
    let sc = open_wrapper(8);
    assert_eq!(
        sc.menu_add_item("My Addon", 40, 0),
        ForeignCall::MenuAddItem {
            handle: 8,
            menu_item: "My Addon".to_string(),
            menu_event_id: 40,
            data: 0,
        }
    );
    assert_eq!(
        sc.menu_add_sub_item(40, "Settings", 41, 1),
        ForeignCall::MenuAddSubItem {
            handle: 8,
            menu_event_id: 40,
            menu_item: "Settings".to_string(),
            sub_menu_event_id: 41,
            data: 1,
        }
    );
    assert_eq!(
        sc.flight_save("saves/a.flt", "A flight", "desc", 0),
        ForeignCall::FlightSave {
            handle: 8,
            filename: "saves/a.flt".to_string(),
            title: "A flight".to_string(),
            description: "desc".to_string(),
            flags: 0,
        }
    );
    let fbits = 2.0f32.to_bits();
    assert_eq!(
        sc.set_system_state("DialogMode", 1, fbits, "value"),
        ForeignCall::SetSystemState {
            handle: 8,
            state: "DialogMode".to_string(),
            integer: 1,
            float_bits: fbits,
            string: "value".to_string(),
        }
    );
    assert_eq!(
        sc.request_system_state(2, "AircraftLoaded"),
        ForeignCall::RequestSystemState {
            handle: 8,
            request_id: 2,
            state: "AircraftLoaded".to_string(),
        }
    );
    assert_eq!(
        sc.request_reserved_key(50, "A", "B", "C"),
        ForeignCall::RequestReservedKey {
            handle: 8,
            event_id: 50,
            key_choice_1: "A".to_string(),
            key_choice_2: "B".to_string(),
            key_choice_3: "C".to_string(),
        }
    );
    assert_eq!(
        sc.get_last_sent_packet_id(),
        ForeignCall::GetLastSentPacketId { handle: 8 }
    );
    assert_eq!(sc.get_next_dispatch(), ForeignCall::GetNextDispatch { handle: 8 });
    assert_eq!(
        sc.request_response_times(5),
        ForeignCall::RequestResponseTimes { handle: 8, count: 5 }
    );
}

#[test]
fn group_and_menu_management_calls_marshal_their_arguments() {
    let sc = open_wrapper(8);
    assert_eq!(
        sc.clear_input_group(3),
        ForeignCall::ClearInputGroup { handle: 8, group_id: 3 }
    );
    assert_eq!(
        sc.clear_notification_group(3),
        ForeignCall::ClearNotificationGroup { handle: 8, group_id: 3 }
    );
    assert_eq!(
        sc.set_input_group_priority(3, 900),
        ForeignCall::SetInputGroupPriority { handle: 8, group_id: 3, priority: 900 }
    );
    assert_eq!(
        sc.set_input_group_state(3, 1),
        ForeignCall::SetInputGroupState { handle: 8, group_id: 3, state: 1 }
    );
    assert_eq!(
        sc.set_notification_group_priority(3, 900),
        ForeignCall::SetNotificationGroupPriority { handle: 8, group_id: 3, priority: 900 }
    );
    assert_eq!(
        sc.request_notification_group(3, 0, 0),
        ForeignCall::RequestNotificationGroup { handle: 8, group_id: 3, reserved: 0, flags: 0 }
    );
    assert_eq!(
        sc.remove_client_event(3, 30),
        ForeignCall::RemoveClientEvent { handle: 8, group_id: 3, event_id: 30 }
    );
    assert_eq!(
        sc.remove_input_event(3, "joystick:0:button:1"),
        ForeignCall::RemoveInputEvent {
            handle: 8,
            group_id: 3,
            input_definition: "joystick:0:button:1".to_string(),
        }
    );
    assert_eq!(
        sc.menu_delete_item(40),
        ForeignCall::MenuDeleteItem { handle: 8, menu_event_id: 40 }
    );
    assert_eq!(
        sc.menu_delete_sub_item(40, 41),
        ForeignCall::MenuDeleteSubItem { handle: 8, menu_event_id: 40, sub_menu_event_id: 41 }
    );
}

#[test]
fn client_data_and_camera_calls_marshal_their_arguments() {
    let sc = open_wrapper(8);
    assert_eq!(
        sc.map_client_data_name_to_id("shared.area", 6),
        ForeignCall::MapClientDataNameToId {
            handle: 8,
            client_data_name: "shared.area".to_string(),
            client_data_id: 6,
        }
    );
    assert_eq!(
        sc.create_client_data(6, 64, simconnect::types::CreateClientDataFlag::ReadOnly),
        ForeignCall::CreateClientData { handle: 8, client_data_id: 6, size: 64, flags: 1 }
    );
    let x = 1.0f32.to_bits();
    let y = 2.0f32.to_bits();
    let z = 3.0f32.to_bits();
    let p = 4.0f32.to_bits();
    let b = 5.0f32.to_bits();
    let h = 6.0f32.to_bits();
    assert_eq!(
        sc.camera_set_relative_6dof(x, y, z, p, b, h),
        ForeignCall::CameraSetRelative6Dof {
            handle: 8,
            delta_x_bits: x,
            delta_y_bits: y,
            delta_z_bits: z,
            pitch_deg_bits: p,
            bank_deg_bits: b,
            heading_deg_bits: h,
        }
    );
    assert_eq!(
        sc.flight_plan_load("plans/p.pln"),
        ForeignCall::FlightPlanLoad { handle: 8, filename: "plans/p.pln".to_string() }
    );
}

#[test]
fn default_wrapper_starts_closed() {
    let sc = SimConnect::default();
    assert!(!sc.opened());
}

#[test]
fn labels_name_the_failing_operation() {
    let sc = open_wrapper(8);
    assert_eq!(sc.flight_load("f.flt").label(), "Failed to load flight");
    assert_eq!(sc.flight_plan_load("f.pln").label(), "Failed to load flight plan");
    assert_eq!(sc.get_next_dispatch().label(), "Failed to get next dispatch");
    assert_eq!(
        sc.clear_notification_group(1).label(),
        "Failed to clear notification group"
    );
    assert_eq!(
        sc.set_notification_group_priority(1, 2).label(),
        "Failed to set notification group priority"
    );
}
