//! Fully marshalled descriptions of the vendor calls.
//!
//! A [`ForeignCall`] value is the exact argument list of one native call,
//! already converted to the foreign representation: strings checked for
//! embedded NUL bytes, booleans mapped to `0`/`1`, enumerations mapped to
//! the vendor's integer constants, and floating-point payloads carried as
//! bit patterns.  A driver outside the verified boundary performs the call
//! it describes and maps the returned result code back through
//! [`ForeignCall::outcome`].

use vstd::prelude::*;
use crate::marshal::c_string_ok;
use crate::types::{Guid, RawInitPosition, SimConnectError, SimConnectResult, HResult};

verus! {

/// One vendor call, fully marshalled.  `handle` is the raw connection
/// handle value the call is made against (`0` when the connection was
/// never opened, exactly as the unchecked native call would receive it).
#[derive(Debug, Clone, PartialEq, Eq)]
pub enum ForeignCall {
    Open { program_name: String },
    Close { handle: u64 },
    AiCreateEnrouteAtcAircraft {
        handle: u64,
        container_title: String,
        tail_number: String,
        flight_number: i32,
        flight_plan_path: String,
        flight_plan_position_bits: u64,
        touch_and_go: u32,
        request_id: u32,
    },
    AiCreateNonAtcAircraft {
        handle: u64,
        container_title: String,
        tail_number: String,
        init_pos: RawInitPosition,
        request_id: u32,
    },
    AiCreateParkedAtcAircraft {
        handle: u64,
        container_title: String,
        tail_number: String,
        airport_id: String,
        request_id: u32,
    },
    AiCreateSimulatedObject {
        handle: u64,
        container_title: String,
        init_pos: RawInitPosition,
        request_id: u32,
    },
    AiReleaseControl { handle: u64, object_id: u32, request_id: u32 },
    AiRemoveObject { handle: u64, object_id: u32, request_id: u32 },
    AiSetAircraftFlightPlan {
        handle: u64,
        object_id: u32,
        flight_plan_path: String,
        request_id: u32,
    },
    AddClientEventToNotificationGroup {
        handle: u64,
        group_id: u32,
        event_id: u32,
        maskable: u32,
    },
    AddToClientDataDefinition {
        handle: u64,
        define_id: u32,
        offset: u32,
        size_or_type: u32,
        epsilon_bits: u32,
        datum_id: u32,
    },
    AddToDataDefinition {
        handle: u64,
        define_id: u32,
        datum_name: String,
        units_name: String,
        datum_type: u32,
        epsilon_bits: u32,
        datum_id: u32,
    },
    CameraSetRelative6Dof {
        handle: u64,
        delta_x_bits: u32,
        delta_y_bits: u32,
        delta_z_bits: u32,
        pitch_deg_bits: u32,
        bank_deg_bits: u32,
        heading_deg_bits: u32,
    },
    ClearClientDataDefinition { handle: u64, define_id: u32 },
    ClearDataDefinition { handle: u64, define_id: u32 },
    ClearInputGroup { handle: u64, group_id: u32 },
    ClearNotificationGroup { handle: u64, group_id: u32 },
    CompleteCustomMissionAction { handle: u64, instance_id: Guid },
    CreateClientData { handle: u64, client_data_id: u32, size: u32, flags: u32 },
    ExecuteMissionAction { handle: u64, instance_id: Guid },
    FlightLoad { handle: u64, filename: String },
    FlightPlanLoad { handle: u64, filename: String },
    FlightSave {
        handle: u64,
        filename: String,
        title: String,
        description: String,
        flags: u32,
    },
    GetLastSentPacketId { handle: u64 },
    GetNextDispatch { handle: u64 },
    MapClientDataNameToId { handle: u64, client_data_name: String, client_data_id: u32 },
    MapClientEventToSimEvent { handle: u64, event_id: u32, event_name: String },
    MapInputEventToClientEvent {
        handle: u64,
        group_id: u32,
        input_definition: String,
        down_event_id: u32,
        down_value: u32,
        up_event_id: u32,
        up_value: u32,
        maskable: u32,
    },
    MenuAddItem { handle: u64, menu_item: String, menu_event_id: u32, data: u32 },
    MenuAddSubItem {
        handle: u64,
        menu_event_id: u32,
        menu_item: String,
        sub_menu_event_id: u32,
        data: u32,
    },
    MenuDeleteItem { handle: u64, menu_event_id: u32 },
    MenuDeleteSubItem { handle: u64, menu_event_id: u32, sub_menu_event_id: u32 },
    RemoveClientEvent { handle: u64, group_id: u32, event_id: u32 },
    RemoveInputEvent { handle: u64, group_id: u32, input_definition: String },
    RequestClientData {
        handle: u64,
        client_data_id: u32,
        request_id: u32,
        define_id: u32,
        period: u32,
        flags: u32,
        origin: u32,
        interval: u32,
        limit: u32,
    },
    RequestDataOnSimObject {
        handle: u64,
        request_id: u32,
        define_id: u32,
        object_id: u32,
        period: u32,
        flags: u32,
        origin: u32,
        interval: u32,
        limit: u32,
    },
    RequestDataOnSimObjectType {
        handle: u64,
        request_id: u32,
        define_id: u32,
        radius_meters: u32,
        object_type: u32,
    },
    RequestFacilitiesList { handle: u64, list_type: u32, request_id: u32 },
    RequestNotificationGroup { handle: u64, group_id: u32, reserved: u32, flags: u32 },
    RequestReservedKey {
        handle: u64,
        event_id: u32,
        key_choice_1: String,
        key_choice_2: String,
        key_choice_3: String,
    },
    RequestResponseTimes { handle: u64, count: u32 },
    RequestSystemState { handle: u64, request_id: u32, state: String },
    SetClientData {
        handle: u64,
        client_id: u32,
        define_id: u32,
        flags: u32,
        reserved: u32,
        cb_unit_size: u32,
        data_set: Vec<u8>,
    },
    SetDataOnSimObject {
        handle: u64,
        define_id: u32,
        object_id: u32,
        flags: u32,
        array_count: u32,
        cb_unit_size: u32,
        data_set: Vec<u8>,
    },
    SetInputGroupPriority { handle: u64, group_id: u32, priority: u32 },
    SetInputGroupState { handle: u64, group_id: u32, state: u32 },
    SetNotificationGroupPriority { handle: u64, group_id: u32, priority: u32 },
    SetSystemEventState { handle: u64, event_id: u32, state: u32 },
    SetSystemState {
        handle: u64,
        state: String,
        integer: u32,
        float_bits: u32,
        string: String,
    },
    SubscribeToFacilities { handle: u64, list_type: u32, request_id: u32 },
    SubscribeToSystemEvent { handle: u64, event_id: u32, system_event_name: String },
    TransmitClientEvent {
        handle: u64,
        object_id: u32,
        event_id: u32,
        data: u32,
        group_id: u32,
        flags: u32,
    },
    UnsubscribeFromSystemEvent { handle: u64, event_id: u32 },
    UnsubscribeToFacilities { handle: u64, list_type: u32 },
}

impl ForeignCall {
    /// A call is well formed when every text argument it carries can be
    /// represented as a NUL-terminated foreign string.  Every call built by
    /// this crate is well formed, so no foreign call is ever attempted with
    /// a string the boundary cannot encode.
    pub open spec fn wf(self) -> bool {
        match self {
            ForeignCall::Open { program_name } => c_string_ok(program_name@),
            ForeignCall::AiCreateEnrouteAtcAircraft {
                container_title,
                tail_number,
                flight_plan_path,
                ..
            } => c_string_ok(container_title@) && c_string_ok(tail_number@) && c_string_ok(
                flight_plan_path@,
            ),
            ForeignCall::AiCreateNonAtcAircraft { container_title, tail_number, .. } => c_string_ok(
                container_title@,
            ) && c_string_ok(tail_number@),
            ForeignCall::AiCreateParkedAtcAircraft {
                container_title,
                tail_number,
                airport_id,
                ..
            } => c_string_ok(container_title@) && c_string_ok(tail_number@) && c_string_ok(
                airport_id@,
            ),
            ForeignCall::AiCreateSimulatedObject { container_title, .. } => c_string_ok(
                container_title@,
            ),
            ForeignCall::AiSetAircraftFlightPlan { flight_plan_path, .. } => c_string_ok(
                flight_plan_path@,
            ),
            ForeignCall::AddToDataDefinition { datum_name, units_name, .. } => c_string_ok(
                datum_name@,
            ) && c_string_ok(units_name@),
            ForeignCall::FlightLoad { filename, .. } => c_string_ok(filename@),
            ForeignCall::FlightPlanLoad { filename, .. } => c_string_ok(filename@),
            ForeignCall::FlightSave { filename, title, description, .. } => c_string_ok(filename@)
                && c_string_ok(title@) && c_string_ok(description@),
            ForeignCall::MapClientDataNameToId { client_data_name, .. } => c_string_ok(
                client_data_name@,
            ),
            ForeignCall::MapClientEventToSimEvent { event_name, .. } => c_string_ok(event_name@),
            ForeignCall::MapInputEventToClientEvent { input_definition, .. } => c_string_ok(
                input_definition@,
            ),
            ForeignCall::MenuAddItem { menu_item, .. } => c_string_ok(menu_item@),
            ForeignCall::MenuAddSubItem { menu_item, .. } => c_string_ok(menu_item@),
            ForeignCall::RemoveInputEvent { input_definition, .. } => c_string_ok(
                input_definition@,
            ),
            ForeignCall::RequestReservedKey { key_choice_1, key_choice_2, key_choice_3, .. } =>
                c_string_ok(key_choice_1@) && c_string_ok(key_choice_2@) && c_string_ok(
                key_choice_3@,
            ),
            ForeignCall::RequestSystemState { state, .. } => c_string_ok(state@),
            ForeignCall::SetSystemState { state, string, .. } => c_string_ok(state@) && c_string_ok(
                string@,
            ),
            ForeignCall::SubscribeToSystemEvent { system_event_name, .. } => c_string_ok(
                system_event_name@,
            ),
            _ => true,
        }
    }

    /// The static label describing a failure of this operation, exactly as
    /// it is surfaced in a [`SimConnectError`].
    pub open spec fn spec_label(self) -> Seq<char> {
        match self {
            ForeignCall::Open { .. } => "Failed to open connection"@,
            ForeignCall::Close { .. } => "Failed to close connection"@,
            ForeignCall::AiCreateEnrouteAtcAircraft { .. } =>
                "Failed to create enroute atc aircraft"@,
            ForeignCall::AiCreateNonAtcAircraft { .. } => "Failed to create non-atc aircraft"@,
            ForeignCall::AiCreateParkedAtcAircraft { .. } =>
                "Failed to create parked atc aircraft"@,
            ForeignCall::AiCreateSimulatedObject { .. } => "Failed to create simulated object"@,
            ForeignCall::AiReleaseControl { .. } => "Failed to release control"@,
            ForeignCall::AiRemoveObject { .. } => "Failed to remove object"@,
            ForeignCall::AiSetAircraftFlightPlan { .. } => "Failed to set aircraft flight plan"@,
            ForeignCall::AddClientEventToNotificationGroup { .. } =>
                "Failed to add client event to notification group"@,
            ForeignCall::AddToClientDataDefinition { .. } =>
                "Failed to add client data definition"@,
            ForeignCall::AddToDataDefinition { .. } => "Failed to add to data definition"@,
            ForeignCall::CameraSetRelative6Dof { .. } =>
                "Failed to change relative camera position"@,
            ForeignCall::ClearClientDataDefinition { .. } =>
                "Failed to clear client data definition"@,
            ForeignCall::ClearDataDefinition { .. } => "Failed to clear data definition"@,
            ForeignCall::ClearInputGroup { .. } => "Failed to clear input group"@,
            ForeignCall::ClearNotificationGroup { .. } => "Failed to clear notification group"@,
            ForeignCall::CompleteCustomMissionAction { .. } =>
                "Failed to complete custom missing action"@,
            ForeignCall::CreateClientData { .. } => "Failed to create client data"@,
            ForeignCall::ExecuteMissionAction { .. } => "Failed to execute missing action"@,
            ForeignCall::FlightLoad { .. } => "Failed to load flight"@,
            ForeignCall::FlightPlanLoad { .. } => "Failed to load flight plan"@,
            ForeignCall::FlightSave { .. } => "Failed to save flight"@,
            ForeignCall::GetLastSentPacketId { .. } => "Failed to get last sent package id"@,
            ForeignCall::GetNextDispatch { .. } => "Failed to get next dispatch"@,
            ForeignCall::MapClientDataNameToId { .. } => "Failed to map client data name to id"@,
            ForeignCall::MapClientEventToSimEvent { .. } =>
                "Failed to map client event to sim event"@,
            ForeignCall::MapInputEventToClientEvent { .. } =>
                "Failed to map input event to client event"@,
            ForeignCall::MenuAddItem { .. } => "Failed to add menu item"@,
            ForeignCall::MenuAddSubItem { .. } => "Failed to add sub menu item"@,
            ForeignCall::MenuDeleteItem { .. } => "Failed to delete menu item"@,
            ForeignCall::MenuDeleteSubItem { .. } => "Failed to delete sub menu item"@,
            ForeignCall::RemoveClientEvent { .. } => "Failed to remove client event"@,
            ForeignCall::RemoveInputEvent { .. } => "Failed to remove input event"@,
            ForeignCall::RequestClientData { .. } => "Failed to request client data"@,
            ForeignCall::RequestDataOnSimObject { .. } => "Failed to request data on sim object"@,
            ForeignCall::RequestDataOnSimObjectType { .. } =>
                "Failed to request data for sim object type"@,
            ForeignCall::RequestFacilitiesList { .. } => "Failed to request facilities list"@,
            ForeignCall::RequestNotificationGroup { .. } =>
                "Failed to request notification group"@,
            ForeignCall::RequestReservedKey { .. } => "Failed to request reserved key"@,
            ForeignCall::RequestResponseTimes { .. } => "Failed to request response times"@,
            ForeignCall::RequestSystemState { .. } => "Failed to request system state"@,
            ForeignCall::SetClientData { .. } => "Failed to set client data"@,
            ForeignCall::SetDataOnSimObject { .. } => "Failed to set data on sim object"@,
            ForeignCall::SetInputGroupPriority { .. } => "Failed to set input group priority"@,
            ForeignCall::SetInputGroupState { .. } => "Failed to set input group state"@,
            ForeignCall::SetNotificationGroupPriority { .. } =>
                "Failed to set notification group priority"@,
            ForeignCall::SetSystemEventState { .. } => "Failed to set system event state"@,
            ForeignCall::SetSystemState { .. } => "Failed to set system state"@,
            ForeignCall::SubscribeToFacilities { .. } => "Failed to subscribe to facilities"@,
            ForeignCall::SubscribeToSystemEvent { .. } => "Failed to subscribe to system event"@,
            ForeignCall::TransmitClientEvent { .. } => "Failed to transmit client event"@,
            ForeignCall::UnsubscribeFromSystemEvent { .. } =>
                "Failed to unsubscribe from system event"@,
            ForeignCall::UnsubscribeToFacilities { .. } => "Failed to unsubscribe to facilities"@,
        }
    }

    /// The static failure label of this operation.
    pub fn label(&self) -> (l: &'static str)
        ensures
            l@ == self.spec_label(),
    {
        match self {
            ForeignCall::Open { .. } => "Failed to open connection",
            ForeignCall::Close { .. } => "Failed to close connection",
            ForeignCall::AiCreateEnrouteAtcAircraft { .. } =>
                "Failed to create enroute atc aircraft",
            ForeignCall::AiCreateNonAtcAircraft { .. } => "Failed to create non-atc aircraft",
            ForeignCall::AiCreateParkedAtcAircraft { .. } =>
                "Failed to create parked atc aircraft",
            ForeignCall::AiCreateSimulatedObject { .. } => "Failed to create simulated object",
            ForeignCall::AiReleaseControl { .. } => "Failed to release control",
            ForeignCall::AiRemoveObject { .. } => "Failed to remove object",
            ForeignCall::AiSetAircraftFlightPlan { .. } => "Failed to set aircraft flight plan",
            ForeignCall::AddClientEventToNotificationGroup { .. } =>
                "Failed to add client event to notification group",
            ForeignCall::AddToClientDataDefinition { .. } =>
                "Failed to add client data definition",
            ForeignCall::AddToDataDefinition { .. } => "Failed to add to data definition",
            ForeignCall::CameraSetRelative6Dof { .. } =>
                "Failed to change relative camera position",
            ForeignCall::ClearClientDataDefinition { .. } =>
                "Failed to clear client data definition",
            ForeignCall::ClearDataDefinition { .. } => "Failed to clear data definition",
            ForeignCall::ClearInputGroup { .. } => "Failed to clear input group",
            ForeignCall::ClearNotificationGroup { .. } => "Failed to clear notification group",
            ForeignCall::CompleteCustomMissionAction { .. } =>
                "Failed to complete custom missing action",
            ForeignCall::CreateClientData { .. } => "Failed to create client data",
            ForeignCall::ExecuteMissionAction { .. } => "Failed to execute missing action",
            ForeignCall::FlightLoad { .. } => "Failed to load flight",
            ForeignCall::FlightPlanLoad { .. } => "Failed to load flight plan",
            ForeignCall::FlightSave { .. } => "Failed to save flight",
            ForeignCall::GetLastSentPacketId { .. } => "Failed to get last sent package id",
            ForeignCall::GetNextDispatch { .. } => "Failed to get next dispatch",
            ForeignCall::MapClientDataNameToId { .. } => "Failed to map client data name to id",
            ForeignCall::MapClientEventToSimEvent { .. } =>
                "Failed to map client event to sim event",
            ForeignCall::MapInputEventToClientEvent { .. } =>
                "Failed to map input event to client event",
            ForeignCall::MenuAddItem { .. } => "Failed to add menu item",
            ForeignCall::MenuAddSubItem { .. } => "Failed to add sub menu item",
            ForeignCall::MenuDeleteItem { .. } => "Failed to delete menu item",
            ForeignCall::MenuDeleteSubItem { .. } => "Failed to delete sub menu item",
            ForeignCall::RemoveClientEvent { .. } => "Failed to remove client event",
            ForeignCall::RemoveInputEvent { .. } => "Failed to remove input event",
            ForeignCall::RequestClientData { .. } => "Failed to request client data",
            ForeignCall::RequestDataOnSimObject { .. } => "Failed to request data on sim object",
            ForeignCall::RequestDataOnSimObjectType { .. } =>
                "Failed to request data for sim object type",
            ForeignCall::RequestFacilitiesList { .. } => "Failed to request facilities list",
            ForeignCall::RequestNotificationGroup { .. } =>
                "Failed to request notification group",
            ForeignCall::RequestReservedKey { .. } => "Failed to request reserved key",
            ForeignCall::RequestResponseTimes { .. } => "Failed to request response times",
            ForeignCall::RequestSystemState { .. } => "Failed to request system state",
            ForeignCall::SetClientData { .. } => "Failed to set client data",
            ForeignCall::SetDataOnSimObject { .. } => "Failed to set data on sim object",
            ForeignCall::SetInputGroupPriority { .. } => "Failed to set input group priority",
            ForeignCall::SetInputGroupState { .. } => "Failed to set input group state",
            ForeignCall::SetNotificationGroupPriority { .. } =>
                "Failed to set notification group priority",
            ForeignCall::SetSystemEventState { .. } => "Failed to set system event state",
            ForeignCall::SetSystemState { .. } => "Failed to set system state",
            ForeignCall::SubscribeToFacilities { .. } => "Failed to subscribe to facilities",
            ForeignCall::SubscribeToSystemEvent { .. } => "Failed to subscribe to system event",
            ForeignCall::TransmitClientEvent { .. } => "Failed to transmit client event",
            ForeignCall::UnsubscribeFromSystemEvent { .. } =>
                "Failed to unsubscribe from system event",
            ForeignCall::UnsubscribeToFacilities { .. } => "Failed to unsubscribe to facilities",
        }
    }

    /// Maps the raw result code of this call to the typed outcome: code `0`
    /// is success, any other code is a failure carrying this operation's
    /// label and the raw code.  This is the one shared result-code mapping
    /// used for every forwarding operation.
    pub fn outcome(&self, code: HResult) -> (r: SimConnectResult<()>)
        ensures
            r is Ok <==> code == 0,
            r matches Err(e) ==> e.message@ == self.spec_label() && e.result == Some(code),
    {
        if code == 0 {
            Ok(())
        } else {
            Err(SimConnectError::new(self.label(), Some(code)))
        }
    }
}

} // verus!
