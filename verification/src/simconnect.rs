//! The handle-owning wrapper object.
//!
//! A [`SimConnect`] owns at most one connection handle: the value `0`
//! means "closed", any other value is an open native session.  Every
//! exposed operation builds the fully marshalled [`ForeignCall`] for its
//! vendor counterpart; the wrapper adds no precondition check of its own
//! except for `close`, so a call built before a successful open simply
//! carries the unset handle, exactly as the unchecked native call would.
//!
//! The vendor call itself happens outside the verified boundary.  A driver
//! performs the call a method describes and feeds the raw result code back
//! through [`ForeignCall::outcome`] (or through the completion functions
//! for the lifecycle and the payload-returning queries).

use vstd::prelude::*;
use crate::calls::ForeignCall;
use crate::marshal::c_string_ok;
use crate::types::{Guid, InitPosition, SimConnectError, SimConnectResult, HResult};
use crate::types::{
    ClientDataPeriod, ClientDataRequestFlag, ClientDataSetFlag, CreateClientDataFlag,
    DataRequestFlag, DataSetFlag, DataType, EventFlag, FacilityListType, Period, SimObjectType,
    State,
};

verus! {

/// Whether a raw handle value denotes an open session.
pub open spec fn handle_is_open(h: u64) -> bool {
    h != 0
}

/// Whether an open on a wrapper holding handle `h` issues a vendor call:
/// only when no connection is open yet.
pub open spec fn open_requests_call(h: u64) -> bool {
    !handle_is_open(h)
}

/// The handle after an open attempt: the value the vendor wrote when a
/// call was made, the old value when none was needed.
pub open spec fn handle_after_open(h: u64, vendor: Option<u64>) -> u64 {
    match vendor {
        Some(written) => written,
        None => h,
    }
}

/// Whether an open attempt that left the handle at `h` succeeded.
pub open spec fn open_ok(h: u64) -> bool {
    handle_is_open(h)
}

/// Whether a close request is rejected outright: closing a connection
/// that is not open fails without any foreign call.
pub open spec fn close_rejected(h: u64) -> bool {
    !handle_is_open(h)
}

/// Whether a close succeeded: the vendor call must have cleared the handle.
pub open spec fn close_ok(h_after: u64) -> bool {
    h_after == 0
}

/// One session with the vendor SDK.  The handle is owned exclusively by
/// this wrapper; it is never copied or shared.
pub struct SimConnect {
    handle: u64,
}

impl SimConnect {
    /// The raw handle value this wrapper currently owns (`0` when closed).
    pub closed spec fn handle_val(self) -> u64 {
        self.handle
    }

    /// Whether a connection is currently open.
    pub open spec fn is_open(self) -> bool {
        handle_is_open(self.handle_val())
    }

    /// A fresh wrapper with no connection.
    pub fn new() -> (s: Self)
        ensures
            s.handle_val() == 0,
            !s.is_open(),
    {
        SimConnect { handle: 0 }
    }

    /// Whether a connection is currently open.
    pub fn opened(&self) -> (b: bool)
        ensures
            b == self.is_open(),
    {
        self.handle != 0
    }

    /// Requests an open.  Opening is idempotent: when a connection is
    /// already open no foreign call is issued, and the later completion
    /// still reports success because the resource is already valid.
    pub fn open(&self, program_name: &str) -> (c: Option<ForeignCall>)
        requires
            c_string_ok(program_name@),
        ensures
            c is Some <==> open_requests_call(self.handle_val()),
            c matches Some(fc) ==> fc matches ForeignCall::Open { program_name: p }
                && p@ == program_name@ && fc.wf(),
    {
        if self.opened() {
            None
        } else {
            Some(ForeignCall::Open { program_name: program_name.to_owned() })
        }
    }

    /// Records the result of an open attempt.  `vendor_handle` is the
    /// handle the vendor call wrote, or `None` when no call was issued
    /// because the connection was already open.  The attempt succeeded
    /// exactly when the handle is now set.
    pub fn finish_open(&mut self, vendor_handle: Option<u64>) -> (r: SimConnectResult<()>)
        ensures
            final(self).handle_val() == handle_after_open(old(self).handle_val(), vendor_handle),
            r is Ok <==> open_ok(final(self).handle_val()),
            r is Ok <==> final(self).is_open(),
            r matches Err(e) ==> e.message@ == "Failed to open connection"@ && e.result is None,
    {
        if let Some(h) = vendor_handle {
            self.handle = h;
        }
        if self.handle == 0 {
            Err(SimConnectError::new("Failed to open connection", None))
        } else {
            Ok(())
        }
    }

    /// Requests a close.  Closing a connection that is not open is the one
    /// precondition this wrapper checks itself: it fails with the
    /// "already closed" error and no foreign call is issued.
    pub fn close(&self) -> (r: Result<ForeignCall, SimConnectError>)
        ensures
            r is Err <==> close_rejected(self.handle_val()),
            r matches Err(e) ==> e.message@ == "Connection already closed"@ && e.result is None,
            r matches Ok(fc) ==> fc == (ForeignCall::Close { handle: self.handle_val() })
                && fc.wf(),
    {
        if self.opened() {
            Ok(ForeignCall::Close { handle: self.handle })
        } else {
            Err(SimConnectError::new("Connection already closed", None))
        }
    }

    /// Records the result of a close: the handle value observed after the
    /// vendor call.  The close succeeded exactly when the vendor call
    /// cleared the handle; afterwards this wrapper owns whatever value was
    /// observed, so a successful close leaves the connection closed.
    pub fn finish_close(&mut self, observed_handle: u64) -> (r: SimConnectResult<()>)
        ensures
            final(self).handle_val() == observed_handle,
            r is Ok <==> close_ok(observed_handle),
            r is Ok ==> !final(self).is_open(),
            r matches Err(e) ==> e.message@ == "Failed to close connection"@ && e.result is None,
    {
        self.handle = observed_handle;
        if self.handle == 0 {
            Ok(())
        } else {
            Err(SimConnectError::new("Failed to close connection", None))
        }
    }

    /// The release decision a teardown takes: a close call when a
    /// connection is still open, nothing otherwise.  Discarding the
    /// wrapper must drive this call so the resource is released on every
    /// exit path; its failure is not observable (best-effort cleanup).
    pub fn release(&self) -> (c: Option<ForeignCall>)
        ensures
            self.is_open() <==> c is Some,
            c matches Some(fc) ==> fc == (ForeignCall::Close { handle: self.handle_val() }),
    {
        if self.opened() {
            Some(ForeignCall::Close { handle: self.handle })
        } else {
            None
        }
    }

    /// Creates an AI aircraft following an enroute ATC flight plan.
    pub fn ai_create_enroute_atc_aircraft(
        &self,
        container_title: &str,
        tail_number: &str,
        flight_number: i32,
        flight_plan_path: &str,
        flight_plan_position_bits: u64,
        touch_and_go: bool,
        request_id: u32,
    ) -> (c: ForeignCall)
        requires
            c_string_ok(container_title@),
            c_string_ok(tail_number@),
            c_string_ok(flight_plan_path@),
        ensures
            c matches ForeignCall::AiCreateEnrouteAtcAircraft {
                handle,
                container_title: ct,
                tail_number: tn,
                flight_number: fnum,
                flight_plan_path: fp,
                flight_plan_position_bits: pos,
                touch_and_go: tg,
                request_id: rid,
            } && handle == self.handle_val() && ct@ == container_title@ && tn@ == tail_number@
                && fnum == flight_number && fp@ == flight_plan_path@
                && pos == flight_plan_position_bits
                && tg == crate::marshal::spec_c_bool(touch_and_go) && rid == request_id,
            c.wf(),
    {
        ForeignCall::AiCreateEnrouteAtcAircraft {
            handle: self.handle,
            container_title: container_title.to_owned(),
            tail_number: tail_number.to_owned(),
            flight_number,
            flight_plan_path: flight_plan_path.to_owned(),
            flight_plan_position_bits,
            touch_and_go: crate::marshal::as_c_bool(touch_and_go),
            request_id,
        }
    }

    /// Creates an AI aircraft outside ATC control.
    pub fn ai_create_non_atc_aircraft(
        &self,
        container_title: &str,
        tail_number: &str,
        init_pos: InitPosition,
        request_id: u32,
    ) -> (c: ForeignCall)
        requires
            c_string_ok(container_title@),
            c_string_ok(tail_number@),
        ensures
            c matches ForeignCall::AiCreateNonAtcAircraft {
                handle,
                container_title: ct,
                tail_number: tn,
                init_pos: ip,
                request_id: rid,
            } && handle == self.handle_val() && ct@ == container_title@ && tn@ == tail_number@
                && ip == init_pos.as_raw() && rid == request_id,
            c.wf(),
    {
        ForeignCall::AiCreateNonAtcAircraft {
            handle: self.handle,
            container_title: container_title.to_owned(),
            tail_number: tail_number.to_owned(),
            init_pos: init_pos.as_c_struct(),
            request_id,
        }
    }

    /// Creates an AI aircraft parked at an airport.
    pub fn ai_create_parked_atc_aircraft(
        &self,
        container_title: &str,
        tail_number: &str,
        airport_id: &str,
        request_id: u32,
    ) -> (c: ForeignCall)
        requires
            c_string_ok(container_title@),
            c_string_ok(tail_number@),
            c_string_ok(airport_id@),
        ensures
            c matches ForeignCall::AiCreateParkedAtcAircraft {
                handle,
                container_title: ct,
                tail_number: tn,
                airport_id: ap,
                request_id: rid,
            } && handle == self.handle_val() && ct@ == container_title@ && tn@ == tail_number@
                && ap@ == airport_id@ && rid == request_id,
            c.wf(),
    {
        ForeignCall::AiCreateParkedAtcAircraft {
            handle: self.handle,
            container_title: container_title.to_owned(),
            tail_number: tail_number.to_owned(),
            airport_id: airport_id.to_owned(),
            request_id,
        }
    }

    /// Creates a simulated object of any kind.
    pub fn ai_create_simulated_object(
        &self,
        container_title: &str,
        init_pos: InitPosition,
        request_id: u32,
    ) -> (c: ForeignCall)
        requires
            c_string_ok(container_title@),
        ensures
            c matches ForeignCall::AiCreateSimulatedObject {
                handle,
                container_title: ct,
                init_pos: ip,
                request_id: rid,
            } && handle == self.handle_val() && ct@ == container_title@
                && ip == init_pos.as_raw() && rid == request_id,
            c.wf(),
    {
        ForeignCall::AiCreateSimulatedObject {
            handle: self.handle,
            container_title: container_title.to_owned(),
            init_pos: init_pos.as_c_struct(),
            request_id,
        }
    }

    /// Releases AI control of a simulated object.
    pub fn ai_release_control(&self, object_id: u32, request_id: u32) -> (c: ForeignCall)
        ensures
            c == (ForeignCall::AiReleaseControl {
                handle: self.handle_val(),
                object_id,
                request_id,
            }),
            c.wf(),
    {
        ForeignCall::AiReleaseControl { handle: self.handle, object_id, request_id }
    }

    /// Removes a simulated object.
    pub fn ai_remove_object(&self, object_id: u32, request_id: u32) -> (c: ForeignCall)
        ensures
            c == (ForeignCall::AiRemoveObject {
                handle: self.handle_val(),
                object_id,
                request_id,
            }),
            c.wf(),
    {
        ForeignCall::AiRemoveObject { handle: self.handle, object_id, request_id }
    }

    /// Assigns a flight plan to an AI aircraft.
    pub fn ai_set_aircraft_flight_plan(
        &self,
        object_id: u32,
        flight_plan_path: &str,
        request_id: u32,
    ) -> (c: ForeignCall)
        requires
            c_string_ok(flight_plan_path@),
        ensures
            c matches ForeignCall::AiSetAircraftFlightPlan {
                handle,
                object_id: oid,
                flight_plan_path: fp,
                request_id: rid,
            } && handle == self.handle_val() && oid == object_id && fp@ == flight_plan_path@
                && rid == request_id,
            c.wf(),
    {
        ForeignCall::AiSetAircraftFlightPlan {
            handle: self.handle,
            object_id,
            flight_plan_path: flight_plan_path.to_owned(),
            request_id,
        }
    }

    /// Adds a client event to a notification group.
    pub fn add_client_event_to_notification_group(
        &self,
        group_id: u32,
        event_id: u32,
        maskable: bool,
    ) -> (c: ForeignCall)
        ensures
            c == (ForeignCall::AddClientEventToNotificationGroup {
                handle: self.handle_val(),
                group_id,
                event_id,
                maskable: crate::marshal::spec_c_bool(maskable),
            }),
            c.wf(),
    {
        ForeignCall::AddClientEventToNotificationGroup {
            handle: self.handle,
            group_id,
            event_id,
            maskable: crate::marshal::as_c_bool(maskable),
        }
    }

    /// Adds an element to a client-data definition.  `epsilon_bits` is the
    /// bit pattern of the native single-precision change threshold.
    pub fn add_to_client_data_definition(
        &self,
        define_id: u32,
        offset: u32,
        size_or_type: u32,
        epsilon_bits: u32,
        datum_id: u32,
    ) -> (c: ForeignCall)
        ensures
            c == (ForeignCall::AddToClientDataDefinition {
                handle: self.handle_val(),
                define_id,
                offset,
                size_or_type,
                epsilon_bits,
                datum_id,
            }),
            c.wf(),
    {
        ForeignCall::AddToClientDataDefinition {
            handle: self.handle,
            define_id,
            offset,
            size_or_type,
            epsilon_bits,
            datum_id,
        }
    }

    /// Adds a datum to a data definition.
    pub fn add_to_data_definition(
        &self,
        define_id: u32,
        datum_name: &str,
        units_name: &str,
        datum_type: DataType,
        epsilon_bits: u32,
        datum_id: u32,
    ) -> (c: ForeignCall)
        requires
            c_string_ok(datum_name@),
            c_string_ok(units_name@),
        ensures
            c matches ForeignCall::AddToDataDefinition {
                handle,
                define_id: did,
                datum_name: dn,
                units_name: un,
                datum_type: dt,
                epsilon_bits: eb,
                datum_id: datum,
            } && handle == self.handle_val() && did == define_id && dn@ == datum_name@
                && un@ == units_name@ && dt == datum_type.spec_code() && eb == epsilon_bits
                && datum == datum_id,
            c.wf(),
    {
        ForeignCall::AddToDataDefinition {
            handle: self.handle,
            define_id,
            datum_name: datum_name.to_owned(),
            units_name: units_name.to_owned(),
            datum_type: datum_type.code(),
            epsilon_bits,
            datum_id,
        }
    }

    /// Moves the camera relative to its current position.  Each argument
    /// is the bit pattern of a native single-precision value.
    pub fn camera_set_relative_6dof(
        &self,
        delta_x_bits: u32,
        delta_y_bits: u32,
        delta_z_bits: u32,
        pitch_deg_bits: u32,
        bank_deg_bits: u32,
        heading_deg_bits: u32,
    ) -> (c: ForeignCall)
        ensures
            c == (ForeignCall::CameraSetRelative6Dof {
                handle: self.handle_val(),
                delta_x_bits,
                delta_y_bits,
                delta_z_bits,
                pitch_deg_bits,
                bank_deg_bits,
                heading_deg_bits,
            }),
            c.wf(),
    {
        ForeignCall::CameraSetRelative6Dof {
            handle: self.handle,
            delta_x_bits,
            delta_y_bits,
            delta_z_bits,
            pitch_deg_bits,
            bank_deg_bits,
            heading_deg_bits,
        }
    }

    /// Clears a client-data definition.
    pub fn clear_client_data_definition(&self, define_id: u32) -> (c: ForeignCall)
        ensures
            c == (ForeignCall::ClearClientDataDefinition {
                handle: self.handle_val(),
                define_id,
            }),
            c.wf(),
    {
        ForeignCall::ClearClientDataDefinition { handle: self.handle, define_id }
    }

    /// Clears a data definition.
    pub fn clear_data_definition(&self, define_id: u32) -> (c: ForeignCall)
        ensures
            c == (ForeignCall::ClearDataDefinition { handle: self.handle_val(), define_id }),
            c.wf(),
    {
        ForeignCall::ClearDataDefinition { handle: self.handle, define_id }
    }

    /// Clears an input group.
    pub fn clear_input_group(&self, group_id: u32) -> (c: ForeignCall)
        ensures
            c == (ForeignCall::ClearInputGroup { handle: self.handle_val(), group_id }),
            c.wf(),
    {
        ForeignCall::ClearInputGroup { handle: self.handle, group_id }
    }

    /// Clears a notification group.
    pub fn clear_notification_group(&self, group_id: u32) -> (c: ForeignCall)
        ensures
            c == (ForeignCall::ClearNotificationGroup { handle: self.handle_val(), group_id }),
            c.wf(),
    {
        ForeignCall::ClearNotificationGroup { handle: self.handle, group_id }
    }

    /// Completes a custom mission action.
    pub fn complete_custom_missing_action(&self, instance_id: Guid) -> (c: ForeignCall)
        ensures
            c == (ForeignCall::CompleteCustomMissionAction {
                handle: self.handle_val(),
                instance_id,
            }),
            c.wf(),
    {
        ForeignCall::CompleteCustomMissionAction { handle: self.handle, instance_id }
    }

    /// Creates a client-data buffer.
    pub fn create_client_data(
        &self,
        client_data_id: u32,
        size: u32,
        flags: CreateClientDataFlag,
    ) -> (c: ForeignCall)
        ensures
            c == (ForeignCall::CreateClientData {
                handle: self.handle_val(),
                client_data_id,
                size,
                flags: flags.spec_code(),
            }),
            c.wf(),
    {
        ForeignCall::CreateClientData {
            handle: self.handle,
            client_data_id,
            size,
            flags: flags.code(),
        }
    }

    /// Executes a mission action.
    pub fn execute_missing_action(&self, instance_id: Guid) -> (c: ForeignCall)
        ensures
            c == (ForeignCall::ExecuteMissionAction { handle: self.handle_val(), instance_id }),
            c.wf(),
    {
        ForeignCall::ExecuteMissionAction { handle: self.handle, instance_id }
    }

    /// Loads a flight file.
    pub fn flight_load(&self, filename: &str) -> (c: ForeignCall)
        requires
            c_string_ok(filename@),
        ensures
            c matches ForeignCall::FlightLoad { handle, filename: f } && handle
                == self.handle_val() && f@ == filename@,
            c.wf(),
    {
        ForeignCall::FlightLoad { handle: self.handle, filename: filename.to_owned() }
    }

    /// Loads a flight plan file.
    pub fn flight_plan_load(&self, filename: &str) -> (c: ForeignCall)
        requires
            c_string_ok(filename@),
        ensures
            c matches ForeignCall::FlightPlanLoad { handle, filename: f } && handle
                == self.handle_val() && f@ == filename@,
            c.wf(),
    {
        ForeignCall::FlightPlanLoad { handle: self.handle, filename: filename.to_owned() }
    }

    /// Saves the current flight.
    pub fn flight_save(
        &self,
        filename: &str,
        title: &str,
        description: &str,
        flags: u32,
    ) -> (c: ForeignCall)
        requires
            c_string_ok(filename@),
            c_string_ok(title@),
            c_string_ok(description@),
        ensures
            c matches ForeignCall::FlightSave {
                handle,
                filename: f,
                title: t,
                description: d,
                flags: fl,
            } && handle == self.handle_val() && f@ == filename@ && t@ == title@
                && d@ == description@ && fl == flags,
            c.wf(),
    {
        ForeignCall::FlightSave {
            handle: self.handle,
            filename: filename.to_owned(),
            title: title.to_owned(),
            description: description.to_owned(),
            flags,
        }
    }

    /// Queries the identifier of the last packet sent to the vendor SDK.
    /// The vendor returns it through an out-parameter; feed it to
    /// [`get_last_sent_packet_id_result`] together with the result code.
    pub fn get_last_sent_packet_id(&self) -> (c: ForeignCall)
        ensures
            c == (ForeignCall::GetLastSentPacketId { handle: self.handle_val() }),
            c.wf(),
    {
        ForeignCall::GetLastSentPacketId { handle: self.handle }
    }

    /// Drains at most one pending message from the vendor SDK's queue.
    /// The message itself is written through out-parameters owned by the
    /// driver; map the result code with [`ForeignCall::outcome`].
    pub fn get_next_dispatch(&self) -> (c: ForeignCall)
        ensures
            c == (ForeignCall::GetNextDispatch { handle: self.handle_val() }),
            c.wf(),
    {
        ForeignCall::GetNextDispatch { handle: self.handle }
    }

    /// Maps a client-data area name to an identifier.
    pub fn map_client_data_name_to_id(
        &self,
        client_data_name: &str,
        client_data_id: u32,
    ) -> (c: ForeignCall)
        requires
            c_string_ok(client_data_name@),
        ensures
            c matches ForeignCall::MapClientDataNameToId {
                handle,
                client_data_name: n,
                client_data_id: cid,
            } && handle == self.handle_val() && n@ == client_data_name@
                && cid == client_data_id,
            c.wf(),
    {
        ForeignCall::MapClientDataNameToId {
            handle: self.handle,
            client_data_name: client_data_name.to_owned(),
            client_data_id,
        }
    }

    /// Maps a client event to a named simulator event.
    pub fn map_client_event_to_sim_event(
        &self,
        event_id: u32,
        event_name: &str,
    ) -> (c: ForeignCall)
        requires
            c_string_ok(event_name@),
        ensures
            c matches ForeignCall::MapClientEventToSimEvent {
                handle,
                event_id: eid,
                event_name: n,
            } && handle == self.handle_val() && eid == event_id && n@ == event_name@,
            c.wf(),
    {
        ForeignCall::MapClientEventToSimEvent {
            handle: self.handle,
            event_id,
            event_name: event_name.to_owned(),
        }
    }

    /// Maps an input definition to client events.
    pub fn map_input_event_to_client_event(
        &self,
        group_id: u32,
        input_definition: &str,
        down_event_id: u32,
        down_value: u32,
        up_event_id: u32,
        up_value: u32,
        maskable: bool,
    ) -> (c: ForeignCall)
        requires
            c_string_ok(input_definition@),
        ensures
            c matches ForeignCall::MapInputEventToClientEvent {
                handle,
                group_id: gid,
                input_definition: idef,
                down_event_id: de,
                down_value: dv,
                up_event_id: ue,
                up_value: uv,
                maskable: m,
            } && handle == self.handle_val() && gid == group_id && idef@ == input_definition@
                && de == down_event_id && dv == down_value && ue == up_event_id
                && uv == up_value && m == crate::marshal::spec_c_bool(maskable),
            c.wf(),
    {
        ForeignCall::MapInputEventToClientEvent {
            handle: self.handle,
            group_id,
            input_definition: input_definition.to_owned(),
            down_event_id,
            down_value,
            up_event_id,
            up_value,
            maskable: crate::marshal::as_c_bool(maskable),
        }
    }

    /// Adds an item to the simulator's add-on menu.
    pub fn menu_add_item(
        &self,
        menu_item: &str,
        menu_event_id: u32,
        data: u32,
    ) -> (c: ForeignCall)
        requires
            c_string_ok(menu_item@),
        ensures
            c matches ForeignCall::MenuAddItem {
                handle,
                menu_item: mi,
                menu_event_id: me,
                data: d,
            } && handle == self.handle_val() && mi@ == menu_item@ && me == menu_event_id
                && d == data,
            c.wf(),
    {
        ForeignCall::MenuAddItem {
            handle: self.handle,
            menu_item: menu_item.to_owned(),
            menu_event_id,
            data,
        }
    }

    /// Adds a sub-item under an existing menu item.
    pub fn menu_add_sub_item(
        &self,
        menu_event_id: u32,
        menu_item: &str,
        sub_menu_event_id: u32,
        data: u32,
    ) -> (c: ForeignCall)
        requires
            c_string_ok(menu_item@),
        ensures
            c matches ForeignCall::MenuAddSubItem {
                handle,
                menu_event_id: me,
                menu_item: mi,
                sub_menu_event_id: sme,
                data: d,
            } && handle == self.handle_val() && me == menu_event_id && mi@ == menu_item@
                && sme == sub_menu_event_id && d == data,
            c.wf(),
    {
        ForeignCall::MenuAddSubItem {
            handle: self.handle,
            menu_event_id,
            menu_item: menu_item.to_owned(),
            sub_menu_event_id,
            data,
        }
    }

    /// Deletes a menu item.
    pub fn menu_delete_item(&self, menu_event_id: u32) -> (c: ForeignCall)
        ensures
            c == (ForeignCall::MenuDeleteItem { handle: self.handle_val(), menu_event_id }),
            c.wf(),
    {
        ForeignCall::MenuDeleteItem { handle: self.handle, menu_event_id }
    }

    /// Deletes a menu sub-item.
    pub fn menu_delete_sub_item(
        &self,
        menu_event_id: u32,
        sub_menu_event_id: u32,
    ) -> (c: ForeignCall)
        ensures
            c == (ForeignCall::MenuDeleteSubItem {
                handle: self.handle_val(),
                menu_event_id,
                sub_menu_event_id,
            }),
            c.wf(),
    {
        ForeignCall::MenuDeleteSubItem { handle: self.handle, menu_event_id, sub_menu_event_id }
    }

    /// Removes a client event from a notification group.
    pub fn remove_client_event(&self, group_id: u32, event_id: u32) -> (c: ForeignCall)
        ensures
            c == (ForeignCall::RemoveClientEvent {
                handle: self.handle_val(),
                group_id,
                event_id,
            }),
            c.wf(),
    {
        ForeignCall::RemoveClientEvent { handle: self.handle, group_id, event_id }
    }

    /// Removes an input event from an input group.
    pub fn remove_input_event(&self, group_id: u32, input_definition: &str) -> (c: ForeignCall)
        requires
            c_string_ok(input_definition@),
        ensures
            c matches ForeignCall::RemoveInputEvent {
                handle,
                group_id: gid,
                input_definition: idef,
            } && handle == self.handle_val() && gid == group_id && idef@ == input_definition@,
            c.wf(),
    {
        ForeignCall::RemoveInputEvent {
            handle: self.handle,
            group_id,
            input_definition: input_definition.to_owned(),
        }
    }

    /// Requests periodic reports of a client-data buffer.
    pub fn request_client_data(
        &self,
        client_data_id: u32,
        request_id: u32,
        define_id: u32,
        period: ClientDataPeriod,
        flags: ClientDataRequestFlag,
        origin: u32,
        interval: u32,
        limit: u32,
    ) -> (c: ForeignCall)
        ensures
            c == (ForeignCall::RequestClientData {
                handle: self.handle_val(),
                client_data_id,
                request_id,
                define_id,
                period: period.spec_code(),
                flags: flags.spec_code(),
                origin,
                interval,
                limit,
            }),
            c.wf(),
    {
        ForeignCall::RequestClientData {
            handle: self.handle,
            client_data_id,
            request_id,
            define_id,
            period: period.code(),
            flags: flags.code(),
            origin,
            interval,
            limit,
        }
    }

    /// Requests periodic reports of data on a simulated object.
    pub fn request_data_on_sim_object(
        &self,
        request_id: u32,
        define_id: u32,
        object_id: u32,
        period: Period,
        flags: DataRequestFlag,
        origin: u32,
        interval: u32,
        limit: u32,
    ) -> (c: ForeignCall)
        ensures
            c == (ForeignCall::RequestDataOnSimObject {
                handle: self.handle_val(),
                request_id,
                define_id,
                object_id,
                period: period.spec_code(),
                flags: flags.spec_code(),
                origin,
                interval,
                limit,
            }),
            c.wf(),
    {
        ForeignCall::RequestDataOnSimObject {
            handle: self.handle,
            request_id,
            define_id,
            object_id,
            period: period.code(),
            flags: flags.code(),
            origin,
            interval,
            limit,
        }
    }

    /// Requests data on all objects of a kind within a radius.
    pub fn request_data_on_sim_object_type(
        &self,
        request_id: u32,
        define_id: u32,
        radius_meters: u32,
        type_: SimObjectType,
    ) -> (c: ForeignCall)
        ensures
            c == (ForeignCall::RequestDataOnSimObjectType {
                handle: self.handle_val(),
                request_id,
                define_id,
                radius_meters,
                object_type: type_.spec_code(),
            }),
            c.wf(),
    {
        ForeignCall::RequestDataOnSimObjectType {
            handle: self.handle,
            request_id,
            define_id,
            radius_meters,
            object_type: type_.code(),
        }
    }

    /// Requests a one-shot facility list.
    pub fn request_facilities_list(
        &self,
        type_: FacilityListType,
        request_id: u32,
    ) -> (c: ForeignCall)
        ensures
            c == (ForeignCall::RequestFacilitiesList {
                handle: self.handle_val(),
                list_type: type_.spec_code(),
                request_id,
            }),
            c.wf(),
    {
        ForeignCall::RequestFacilitiesList {
            handle: self.handle,
            list_type: type_.code(),
            request_id,
        }
    }

    /// Requests the events held in a notification group.
    pub fn request_notification_group(
        &self,
        group_id: u32,
        reserved: u32,
        flags: u32,
    ) -> (c: ForeignCall)
        ensures
            c == (ForeignCall::RequestNotificationGroup {
                handle: self.handle_val(),
                group_id,
                reserved,
                flags,
            }),
            c.wf(),
    {
        ForeignCall::RequestNotificationGroup { handle: self.handle, group_id, reserved, flags }
    }

    /// Requests a reserved key combination.
    pub fn request_reserved_key(
        &self,
        event_id: u32,
        key_choice_1: &str,
        key_choice_2: &str,
        key_choice_3: &str,
    ) -> (c: ForeignCall)
        requires
            c_string_ok(key_choice_1@),
            c_string_ok(key_choice_2@),
            c_string_ok(key_choice_3@),
        ensures
            c matches ForeignCall::RequestReservedKey {
                handle,
                event_id: eid,
                key_choice_1: k1,
                key_choice_2: k2,
                key_choice_3: k3,
            } && handle == self.handle_val() && eid == event_id && k1@ == key_choice_1@
                && k2@ == key_choice_2@ && k3@ == key_choice_3@,
            c.wf(),
    {
        ForeignCall::RequestReservedKey {
            handle: self.handle,
            event_id,
            key_choice_1: key_choice_1.to_owned(),
            key_choice_2: key_choice_2.to_owned(),
            key_choice_3: key_choice_3.to_owned(),
        }
    }

    /// Measures vendor round-trip response times.  The vendor returns the
    /// elapsed seconds through an out-parameter; feed its bit pattern to
    /// [`request_response_times_result`] together with the result code.
    pub fn request_response_times(&self, count: u32) -> (c: ForeignCall)
        ensures
            c == (ForeignCall::RequestResponseTimes { handle: self.handle_val(), count }),
            c.wf(),
    {
        ForeignCall::RequestResponseTimes { handle: self.handle, count }
    }

    /// Queries a named system state.
    pub fn request_system_state(&self, request_id: u32, state: &str) -> (c: ForeignCall)
        requires
            c_string_ok(state@),
        ensures
            c matches ForeignCall::RequestSystemState { handle, request_id: rid, state: st }
                && handle == self.handle_val() && rid == request_id && st@ == state@,
            c.wf(),
    {
        ForeignCall::RequestSystemState {
            handle: self.handle,
            request_id,
            state: state.to_owned(),
        }
    }

    /// Writes a client-data buffer.  `data_set` is the raw bytes the
    /// vendor call is pointed at.
    pub fn set_client_data(
        &self,
        client_id: u32,
        define_id: u32,
        flags: ClientDataSetFlag,
        reserved: u32,
        cb_unit_size: u32,
        data_set: Vec<u8>,
    ) -> (c: ForeignCall)
        ensures
            c matches ForeignCall::SetClientData {
                handle,
                client_id: cid,
                define_id: did,
                flags: fl,
                reserved: rsv,
                cb_unit_size: sz,
                data_set: ds,
            } && handle == self.handle_val() && cid == client_id && did == define_id
                && fl == flags.spec_code() && rsv == reserved && sz == cb_unit_size
                && ds@ == data_set@,
            c.wf(),
    {
        ForeignCall::SetClientData {
            handle: self.handle,
            client_id,
            define_id,
            flags: flags.code(),
            reserved,
            cb_unit_size,
            data_set,
        }
    }

    /// Writes data onto a simulated object.  `data_set` is the raw bytes
    /// the vendor call is pointed at.
    pub fn set_data_on_sim_object(
        &self,
        define_id: u32,
        object_id: u32,
        flags: DataSetFlag,
        array_count: u32,
        cb_unit_size: u32,
        data_set: Vec<u8>,
    ) -> (c: ForeignCall)
        ensures
            c matches ForeignCall::SetDataOnSimObject {
                handle,
                define_id: did,
                object_id: oid,
                flags: fl,
                array_count: ac,
                cb_unit_size: sz,
                data_set: ds,
            } && handle == self.handle_val() && did == define_id && oid == object_id
                && fl == flags.spec_code() && ac == array_count && sz == cb_unit_size
                && ds@ == data_set@,
            c.wf(),
    {
        ForeignCall::SetDataOnSimObject {
            handle: self.handle,
            define_id,
            object_id,
            flags: flags.code(),
            array_count,
            cb_unit_size,
            data_set,
        }
    }

    /// Sets the priority of an input group.
    pub fn set_input_group_priority(&self, group_id: u32, priority: u32) -> (c: ForeignCall)
        ensures
            c == (ForeignCall::SetInputGroupPriority {
                handle: self.handle_val(),
                group_id,
                priority,
            }),
            c.wf(),
    {
        ForeignCall::SetInputGroupPriority { handle: self.handle, group_id, priority }
    }

    /// Turns an input group on or off.
    pub fn set_input_group_state(&self, group_id: u32, state: u32) -> (c: ForeignCall)
        ensures
            c == (ForeignCall::SetInputGroupState {
                handle: self.handle_val(),
                group_id,
                state,
            }),
            c.wf(),
    {
        ForeignCall::SetInputGroupState { handle: self.handle, group_id, state }
    }

    /// Sets the priority of a notification group.
    pub fn set_notification_group_priority(
        &self,
        group_id: u32,
        priority: u32,
    ) -> (c: ForeignCall)
        ensures
            c == (ForeignCall::SetNotificationGroupPriority {
                handle: self.handle_val(),
                group_id,
                priority,
            }),
            c.wf(),
    {
        ForeignCall::SetNotificationGroupPriority { handle: self.handle, group_id, priority }
    }

    /// Turns a system event subscription on or off.
    pub fn set_system_event_state(&self, event_id: u32, state: State) -> (c: ForeignCall)
        ensures
            c == (ForeignCall::SetSystemEventState {
                handle: self.handle_val(),
                event_id,
                state: state.spec_code(),
            }),
            c.wf(),
    {
        ForeignCall::SetSystemEventState {
            handle: self.handle,
            event_id,
            state: state.code(),
        }
    }

    /// Sets a named system state.  `float_bits` is the bit pattern of the
    /// native single-precision argument.
    pub fn set_system_state(
        &self,
        state: &str,
        integer: u32,
        float_bits: u32,
        string: &str,
    ) -> (c: ForeignCall)
        requires
            c_string_ok(state@),
            c_string_ok(string@),
        ensures
            c matches ForeignCall::SetSystemState {
                handle,
                state: st,
                integer: n,
                float_bits: fb,
                string: s,
            } && handle == self.handle_val() && st@ == state@ && n == integer
                && fb == float_bits && s@ == string@,
            c.wf(),
    {
        ForeignCall::SetSystemState {
            handle: self.handle,
            state: state.to_owned(),
            integer,
            float_bits,
            string: string.to_owned(),
        }
    }

    /// Subscribes to continuous facility list updates.
    pub fn subscribe_to_facilities(
        &self,
        type_: FacilityListType,
        request_id: u32,
    ) -> (c: ForeignCall)
        ensures
            c == (ForeignCall::SubscribeToFacilities {
                handle: self.handle_val(),
                list_type: type_.spec_code(),
                request_id,
            }),
            c.wf(),
    {
        ForeignCall::SubscribeToFacilities {
            handle: self.handle,
            list_type: type_.code(),
            request_id,
        }
    }

    /// Subscribes a client event to a named system event.
    pub fn subscribe_to_system_event(
        &self,
        event_id: u32,
        system_event_name: &str,
    ) -> (c: ForeignCall)
        requires
            c_string_ok(system_event_name@),
        ensures
            c matches ForeignCall::SubscribeToSystemEvent {
                handle,
                event_id: eid,
                system_event_name: n,
            } && handle == self.handle_val() && eid == event_id && n@ == system_event_name@,
            c.wf(),
    {
        ForeignCall::SubscribeToSystemEvent {
            handle: self.handle,
            event_id,
            system_event_name: system_event_name.to_owned(),
        }
    }

    /// Transmits a client event to the simulator.
    pub fn transmit_client_event(
        &self,
        object_id: u32,
        event_id: u32,
        data: u32,
        group_id: u32,
        flags: EventFlag,
    ) -> (c: ForeignCall)
        ensures
            c == (ForeignCall::TransmitClientEvent {
                handle: self.handle_val(),
                object_id,
                event_id,
                data,
                group_id,
                flags: flags.spec_code(),
            }),
            c.wf(),
    {
        ForeignCall::TransmitClientEvent {
            handle: self.handle,
            object_id,
            event_id,
            data,
            group_id,
            flags: flags.code(),
        }
    }

    /// Unsubscribes from a system event.
    pub fn unsubscribe_from_system_event(&self, event_id: u32) -> (c: ForeignCall)
        ensures
            c == (ForeignCall::UnsubscribeFromSystemEvent {
                handle: self.handle_val(),
                event_id,
            }),
            c.wf(),
    {
        ForeignCall::UnsubscribeFromSystemEvent { handle: self.handle, event_id }
    }

    /// Ends a facility list subscription.
    pub fn unsubcribe_to_facilities(&self, type_: FacilityListType) -> (c: ForeignCall)
        ensures
            c == (ForeignCall::UnsubscribeToFacilities {
                handle: self.handle_val(),
                list_type: type_.spec_code(),
            }),
            c.wf(),
    {
        ForeignCall::UnsubscribeToFacilities { handle: self.handle, list_type: type_.code() }
    }
}

impl Default for SimConnect {
    /// A fresh wrapper with no connection, like [`SimConnect::new`].
    fn default() -> (s: Self)
        ensures
            s.handle_val() == 0,
            !s.is_open(),
    {
        SimConnect::new()
    }
}

/// Maps the result of the packet-id query: on success the identifier read
/// through the vendor's out-parameter is wrapped into the success variant.
pub fn get_last_sent_packet_id_result(code: HResult, packet_id: u32) -> (r: SimConnectResult<
    u32,
>)
    ensures
        r is Ok <==> code == 0,
        r matches Ok(p) ==> p == packet_id,
        r matches Err(e) ==> e.message@ == "Failed to get last sent package id"@ && e.result
            == Some(code),
{
    if code == 0 {
        Ok(packet_id)
    } else {
        Err(SimConnectError::new("Failed to get last sent package id", Some(code)))
    }
}

/// Maps the result of the response-time measurement: on success the bit
/// pattern of the elapsed seconds read through the vendor's out-parameter
/// is wrapped into the success variant.
pub fn request_response_times_result(code: HResult, elapsed_seconds_bits: u32) -> (r:
    SimConnectResult<u32>)
    ensures
        r is Ok <==> code == 0,
        r matches Ok(b) ==> b == elapsed_seconds_bits,
        r matches Err(e) ==> e.message@ == "Failed to request response times"@ && e.result
            == Some(code),
{
    if code == 0 {
        Ok(elapsed_seconds_bits)
    } else {
        Err(SimConnectError::new("Failed to request response times", Some(code)))
    }
}

} // verus!
