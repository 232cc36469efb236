//! The caller-facing value types: the typed error, the identifier aliases,
//! and the closed enumerations mirroring the vendor SDK's integer constants.
//!
//! Each enumeration is purely descriptive; its conversion to the foreign
//! integer is a pure, total mapping stated by a spec function and carried
//! out by the matching `code` method.

use vstd::prelude::*;
use crate::marshal::spec_c_bool;

verus! {

/// The raw native result code returned by every vendor call.
pub type HResult = i32;

/// Caller-chosen identifier of a pending request, per vendor namespacing.
pub type DataRequestId = u32;

/// Caller-chosen identifier of a data definition, per vendor namespacing.
pub type DataDefinitionId = u32;

/// Caller-chosen identifier of a client-data definition.
pub type ClientDataDefinitionId = u32;

/// Caller-chosen identifier of a client-data buffer.
pub type ClientDataId = u32;

/// Caller-chosen identifier of a client event.
pub type ClientEventId = u32;

/// Caller-chosen identifier of a notification group.
pub type NotificationGroupId = u32;

/// Caller-chosen identifier of an input group.
pub type InputGroupId = u32;

/// Identifier of a simulated object, assigned by the vendor SDK.
pub type ObjectId = u32;

/// A failure surfaced to the caller: a static label describing which
/// operation failed, plus the raw native result code when the vendor call
/// returned one.  Failures of the wrapper's own precondition checks carry
/// no native code.
#[derive(Debug, Clone)]
pub struct SimConnectError {
    pub message: String,
    pub result: Option<HResult>,
}

impl SimConnectError {
    pub fn new(msg: &str, result: Option<HResult>) -> (e: Self)
        ensures
            e.message@ == msg@,
            e.result == result,
    {
        SimConnectError { message: msg.to_owned(), result }
    }
}

/// The outcome of every exposed operation: success (with an optional
/// payload) or a [`SimConnectError`].
pub type SimConnectResult<T> = Result<T, SimConnectError>;

/// A 128-bit globally unique identifier, laid out as the native ABI expects.
#[derive(Debug, Clone, Copy, PartialEq, Eq)]
pub struct Guid {
    pub data1: u32,
    pub data2: u16,
    pub data3: u16,
    pub data4: [u8; 8],
}

/// An initial object position.  Angles and distances are carried as the bit
/// patterns of the native double-precision fields, since this wrapper never
/// reads them: it only moves them across the boundary.
#[derive(Debug, Clone, Copy, PartialEq, Eq)]
pub struct InitPosition {
    pub latitude_bits: u64,
    pub longitude_bits: u64,
    pub altitude_bits: u64,
    pub pitch_bits: u64,
    pub bank_bits: u64,
    pub heading_bits: u64,
    pub on_ground: bool,
    pub airspeed: u32,
}

/// The native layout of an initial object position: the same fields with
/// the boolean already mapped to the foreign `0`/`1` convention.
#[derive(Debug, Clone, Copy, PartialEq, Eq)]
pub struct RawInitPosition {
    pub latitude_bits: u64,
    pub longitude_bits: u64,
    pub altitude_bits: u64,
    pub pitch_bits: u64,
    pub bank_bits: u64,
    pub heading_bits: u64,
    pub on_ground: u32,
    pub airspeed: u32,
}

impl InitPosition {
    /// The native counterpart of this position: every numeric field copied
    /// bit-for-bit, the boolean mapped to `0` or `1`.
    pub open spec fn as_raw(self) -> RawInitPosition {
        RawInitPosition {
            latitude_bits: self.latitude_bits,
            longitude_bits: self.longitude_bits,
            altitude_bits: self.altitude_bits,
            pitch_bits: self.pitch_bits,
            bank_bits: self.bank_bits,
            heading_bits: self.heading_bits,
            on_ground: spec_c_bool(self.on_ground),
            airspeed: self.airspeed,
        }
    }

    /// Marshals this position into its native counterpart.
    pub fn as_c_struct(&self) -> (r: RawInitPosition)
        ensures
            r == self.as_raw(),
    {
        RawInitPosition {
            latitude_bits: self.latitude_bits,
            longitude_bits: self.longitude_bits,
            altitude_bits: self.altitude_bits,
            pitch_bits: self.pitch_bits,
            bank_bits: self.bank_bits,
            heading_bits: self.heading_bits,
            on_ground: crate::marshal::as_c_bool(self.on_ground),
            airspeed: self.airspeed,
        }
    }
}

/// Element types of a client-data definition, mirroring the vendor's
/// negative sentinel constants.
#[derive(Debug, Clone, Copy, PartialEq, Eq)]
pub enum ClientDataType {
    Int8,
    Int16,
    Int32,
    Int64,
    Float32,
    Float64,
}

impl ClientDataType {
    /// The vendor constant for this element type.
    pub open spec fn spec_code(self) -> i32 {
        match self {
            ClientDataType::Int8 => -1i32,
            ClientDataType::Int16 => -2i32,
            ClientDataType::Int32 => -3i32,
            ClientDataType::Int64 => -4i32,
            ClientDataType::Float32 => -5i32,
            ClientDataType::Float64 => -6i32,
        }
    }

    pub fn code(self) -> (c: i32)
        ensures
            c == self.spec_code(),
    {
        match self {
            ClientDataType::Int8 => -1,
            ClientDataType::Int16 => -2,
            ClientDataType::Int32 => -3,
            ClientDataType::Int64 => -4,
            ClientDataType::Float32 => -5,
            ClientDataType::Float64 => -6,
        }
    }
}

/// Data types of a datum in a data definition, mirroring the vendor's
/// enumeration.
#[derive(Debug, Clone, Copy, PartialEq, Eq)]
pub enum DataType {
    Invalid,
    Int32,
    Int64,
    Float32,
    Float64,
    String8,
    String32,
    String64,
    String128,
    String256,
    String260,
    StringV,
    InitPosition,
    MarkerState,
    Waypoint,
    LatLonAlt,
    Xyz,
    Max,
}

impl DataType {
    /// The vendor constant for this data type.
    pub open spec fn spec_code(self) -> u32 {
        match self {
            DataType::Invalid => 0,
            DataType::Int32 => 1,
            DataType::Int64 => 2,
            DataType::Float32 => 3,
            DataType::Float64 => 4,
            DataType::String8 => 5,
            DataType::String32 => 6,
            DataType::String64 => 7,
            DataType::String128 => 8,
            DataType::String256 => 9,
            DataType::String260 => 10,
            DataType::StringV => 11,
            DataType::InitPosition => 12,
            DataType::MarkerState => 13,
            DataType::Waypoint => 14,
            DataType::LatLonAlt => 15,
            DataType::Xyz => 16,
            DataType::Max => 17,
        }
    }

    pub fn code(self) -> (c: u32)
        ensures
            c == self.spec_code(),
    {
        match self {
            DataType::Invalid => 0,
            DataType::Int32 => 1,
            DataType::Int64 => 2,
            DataType::Float32 => 3,
            DataType::Float64 => 4,
            DataType::String8 => 5,
            DataType::String32 => 6,
            DataType::String64 => 7,
            DataType::String128 => 8,
            DataType::String256 => 9,
            DataType::String260 => 10,
            DataType::StringV => 11,
            DataType::InitPosition => 12,
            DataType::MarkerState => 13,
            DataType::Waypoint => 14,
            DataType::LatLonAlt => 15,
            DataType::Xyz => 16,
            DataType::Max => 17,
        }
    }
}

/// Flags for creating a client-data buffer.
#[derive(Debug, Clone, Copy, PartialEq, Eq)]
pub enum CreateClientDataFlag {
    Default,
    ReadOnly,
}

impl CreateClientDataFlag {
    /// The vendor constant for this flag.
    pub open spec fn spec_code(self) -> u32 {
        match self {
            CreateClientDataFlag::Default => 0,
            CreateClientDataFlag::ReadOnly => 1,
        }
    }

    pub fn code(self) -> (c: u32)
        ensures
            c == self.spec_code(),
    {
        match self {
            CreateClientDataFlag::Default => 0,
            CreateClientDataFlag::ReadOnly => 1,
        }
    }
}

/// How often the vendor SDK reports data for a sim-object request.
#[derive(Debug, Clone, Copy, PartialEq, Eq)]
pub enum Period {
    Never,
    Once,
    VisualFrame,
    SimFrame,
    Second,
}

impl Period {
    /// The vendor constant for this period.
    pub open spec fn spec_code(self) -> u32 {
        match self {
            Period::Never => 0,
            Period::Once => 1,
            Period::VisualFrame => 2,
            Period::SimFrame => 3,
            Period::Second => 4,
        }
    }

    pub fn code(self) -> (c: u32)
        ensures
            c == self.spec_code(),
    {
        match self {
            Period::Never => 0,
            Period::Once => 1,
            Period::VisualFrame => 2,
            Period::SimFrame => 3,
            Period::Second => 4,
        }
    }
}

/// Flags for a sim-object data request.
#[derive(Debug, Clone, Copy, PartialEq, Eq)]
pub enum DataRequestFlag {
    Default,
    Changed,
    Tagged,
}

impl DataRequestFlag {
    /// The vendor constant for this flag.
    pub open spec fn spec_code(self) -> u32 {
        match self {
            DataRequestFlag::Default => 0,
            DataRequestFlag::Changed => 1,
            DataRequestFlag::Tagged => 2,
        }
    }

    pub fn code(self) -> (c: u32)
        ensures
            c == self.spec_code(),
    {
        match self {
            DataRequestFlag::Default => 0,
            DataRequestFlag::Changed => 1,
            DataRequestFlag::Tagged => 2,
        }
    }
}

/// Kinds of simulated object.
#[derive(Debug, Clone, Copy, PartialEq, Eq)]
pub enum SimObjectType {
    User,
    All,
    Aircraft,
    Helicopter,
    Boat,
    Ground,
}

impl SimObjectType {
    /// The vendor constant for this object kind.
    pub open spec fn spec_code(self) -> u32 {
        match self {
            SimObjectType::User => 0,
            SimObjectType::All => 1,
            SimObjectType::Aircraft => 2,
            SimObjectType::Helicopter => 3,
            SimObjectType::Boat => 4,
            SimObjectType::Ground => 5,
        }
    }

    pub fn code(self) -> (c: u32)
        ensures
            c == self.spec_code(),
    {
        match self {
            SimObjectType::User => 0,
            SimObjectType::All => 1,
            SimObjectType::Aircraft => 2,
            SimObjectType::Helicopter => 3,
            SimObjectType::Boat => 4,
            SimObjectType::Ground => 5,
        }
    }
}

/// Kinds of facility list that can be requested or subscribed to.
#[derive(Debug, Clone, Copy, PartialEq, Eq)]
pub enum FacilityListType {
    Airport,
    Waypoint,
    Ndb,
    Vor,
    Count,
}

impl FacilityListType {
    /// The vendor constant for this facility list kind.
    pub open spec fn spec_code(self) -> u32 {
        match self {
            FacilityListType::Airport => 0,
            FacilityListType::Waypoint => 1,
            FacilityListType::Ndb => 2,
            FacilityListType::Vor => 3,
            FacilityListType::Count => 4,
        }
    }

    pub fn code(self) -> (c: u32)
        ensures
            c == self.spec_code(),
    {
        match self {
            FacilityListType::Airport => 0,
            FacilityListType::Waypoint => 1,
            FacilityListType::Ndb => 2,
            FacilityListType::Vor => 3,
            FacilityListType::Count => 4,
        }
    }
}

/// Flags for writing a client-data buffer.
#[derive(Debug, Clone, Copy, PartialEq, Eq)]
pub enum ClientDataSetFlag {
    Default,
    Tagged,
}

impl ClientDataSetFlag {
    /// The vendor constant for this flag.
    pub open spec fn spec_code(self) -> u32 {
        match self {
            ClientDataSetFlag::Default => 0,
            ClientDataSetFlag::Tagged => 1,
        }
    }

    pub fn code(self) -> (c: u32)
        ensures
            c == self.spec_code(),
    {
        match self {
            ClientDataSetFlag::Default => 0,
            ClientDataSetFlag::Tagged => 1,
        }
    }
}

/// Flags for writing sim-object data.
#[derive(Debug, Clone, Copy, PartialEq, Eq)]
pub enum DataSetFlag {
    Default,
    Tagged,
}

impl DataSetFlag {
    /// The vendor constant for this flag.
    pub open spec fn spec_code(self) -> u32 {
        match self {
            DataSetFlag::Default => 0,
            DataSetFlag::Tagged => 1,
        }
    }

    pub fn code(self) -> (c: u32)
        ensures
            c == self.spec_code(),
    {
        match self {
            DataSetFlag::Default => 0,
            DataSetFlag::Tagged => 1,
        }
    }
}

/// On/off state of a system event subscription.
#[derive(Debug, Clone, Copy, PartialEq, Eq)]
pub enum State {
    Off,
    On,
}

impl State {
    /// The vendor constant for this state.
    pub open spec fn spec_code(self) -> u32 {
        match self {
            State::Off => 0,
            State::On => 1,
        }
    }

    pub fn code(self) -> (c: u32)
        ensures
            c == self.spec_code(),
    {
        match self {
            State::Off => 0,
            State::On => 1,
        }
    }
}

/// Flags for transmitting a client event.
#[derive(Debug, Clone, Copy, PartialEq, Eq)]
pub enum EventFlag {
    Default,
    FastRepeatTimer,
    SlowRepeatTimer,
    GroupIdIsPriority,
}

impl EventFlag {
    /// The vendor constant for this flag.
    pub open spec fn spec_code(self) -> u32 {
        match self {
            EventFlag::Default => 0,
            EventFlag::FastRepeatTimer => 1,
            EventFlag::SlowRepeatTimer => 2,
            EventFlag::GroupIdIsPriority => 16,
        }
    }

    pub fn code(self) -> (c: u32)
        ensures
            c == self.spec_code(),
    {
        match self {
            EventFlag::Default => 0,
            EventFlag::FastRepeatTimer => 1,
            EventFlag::SlowRepeatTimer => 2,
            EventFlag::GroupIdIsPriority => 16,
        }
    }
}

/// How often the vendor SDK reports data for a client-data request.
#[derive(Debug, Clone, Copy, PartialEq, Eq)]
pub enum ClientDataPeriod {
    Never,
    Once,
    VisualFrame,
    OnSet,
    Second,
}

impl ClientDataPeriod {
    /// The vendor constant for this period.
    pub open spec fn spec_code(self) -> u32 {
        match self {
            ClientDataPeriod::Never => 0,
            ClientDataPeriod::Once => 1,
            ClientDataPeriod::VisualFrame => 2,
            ClientDataPeriod::OnSet => 3,
            ClientDataPeriod::Second => 4,
        }
    }

    pub fn code(self) -> (c: u32)
        ensures
            c == self.spec_code(),
    {
        match self {
            ClientDataPeriod::Never => 0,
            ClientDataPeriod::Once => 1,
            ClientDataPeriod::VisualFrame => 2,
            ClientDataPeriod::OnSet => 3,
            ClientDataPeriod::Second => 4,
        }
    }
}

/// Flags for a client-data request.
#[derive(Debug, Clone, Copy, PartialEq, Eq)]
pub enum ClientDataRequestFlag {
    Default,
    Changed,
    Tagged,
}

impl ClientDataRequestFlag {
    /// The vendor constant for this flag.
    pub open spec fn spec_code(self) -> u32 {
        match self {
            ClientDataRequestFlag::Default => 0,
            ClientDataRequestFlag::Changed => 1,
            ClientDataRequestFlag::Tagged => 2,
        }
    }

    pub fn code(self) -> (c: u32)
        ensures
            c == self.spec_code(),
    {
        match self {
            ClientDataRequestFlag::Default => 0,
            ClientDataRequestFlag::Changed => 1,
            ClientDataRequestFlag::Tagged => 2,
        }
    }
}

} // verus!
