//! Value types of the IEEE 802.15.4 MAC interface layer: instance handles,
//! status codes, antenna-diversity parameters and the configurable library
//! parameters, with the conversions between the typed and the raw layouts.

use vstd::prelude::*;

verus! {

/// Result type used by the MAC wrappers.
pub type MacResult = Result<(), MacStatus>;

/// Raw MAC status for a successful operation.
pub const MAC_STATUS_SUCCESS: u32 = 0x00;

/// Raw MAC status for a denied request.
pub const MAC_STATUS_DENIED: u32 = 0xE2;

/// Raw MAC status for an invalid parameter.
pub const MAC_STATUS_INVALID_PARAMETER: u32 = 0xE8;

/// Raw MAC status for a channel-access failure.
pub const MAC_STATUS_CHANNEL_ACCESS_FAILURE: u32 = 0xE1;

/// Raw MAC status for a missing acknowledgement.
pub const MAC_STATUS_NO_ACK: u32 = 0xE9;

/// Raw MAC status for an unsupported attribute.
pub const MAC_STATUS_UNSUPPORTED_ATTRIBUTE: u32 = 0xF4;

/// Raw MAC status for an unsupported legacy request.
pub const MAC_STATUS_UNSUPPORTED_LEGACY: u32 = 0xDE;

/// Raw MAC status for an unsupported security request.
pub const MAC_STATUS_UNSUPPORTED_SECURITY: u32 = 0xDF;

/// Raw MAC status for an internal middleware error.
pub const MAC_STATUS_INTERNAL_ERROR: u32 = 0xFE;

/// Raw antenna-interval code selecting no rotation.
pub const ANT_INTRV_TYPE_NONE: u32 = 0;

/// Raw antenna-interval code selecting rotation on a fixed period.
pub const ANT_INTRV_TYPE_FIXED_TIME: u32 = 1;

/// Raw antenna-interval code selecting rotation on a packet count.
pub const ANT_INTRV_TYPE_PACKETS_NUMBER: u32 = 2;

/// Handle identifying a MAC controller instance.
///
/// The underlying value is the 32-bit handle the controller routines expect.
#[derive(Debug, Clone, Copy, PartialEq, Eq, Hash, Structural)]
pub struct MacHandle(u32);

impl MacHandle {
    /// The raw handle value.
    pub closed spec fn spec_raw(self) -> u32 {
        self.0
    }

    /// Creates a new wrapper around the raw handle value.
    pub fn new(raw: u32) -> (r: MacHandle)
        ensures
            r.spec_raw() == raw,
    {
        MacHandle(raw)
    }

    /// Returns the raw handle value.
    pub fn raw(self) -> (r: u32)
        ensures
            r == self.spec_raw(),
    {
        self.0
    }
}

/// Error codes surfaced by the MAC middleware.
///
/// Any raw value that is not handled explicitly is reported via
/// [`MacStatus::Other`].
#[derive(Debug, Clone, Copy, PartialEq, Eq, Structural)]
pub enum MacStatus {
    Success,
    Busy,
    InvalidParameter,
    ChannelAccessFailure,
    NoAck,
    Unsupported,
    InternalError,
    Other(u8),
}

impl MacStatus {
    /// The status variant that a raw code decodes to.
    pub open spec fn spec_from_raw(value: u32) -> MacStatus {
        if value == MAC_STATUS_SUCCESS {
            MacStatus::Success
        } else if value == MAC_STATUS_DENIED {
            MacStatus::Busy
        } else if value == MAC_STATUS_INVALID_PARAMETER {
            MacStatus::InvalidParameter
        } else if value == MAC_STATUS_CHANNEL_ACCESS_FAILURE {
            MacStatus::ChannelAccessFailure
        } else if value == MAC_STATUS_NO_ACK {
            MacStatus::NoAck
        } else if value == MAC_STATUS_UNSUPPORTED_ATTRIBUTE || value
            == MAC_STATUS_UNSUPPORTED_LEGACY || value == MAC_STATUS_UNSUPPORTED_SECURITY {
            MacStatus::Unsupported
        } else if value == MAC_STATUS_INTERNAL_ERROR {
            MacStatus::InternalError
        } else {
            MacStatus::Other(value as u8)
        }
    }

    /// Decode a raw MAC status code.
    pub fn from_raw(value: u32) -> (r: MacStatus)
        ensures
            r == MacStatus::spec_from_raw(value),
    {
        if value == MAC_STATUS_SUCCESS {
            MacStatus::Success
        } else if value == MAC_STATUS_DENIED {
            MacStatus::Busy
        } else if value == MAC_STATUS_INVALID_PARAMETER {
            MacStatus::InvalidParameter
        } else if value == MAC_STATUS_CHANNEL_ACCESS_FAILURE {
            MacStatus::ChannelAccessFailure
        } else if value == MAC_STATUS_NO_ACK {
            MacStatus::NoAck
        } else if value == MAC_STATUS_UNSUPPORTED_ATTRIBUTE || value
            == MAC_STATUS_UNSUPPORTED_LEGACY || value == MAC_STATUS_UNSUPPORTED_SECURITY {
            MacStatus::Unsupported
        } else if value == MAC_STATUS_INTERNAL_ERROR {
            MacStatus::InternalError
        } else {
            MacStatus::Other(value as u8)
        }
    }

    /// Converts the status into a `Result`, treating [`MacStatus::Success`]
    /// as the success case and every other status as the error it names.
    pub fn into_result(self) -> (r: MacResult)
        ensures
            self == MacStatus::Success ==> r == MacResult::Ok(()),
            self != MacStatus::Success ==> r == MacResult::Err(self),
    {
        match self {
            MacStatus::Success => Ok(()),
            err => Err(err),
        }
    }
}

/// Describes how often antenna diversity should rotate between antennas.
#[derive(Debug, Clone, Copy, PartialEq, Eq, Structural)]
pub enum AntennaIntervalType {
    NoType,
    FixedTime,
    PacketCount,
}

impl AntennaIntervalType {
    /// The raw code of this interval type.
    pub fn to_raw(self) -> (r: u32)
        ensures
            self == AntennaIntervalType::NoType ==> r == ANT_INTRV_TYPE_NONE,
            self == AntennaIntervalType::FixedTime ==> r == ANT_INTRV_TYPE_FIXED_TIME,
            self == AntennaIntervalType::PacketCount ==> r == ANT_INTRV_TYPE_PACKETS_NUMBER,
    {
        match self {
            AntennaIntervalType::NoType => ANT_INTRV_TYPE_NONE,
            AntennaIntervalType::FixedTime => ANT_INTRV_TYPE_FIXED_TIME,
            AntennaIntervalType::PacketCount => ANT_INTRV_TYPE_PACKETS_NUMBER,
        }
    }

    /// Decode a raw interval-type code; every unknown code reads as no
    /// rotation at all.
    pub fn from_raw(raw: u32) -> (r: AntennaIntervalType)
        ensures
            raw == ANT_INTRV_TYPE_FIXED_TIME ==> r == AntennaIntervalType::FixedTime,
            raw == ANT_INTRV_TYPE_PACKETS_NUMBER ==> r == AntennaIntervalType::PacketCount,
            raw != ANT_INTRV_TYPE_FIXED_TIME && raw != ANT_INTRV_TYPE_PACKETS_NUMBER ==> r
                == AntennaIntervalType::NoType,
    {
        if raw == ANT_INTRV_TYPE_FIXED_TIME {
            AntennaIntervalType::FixedTime
        } else if raw == ANT_INTRV_TYPE_PACKETS_NUMBER {
            AntennaIntervalType::PacketCount
        } else {
            AntennaIntervalType::NoType
        }
    }
}

/// Raw antenna-diversity parameter block in the layout the middleware
/// expects.
#[derive(Debug, Clone, Copy, PartialEq, Eq)]
pub struct RawAntennaDiversity {
    pub ant_intrv_type: u32,
    pub ant_intrv_value: u32,
    pub wntd_coord_shrt_addr: u16,
    pub wntd_coord_ext_addr: [u8; 8],
    pub max_rx_ack_retries: u8,
}

/// Parameters passed to the antenna-diversity configuration routines.
#[derive(Debug, Clone, Copy, PartialEq, Eq)]
pub struct AntennaDiversityConfig {
    pub interval_type: AntennaIntervalType,
    pub interval_value: u32,
    pub wanted_coord_short_address: u16,
    pub wanted_coord_extended_address: [u8; 8],
    pub max_rx_ack_retries: u8,
}

impl Default for AntennaDiversityConfig {
    /// The all-zero configuration with rotation disabled.
    fn default() -> (r: AntennaDiversityConfig)
        ensures
            r.interval_type == AntennaIntervalType::NoType,
            r.interval_value == 0,
            r.wanted_coord_short_address == 0,
            r.wanted_coord_extended_address@ == Seq::new(8, |i: int| 0u8),
            r.max_rx_ack_retries == 0,
    {
        let addr: [u8; 8] = [0u8, 0u8, 0u8, 0u8, 0u8, 0u8, 0u8, 0u8];
        assert(addr@ =~= Seq::new(8, |i: int| 0u8));
        AntennaDiversityConfig {
            interval_type: AntennaIntervalType::NoType,
            interval_value: 0,
            wanted_coord_short_address: 0,
            wanted_coord_extended_address: addr,
            max_rx_ack_retries: 0,
        }
    }
}

impl AntennaDiversityConfig {
    /// The raw layout of this configuration.
    pub fn to_raw(self) -> (r: RawAntennaDiversity)
        ensures
            r.ant_intrv_type == ANT_INTRV_TYPE_NONE ==> self.interval_type
                == AntennaIntervalType::NoType,
            self.interval_type == AntennaIntervalType::NoType ==> r.ant_intrv_type
                == ANT_INTRV_TYPE_NONE,
            self.interval_type == AntennaIntervalType::FixedTime ==> r.ant_intrv_type
                == ANT_INTRV_TYPE_FIXED_TIME,
            self.interval_type == AntennaIntervalType::PacketCount ==> r.ant_intrv_type
                == ANT_INTRV_TYPE_PACKETS_NUMBER,
            r.ant_intrv_value == self.interval_value,
            r.wntd_coord_shrt_addr == self.wanted_coord_short_address,
            r.wntd_coord_ext_addr == self.wanted_coord_extended_address,
            r.max_rx_ack_retries == self.max_rx_ack_retries,
    {
        RawAntennaDiversity {
            ant_intrv_type: self.interval_type.to_raw(),
            ant_intrv_value: self.interval_value,
            wntd_coord_shrt_addr: self.wanted_coord_short_address,
            wntd_coord_ext_addr: self.wanted_coord_extended_address,
            max_rx_ack_retries: self.max_rx_ack_retries,
        }
    }

    /// Rebuild a configuration from the raw layout.
    pub fn from_raw(raw: RawAntennaDiversity) -> (r: AntennaDiversityConfig)
        ensures
            raw.ant_intrv_type == ANT_INTRV_TYPE_FIXED_TIME ==> r.interval_type
                == AntennaIntervalType::FixedTime,
            raw.ant_intrv_type == ANT_INTRV_TYPE_PACKETS_NUMBER ==> r.interval_type
                == AntennaIntervalType::PacketCount,
            raw.ant_intrv_type != ANT_INTRV_TYPE_FIXED_TIME && raw.ant_intrv_type
                != ANT_INTRV_TYPE_PACKETS_NUMBER ==> r.interval_type == AntennaIntervalType::NoType,
            r.interval_value == raw.ant_intrv_value,
            r.wanted_coord_short_address == raw.wntd_coord_shrt_addr,
            r.wanted_coord_extended_address == raw.wntd_coord_ext_addr,
            r.max_rx_ack_retries == raw.max_rx_ack_retries,
    {
        AntennaDiversityConfig {
            interval_type: AntennaIntervalType::from_raw(raw.ant_intrv_type),
            interval_value: raw.ant_intrv_value,
            wanted_coord_short_address: raw.wntd_coord_shrt_addr,
            wanted_coord_extended_address: raw.wntd_coord_ext_addr,
            max_rx_ack_retries: raw.max_rx_ack_retries,
        }
    }
}

/// Raw configurable-library parameter block in the layout the middleware
/// expects: each flag is one byte, non-zero meaning enabled.
#[derive(Debug, Clone, Copy, PartialEq, Eq, Structural)]
pub struct RawConfigLib {
    pub mac_layer_build: u8,
    pub support_openthread_1_2: u8,
    pub ack_all_received_frames_with_ar_bit_set: u8,
}

/// Runtime configuration flags stored inside the middleware library.
#[derive(Debug, Clone, Copy, PartialEq, Eq, Structural)]
pub struct ConfigLibraryParams {
    pub mac_layer_enabled: bool,
    pub openthread_1_2_support: bool,
    pub ack_all_frames_with_ar_bit: bool,
}

impl Default for ConfigLibraryParams {
    /// The library's defaults: the MAC layer and its Thread support on,
    /// forced acknowledgement off.
    fn default() -> (r: ConfigLibraryParams)
        ensures
            r.mac_layer_enabled,
            r.openthread_1_2_support,
            !r.ack_all_frames_with_ar_bit,
    {
        ConfigLibraryParams {
            mac_layer_enabled: true,
            openthread_1_2_support: true,
            ack_all_frames_with_ar_bit: false,
        }
    }
}

impl ConfigLibraryParams {
    /// The raw layout of these flags, one byte per flag.
    pub fn to_raw(self) -> (r: RawConfigLib)
        ensures
            r.mac_layer_build == (if self.mac_layer_enabled {
                1u8
            } else {
                0u8
            }),
            r.support_openthread_1_2 == (if self.openthread_1_2_support {
                1u8
            } else {
                0u8
            }),
            r.ack_all_received_frames_with_ar_bit_set == (if self.ack_all_frames_with_ar_bit {
                1u8
            } else {
                0u8
            }),
    {
        RawConfigLib {
            mac_layer_build: if self.mac_layer_enabled {
                1
            } else {
                0
            },
            support_openthread_1_2: if self.openthread_1_2_support {
                1
            } else {
                0
            },
            ack_all_received_frames_with_ar_bit_set: if self.ack_all_frames_with_ar_bit {
                1
            } else {
                0
            },
        }
    }

    /// Rebuild the flags from the raw layout; any non-zero byte reads as
    /// enabled.
    pub fn from_raw(raw: RawConfigLib) -> (r: ConfigLibraryParams)
        ensures
            r.mac_layer_enabled == (raw.mac_layer_build != 0),
            r.openthread_1_2_support == (raw.support_openthread_1_2 != 0),
            r.ack_all_frames_with_ar_bit == (raw.ack_all_received_frames_with_ar_bit_set != 0),
    {
        ConfigLibraryParams {
            mac_layer_enabled: raw.mac_layer_build != 0,
            openthread_1_2_support: raw.support_openthread_1_2 != 0,
            ack_all_frames_with_ar_bit: raw.ack_all_received_frames_with_ar_bit_set != 0,
        }
    }
}

/// Read the configuration shared by all MAC instances, as hosts without
/// the middleware's global state report it: the library defaults.
pub fn shared_config_library_params() -> (r: ConfigLibraryParams)
    ensures
        r.mac_layer_enabled,
        r.openthread_1_2_support,
        !r.ack_all_frames_with_ar_bit,
{
    ConfigLibraryParams::default()
}

} // verus!
