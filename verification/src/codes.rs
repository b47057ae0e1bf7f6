//! Code tables of the sound device: request, event and status codes,
//! stream directions and channel positions.

use vstd::prelude::*;
use vstd::std_specs::convert::FromSpecImpl;
use vstd::std_specs::convert::TryFromSpecImpl;

verus! {

/// The name under which the device is registered.
pub const DEVICE_NAME: &'static str = "Virtio-Sound";

// Jack control request types.
pub const VIRTIO_SND_R_JACK_INFO: u32 = 1;

pub const VIRTIO_SND_R_JACK_REMAP: u32 = 2;

// PCM control request types.
pub const VIRTIO_SND_R_PCM_INFO: u32 = 0x0100;

pub const VIRTIO_SND_R_PCM_SET_PARAMS: u32 = 0x0101;

pub const VIRTIO_SND_R_PCM_PREPARE: u32 = 0x0102;

pub const VIRTIO_SND_R_PCM_RELEASE: u32 = 0x0103;

pub const VIRTIO_SND_R_PCM_START: u32 = 0x0104;

pub const VIRTIO_SND_R_PCM_STOP: u32 = 0x0105;

// Channel map control request types.
pub const VIRTIO_SND_R_CHMAP_INFO: u32 = 0x0200;

// Control element request types.
pub const VIRTIO_SND_R_CTL_INFO: u32 = 0x0300;

pub const VIRTIO_SND_R_CTL_ENUM_ITEMS: u32 = 0x0301;

pub const VIRTIO_SND_R_CTL_READ: u32 = 0x0302;

pub const VIRTIO_SND_R_CTL_WRITE: u32 = 0x0303;

pub const VIRTIO_SND_R_CTL_TLV_READ: u32 = 0x0304;

pub const VIRTIO_SND_R_CTL_TLV_WRITE: u32 = 0x0305;

pub const VIRTIO_SND_R_CTL_TLV_COMMAND: u32 = 0x0306;

// Jack event types.
pub const VIRTIO_SND_EVT_JACK_CONNECTED: u32 = 0x1000;

pub const VIRTIO_SND_EVT_JACK_DISCONNECTED: u32 = 0x1001;

// PCM event types.
pub const VIRTIO_SND_EVT_PCM_PERIOD_ELAPSED: u32 = 0x1100;

pub const VIRTIO_SND_EVT_PCM_XRUN: u32 = 0x1101;

// Control element event types.
pub const VIRTIO_SND_EVT_CTL_NOTIFY: u32 = 0x1200;

// Common status codes.
/// Success.
pub const VIRTIO_SND_S_OK: u32 = 0x8000;

/// A control message is malformed or contains invalid parameters.
pub const VIRTIO_SND_S_BAD_MSG: u32 = 0x8001;

/// The requested operation or parameters are not supported.
pub const VIRTIO_SND_S_NOT_SUPP: u32 = 0x8002;

/// An I/O error occurred.
pub const VIRTIO_SND_S_IO_ERR: u32 = 0x8003;

// Data flow directions.
pub const VIRTIO_SND_D_OUTPUT: u8 = 0;

pub const VIRTIO_SND_D_INPUT: u8 = 1;

/// Largest number of channels that a channel map can hold.
pub const VIRTIO_SND_CHMAP_MAX_SIZE: usize = 18;

// Standard channel positions.
/// Channel position: undefined.
pub const VIRTIO_SND_CHMAP_NONE: u8 = 0;

/// Channel position: silent.
pub const VIRTIO_SND_CHMAP_NA: u8 = 1;

/// Channel position: mono stream.
pub const VIRTIO_SND_CHMAP_MONO: u8 = 2;

/// Channel position: front left.
pub const VIRTIO_SND_CHMAP_FL: u8 = 3;

/// Channel position: front right.
pub const VIRTIO_SND_CHMAP_FR: u8 = 4;

/// Channel position: rear left.
pub const VIRTIO_SND_CHMAP_RL: u8 = 5;

/// Channel position: rear right.
pub const VIRTIO_SND_CHMAP_RR: u8 = 6;

/// Channel position: front center.
pub const VIRTIO_SND_CHMAP_FC: u8 = 7;

/// Channel position: low frequency (LFE).
pub const VIRTIO_SND_CHMAP_LFE: u8 = 8;

/// Channel position: side left.
pub const VIRTIO_SND_CHMAP_SL: u8 = 9;

/// Channel position: side right.
pub const VIRTIO_SND_CHMAP_SR: u8 = 10;

/// Channel position: rear center.
pub const VIRTIO_SND_CHMAP_RC: u8 = 11;

/// Channel position: front left center.
pub const VIRTIO_SND_CHMAP_FLC: u8 = 12;

/// Channel position: front right center.
pub const VIRTIO_SND_CHMAP_FRC: u8 = 13;

/// Channel position: rear left center.
pub const VIRTIO_SND_CHMAP_RLC: u8 = 14;

/// Channel position: rear right center.
pub const VIRTIO_SND_CHMAP_RRC: u8 = 15;

/// Channel position: front left wide.
pub const VIRTIO_SND_CHMAP_FLW: u8 = 16;

/// Channel position: front right wide.
pub const VIRTIO_SND_CHMAP_FRW: u8 = 17;

/// Channel position: front left high.
pub const VIRTIO_SND_CHMAP_FLH: u8 = 18;

/// Channel position: front center high.
pub const VIRTIO_SND_CHMAP_FCH: u8 = 19;

/// Channel position: front right high.
pub const VIRTIO_SND_CHMAP_FRH: u8 = 20;

/// Channel position: top center.
pub const VIRTIO_SND_CHMAP_TC: u8 = 21;

/// Channel position: top front left.
pub const VIRTIO_SND_CHMAP_TFL: u8 = 22;

/// Channel position: top front right.
pub const VIRTIO_SND_CHMAP_TFR: u8 = 23;

/// Channel position: top front center.
pub const VIRTIO_SND_CHMAP_TFC: u8 = 24;

/// Channel position: top rear left.
pub const VIRTIO_SND_CHMAP_TRL: u8 = 25;

/// Channel position: top rear right.
pub const VIRTIO_SND_CHMAP_TRR: u8 = 26;

/// Channel position: top rear center.
pub const VIRTIO_SND_CHMAP_TRC: u8 = 27;

/// Channel position: top front left center.
pub const VIRTIO_SND_CHMAP_TFLC: u8 = 28;

/// Channel position: top front right center.
pub const VIRTIO_SND_CHMAP_TFRC: u8 = 29;

/// Channel position: top side left.
pub const VIRTIO_SND_CHMAP_TSL: u8 = 30;

/// Channel position: top side right.
pub const VIRTIO_SND_CHMAP_TSR: u8 = 31;

/// Channel position: left LFE.
pub const VIRTIO_SND_CHMAP_LLFE: u8 = 32;

/// Channel position: right LFE.
pub const VIRTIO_SND_CHMAP_RLFE: u8 = 33;

/// Channel position: bottom center.
pub const VIRTIO_SND_CHMAP_BC: u8 = 34;

/// Channel position: bottom left center.
pub const VIRTIO_SND_CHMAP_BLC: u8 = 35;

/// Channel position: bottom right center.
pub const VIRTIO_SND_CHMAP_BRC: u8 = 36;

/// The status that the device gives in the header of a response.
#[derive(Debug, Clone, Copy, PartialEq, Eq, Structural)]
pub enum RequestStatusCode {
    /// Success.
    SOk,
    BadMsg,
    NotSupp,
    IoErr,
}

impl RequestStatusCode {
    /// The status as it stands on the wire.
    pub open spec fn code_spec(self) -> u32 {
        match self {
            RequestStatusCode::SOk => VIRTIO_SND_S_OK,
            RequestStatusCode::BadMsg => VIRTIO_SND_S_BAD_MSG,
            RequestStatusCode::NotSupp => VIRTIO_SND_S_NOT_SUPP,
            RequestStatusCode::IoErr => VIRTIO_SND_S_IO_ERR,
        }
    }

    /// The status as it stands on the wire.
    pub fn code(self) -> (r: u32)
        ensures
            r == self.code_spec(),
    {
        match self {
            RequestStatusCode::SOk => VIRTIO_SND_S_OK,
            RequestStatusCode::BadMsg => VIRTIO_SND_S_BAD_MSG,
            RequestStatusCode::NotSupp => VIRTIO_SND_S_NOT_SUPP,
            RequestStatusCode::IoErr => VIRTIO_SND_S_IO_ERR,
        }
    }

    /// The status that a code on the wire stands for, if it is one.
    pub fn from_code(code: u32) -> (r: Option<Self>)
        ensures
            match r {
                Some(s) => s.code_spec() == code,
                None => code < VIRTIO_SND_S_OK || code > VIRTIO_SND_S_IO_ERR,
            },
    {
        match code {
            0x8000 => Some(RequestStatusCode::SOk),
            0x8001 => Some(RequestStatusCode::BadMsg),
            0x8002 => Some(RequestStatusCode::NotSupp),
            0x8003 => Some(RequestStatusCode::IoErr),
            _ => None,
        }
    }
}

/// Every code that the driver puts into or expects in a header.
#[derive(Debug, Clone, Copy, PartialEq, Eq, Structural)]
pub enum CommandCode {
    RJackInfo,
    RJackRemap,
    RPcmInfo,
    RPcmSetParams,
    RPcmPrepare,
    RPcmRelease,
    RPcmStart,
    RPcmStop,
    RChmapInfo,
    EvtJackConnected,
    EvtJackDisconnected,
    EvtPcmPeriodElapsed,
    EvtPcmXrun,
    /// Success.
    SOk,
    /// A control message is malformed or contains invalid parameters.
    SBadMsg,
    /// The requested operation or parameters are not supported.
    SNotSupp,
    /// An I/O error occurred.
    SIoErr,
}

impl CommandCode {
    /// The code as it stands on the wire.
    pub open spec fn code_spec(self) -> u32 {
        match self {
            CommandCode::RJackInfo => VIRTIO_SND_R_JACK_INFO,
            CommandCode::RJackRemap => VIRTIO_SND_R_JACK_REMAP,
            CommandCode::RPcmInfo => VIRTIO_SND_R_PCM_INFO,
            CommandCode::RPcmSetParams => VIRTIO_SND_R_PCM_SET_PARAMS,
            CommandCode::RPcmPrepare => VIRTIO_SND_R_PCM_PREPARE,
            CommandCode::RPcmRelease => VIRTIO_SND_R_PCM_RELEASE,
            CommandCode::RPcmStart => VIRTIO_SND_R_PCM_START,
            CommandCode::RPcmStop => VIRTIO_SND_R_PCM_STOP,
            CommandCode::RChmapInfo => VIRTIO_SND_R_CHMAP_INFO,
            CommandCode::EvtJackConnected => VIRTIO_SND_EVT_JACK_CONNECTED,
            CommandCode::EvtJackDisconnected => VIRTIO_SND_EVT_JACK_DISCONNECTED,
            CommandCode::EvtPcmPeriodElapsed => VIRTIO_SND_EVT_PCM_PERIOD_ELAPSED,
            CommandCode::EvtPcmXrun => VIRTIO_SND_EVT_PCM_XRUN,
            CommandCode::SOk => VIRTIO_SND_S_OK,
            CommandCode::SBadMsg => VIRTIO_SND_S_BAD_MSG,
            CommandCode::SNotSupp => VIRTIO_SND_S_NOT_SUPP,
            CommandCode::SIoErr => VIRTIO_SND_S_IO_ERR,
        }
    }

    /// The code as it stands on the wire.
    pub fn code(self) -> (r: u32)
        ensures
            r == self.code_spec(),
    {
        match self {
            CommandCode::RJackInfo => VIRTIO_SND_R_JACK_INFO,
            CommandCode::RJackRemap => VIRTIO_SND_R_JACK_REMAP,
            CommandCode::RPcmInfo => VIRTIO_SND_R_PCM_INFO,
            CommandCode::RPcmSetParams => VIRTIO_SND_R_PCM_SET_PARAMS,
            CommandCode::RPcmPrepare => VIRTIO_SND_R_PCM_PREPARE,
            CommandCode::RPcmRelease => VIRTIO_SND_R_PCM_RELEASE,
            CommandCode::RPcmStart => VIRTIO_SND_R_PCM_START,
            CommandCode::RPcmStop => VIRTIO_SND_R_PCM_STOP,
            CommandCode::RChmapInfo => VIRTIO_SND_R_CHMAP_INFO,
            CommandCode::EvtJackConnected => VIRTIO_SND_EVT_JACK_CONNECTED,
            CommandCode::EvtJackDisconnected => VIRTIO_SND_EVT_JACK_DISCONNECTED,
            CommandCode::EvtPcmPeriodElapsed => VIRTIO_SND_EVT_PCM_PERIOD_ELAPSED,
            CommandCode::EvtPcmXrun => VIRTIO_SND_EVT_PCM_XRUN,
            CommandCode::SOk => VIRTIO_SND_S_OK,
            CommandCode::SBadMsg => VIRTIO_SND_S_BAD_MSG,
            CommandCode::SNotSupp => VIRTIO_SND_S_NOT_SUPP,
            CommandCode::SIoErr => VIRTIO_SND_S_IO_ERR,
        }
    }
}

impl From<CommandCode> for u32 {
    fn from(code: CommandCode) -> (r: u32) {
        code.code()
    }
}

impl FromSpecImpl<CommandCode> for u32 {
    open spec fn obeys_from_spec() -> bool {
        true
    }

    open spec fn from_spec(code: CommandCode) -> u32 {
        code.code_spec()
    }
}

/// The kinds of item about which the device can be asked.
#[derive(Debug, Clone, Copy, PartialEq, Eq, Structural)]
pub enum ItemInformationRequestType {
    /// A jack information request.
    RJackInfo,
    /// A PCM information request.
    RPcmInfo,
    /// A channel map information request.
    RChmapInfo,
}

impl ItemInformationRequestType {
    /// The request code as it stands on the wire.
    pub open spec fn code_spec(self) -> u32 {
        match self {
            ItemInformationRequestType::RJackInfo => VIRTIO_SND_R_JACK_INFO,
            ItemInformationRequestType::RPcmInfo => VIRTIO_SND_R_PCM_INFO,
            ItemInformationRequestType::RChmapInfo => VIRTIO_SND_R_CHMAP_INFO,
        }
    }

    /// The request code as it stands on the wire.
    pub fn code(self) -> (r: u32)
        ensures
            r == self.code_spec(),
    {
        match self {
            ItemInformationRequestType::RJackInfo => VIRTIO_SND_R_JACK_INFO,
            ItemInformationRequestType::RPcmInfo => VIRTIO_SND_R_PCM_INFO,
            ItemInformationRequestType::RChmapInfo => VIRTIO_SND_R_CHMAP_INFO,
        }
    }
}

impl From<ItemInformationRequestType> for u32 {
    fn from(request_type: ItemInformationRequestType) -> (r: u32) {
        request_type.code()
    }
}

impl FromSpecImpl<ItemInformationRequestType> for u32 {
    open spec fn obeys_from_spec() -> bool {
        true
    }

    open spec fn from_spec(request_type: ItemInformationRequestType) -> u32 {
        request_type.code_spec()
    }
}

/// The notification type.
#[derive(Debug, Clone, Copy, PartialEq, Eq, Structural)]
pub enum NotificationType {
    /// An external device has been connected to the jack.
    JackConnected,
    /// An external device has been disconnected from the jack.
    JackDisconnected,
    /// A hardware buffer period has elapsed.
    PcmPeriodElapsed,
    /// An underflow for the output stream or an overflow for the input stream has occurred.
    PcmXrun,
}

impl NotificationType {
    /// The event code as it stands on the wire.
    pub open spec fn code_spec(self) -> u32 {
        match self {
            NotificationType::JackConnected => VIRTIO_SND_EVT_JACK_CONNECTED,
            NotificationType::JackDisconnected => VIRTIO_SND_EVT_JACK_DISCONNECTED,
            NotificationType::PcmPeriodElapsed => VIRTIO_SND_EVT_PCM_PERIOD_ELAPSED,
            NotificationType::PcmXrun => VIRTIO_SND_EVT_PCM_XRUN,
        }
    }

    /// The notification type that `value` stands for, where it is one of the
    /// four event codes.
    pub open spec fn n_spec(value: u32) -> Option<Self> {
        if value == VIRTIO_SND_EVT_PCM_PERIOD_ELAPSED {
            Some(NotificationType::PcmPeriodElapsed)
        } else if value == VIRTIO_SND_EVT_PCM_XRUN {
            Some(NotificationType::PcmXrun)
        } else if value == VIRTIO_SND_EVT_JACK_CONNECTED {
            Some(NotificationType::JackConnected)
        } else if value == VIRTIO_SND_EVT_JACK_DISCONNECTED {
            Some(NotificationType::JackDisconnected)
        } else {
            None
        }
    }

    /// Converts the given value to a variant of this enum, if any matches.
    pub fn n(value: u32) -> (r: Option<Self>)
        ensures
            r == Self::n_spec(value),
            r is Some ==> r->Some_0.code_spec() == value,
    {
        match value {
            0x1100 => Some(NotificationType::PcmPeriodElapsed),
            0x1101 => Some(NotificationType::PcmXrun),
            0x1000 => Some(NotificationType::JackConnected),
            0x1001 => Some(NotificationType::JackDisconnected),
            _ => None,
        }
    }

    /// The event code as it stands on the wire.
    pub fn code(self) -> (r: u32)
        ensures
            r == self.code_spec(),
            Self::n_spec(r) == Some(self),
    {
        match self {
            NotificationType::JackConnected => VIRTIO_SND_EVT_JACK_CONNECTED,
            NotificationType::JackDisconnected => VIRTIO_SND_EVT_JACK_DISCONNECTED,
            NotificationType::PcmPeriodElapsed => VIRTIO_SND_EVT_PCM_PERIOD_ELAPSED,
            NotificationType::PcmXrun => VIRTIO_SND_EVT_PCM_XRUN,
        }
    }
}

/// The place of a speaker. The positions stand in the order of their
/// numbers on the wire, from 0 on.
#[derive(Debug, Clone, Copy, PartialEq, Eq, Structural)]
pub enum ChannelPosition {
    /// undefined
    Undefined,
    /// silent
    Na,
    /// mono stream
    Mono,
    /// front left
    Fl,
    /// front right
    Fr,
    /// rear left
    Rl,
    /// rear right
    Rr,
    /// front center
    Fc,
    /// low frequency (LFE)
    Lfe,
    /// side left
    Sl,
    /// side right
    Sr,
    /// rear center
    Rc,
    /// front left center
    Flc,
    /// front right center
    Frc,
    /// rear left center
    Rlc,
    /// rear right center
    Rrc,
    /// front left wide
    Flw,
    /// front right wide
    Frw,
    /// front left high
    Flh,
    /// front center high
    Fch,
    /// front right high
    Frh,
    /// top center
    Tc,
    /// top front left
    Tfl,
    /// top front right
    Tfr,
    /// top front center
    Tfc,
    /// top rear left
    Trl,
    /// top rear right
    Trr,
    /// top rear center
    Trc,
    /// top front left center
    Tflc,
    /// top front right center
    Tfrc,
    /// top side left
    Tsl,
    /// top side right
    Tsr,
    /// left LFE
    Llfe,
    /// right LFE
    Rlfe,
    /// bottom center
    Bc,
    /// bottom left center
    Blc,
    /// bottom right center
    Brc,
}

impl ChannelPosition {
    /// The number that stands for the position in a channel map.
    pub open spec fn number_spec(self) -> u8 {
        match self {
            ChannelPosition::Undefined => VIRTIO_SND_CHMAP_NONE,
            ChannelPosition::Na => VIRTIO_SND_CHMAP_NA,
            ChannelPosition::Mono => VIRTIO_SND_CHMAP_MONO,
            ChannelPosition::Fl => VIRTIO_SND_CHMAP_FL,
            ChannelPosition::Fr => VIRTIO_SND_CHMAP_FR,
            ChannelPosition::Rl => VIRTIO_SND_CHMAP_RL,
            ChannelPosition::Rr => VIRTIO_SND_CHMAP_RR,
            ChannelPosition::Fc => VIRTIO_SND_CHMAP_FC,
            ChannelPosition::Lfe => VIRTIO_SND_CHMAP_LFE,
            ChannelPosition::Sl => VIRTIO_SND_CHMAP_SL,
            ChannelPosition::Sr => VIRTIO_SND_CHMAP_SR,
            ChannelPosition::Rc => VIRTIO_SND_CHMAP_RC,
            ChannelPosition::Flc => VIRTIO_SND_CHMAP_FLC,
            ChannelPosition::Frc => VIRTIO_SND_CHMAP_FRC,
            ChannelPosition::Rlc => VIRTIO_SND_CHMAP_RLC,
            ChannelPosition::Rrc => VIRTIO_SND_CHMAP_RRC,
            ChannelPosition::Flw => VIRTIO_SND_CHMAP_FLW,
            ChannelPosition::Frw => VIRTIO_SND_CHMAP_FRW,
            ChannelPosition::Flh => VIRTIO_SND_CHMAP_FLH,
            ChannelPosition::Fch => VIRTIO_SND_CHMAP_FCH,
            ChannelPosition::Frh => VIRTIO_SND_CHMAP_FRH,
            ChannelPosition::Tc => VIRTIO_SND_CHMAP_TC,
            ChannelPosition::Tfl => VIRTIO_SND_CHMAP_TFL,
            ChannelPosition::Tfr => VIRTIO_SND_CHMAP_TFR,
            ChannelPosition::Tfc => VIRTIO_SND_CHMAP_TFC,
            ChannelPosition::Trl => VIRTIO_SND_CHMAP_TRL,
            ChannelPosition::Trr => VIRTIO_SND_CHMAP_TRR,
            ChannelPosition::Trc => VIRTIO_SND_CHMAP_TRC,
            ChannelPosition::Tflc => VIRTIO_SND_CHMAP_TFLC,
            ChannelPosition::Tfrc => VIRTIO_SND_CHMAP_TFRC,
            ChannelPosition::Tsl => VIRTIO_SND_CHMAP_TSL,
            ChannelPosition::Tsr => VIRTIO_SND_CHMAP_TSR,
            ChannelPosition::Llfe => VIRTIO_SND_CHMAP_LLFE,
            ChannelPosition::Rlfe => VIRTIO_SND_CHMAP_RLFE,
            ChannelPosition::Bc => VIRTIO_SND_CHMAP_BC,
            ChannelPosition::Blc => VIRTIO_SND_CHMAP_BLC,
            ChannelPosition::Brc => VIRTIO_SND_CHMAP_BRC,
        }
    }

    /// The number that stands for the position in a channel map.
    pub fn number(self) -> (r: u8)
        ensures
            r == self.number_spec(),
    {
        match self {
            ChannelPosition::Undefined => VIRTIO_SND_CHMAP_NONE,
            ChannelPosition::Na => VIRTIO_SND_CHMAP_NA,
            ChannelPosition::Mono => VIRTIO_SND_CHMAP_MONO,
            ChannelPosition::Fl => VIRTIO_SND_CHMAP_FL,
            ChannelPosition::Fr => VIRTIO_SND_CHMAP_FR,
            ChannelPosition::Rl => VIRTIO_SND_CHMAP_RL,
            ChannelPosition::Rr => VIRTIO_SND_CHMAP_RR,
            ChannelPosition::Fc => VIRTIO_SND_CHMAP_FC,
            ChannelPosition::Lfe => VIRTIO_SND_CHMAP_LFE,
            ChannelPosition::Sl => VIRTIO_SND_CHMAP_SL,
            ChannelPosition::Sr => VIRTIO_SND_CHMAP_SR,
            ChannelPosition::Rc => VIRTIO_SND_CHMAP_RC,
            ChannelPosition::Flc => VIRTIO_SND_CHMAP_FLC,
            ChannelPosition::Frc => VIRTIO_SND_CHMAP_FRC,
            ChannelPosition::Rlc => VIRTIO_SND_CHMAP_RLC,
            ChannelPosition::Rrc => VIRTIO_SND_CHMAP_RRC,
            ChannelPosition::Flw => VIRTIO_SND_CHMAP_FLW,
            ChannelPosition::Frw => VIRTIO_SND_CHMAP_FRW,
            ChannelPosition::Flh => VIRTIO_SND_CHMAP_FLH,
            ChannelPosition::Fch => VIRTIO_SND_CHMAP_FCH,
            ChannelPosition::Frh => VIRTIO_SND_CHMAP_FRH,
            ChannelPosition::Tc => VIRTIO_SND_CHMAP_TC,
            ChannelPosition::Tfl => VIRTIO_SND_CHMAP_TFL,
            ChannelPosition::Tfr => VIRTIO_SND_CHMAP_TFR,
            ChannelPosition::Tfc => VIRTIO_SND_CHMAP_TFC,
            ChannelPosition::Trl => VIRTIO_SND_CHMAP_TRL,
            ChannelPosition::Trr => VIRTIO_SND_CHMAP_TRR,
            ChannelPosition::Trc => VIRTIO_SND_CHMAP_TRC,
            ChannelPosition::Tflc => VIRTIO_SND_CHMAP_TFLC,
            ChannelPosition::Tfrc => VIRTIO_SND_CHMAP_TFRC,
            ChannelPosition::Tsl => VIRTIO_SND_CHMAP_TSL,
            ChannelPosition::Tsr => VIRTIO_SND_CHMAP_TSR,
            ChannelPosition::Llfe => VIRTIO_SND_CHMAP_LLFE,
            ChannelPosition::Rlfe => VIRTIO_SND_CHMAP_RLFE,
            ChannelPosition::Bc => VIRTIO_SND_CHMAP_BC,
            ChannelPosition::Blc => VIRTIO_SND_CHMAP_BLC,
            ChannelPosition::Brc => VIRTIO_SND_CHMAP_BRC,
        }
    }
}

/// The channel position that a byte of a channel map stands for: the one
/// whose number it is, if it is the number of one.
pub open spec fn channel_position_of(value: u8) -> Option<ChannelPosition> {
    match value {
        0 => Some(ChannelPosition::Undefined),
        1 => Some(ChannelPosition::Na),
        2 => Some(ChannelPosition::Mono),
        3 => Some(ChannelPosition::Fl),
        4 => Some(ChannelPosition::Fr),
        5 => Some(ChannelPosition::Rl),
        6 => Some(ChannelPosition::Rr),
        7 => Some(ChannelPosition::Fc),
        8 => Some(ChannelPosition::Lfe),
        9 => Some(ChannelPosition::Sl),
        10 => Some(ChannelPosition::Sr),
        11 => Some(ChannelPosition::Rc),
        12 => Some(ChannelPosition::Flc),
        13 => Some(ChannelPosition::Frc),
        14 => Some(ChannelPosition::Rlc),
        15 => Some(ChannelPosition::Rrc),
        16 => Some(ChannelPosition::Flw),
        17 => Some(ChannelPosition::Frw),
        18 => Some(ChannelPosition::Flh),
        19 => Some(ChannelPosition::Fch),
        20 => Some(ChannelPosition::Frh),
        21 => Some(ChannelPosition::Tc),
        22 => Some(ChannelPosition::Tfl),
        23 => Some(ChannelPosition::Tfr),
        24 => Some(ChannelPosition::Tfc),
        25 => Some(ChannelPosition::Trl),
        26 => Some(ChannelPosition::Trr),
        27 => Some(ChannelPosition::Trc),
        28 => Some(ChannelPosition::Tflc),
        29 => Some(ChannelPosition::Tfrc),
        30 => Some(ChannelPosition::Tsl),
        31 => Some(ChannelPosition::Tsr),
        32 => Some(ChannelPosition::Llfe),
        33 => Some(ChannelPosition::Rlfe),
        34 => Some(ChannelPosition::Bc),
        35 => Some(ChannelPosition::Blc),
        36 => Some(ChannelPosition::Brc),
        _ => None,
    }
}

impl TryFrom<u8> for ChannelPosition {
    type Error = ();

    fn try_from(value: u8) -> (r: Result<Self, ()>) {
        match value {
            0 => Ok(ChannelPosition::Undefined),
            1 => Ok(ChannelPosition::Na),
            2 => Ok(ChannelPosition::Mono),
            3 => Ok(ChannelPosition::Fl),
            4 => Ok(ChannelPosition::Fr),
            5 => Ok(ChannelPosition::Rl),
            6 => Ok(ChannelPosition::Rr),
            7 => Ok(ChannelPosition::Fc),
            8 => Ok(ChannelPosition::Lfe),
            9 => Ok(ChannelPosition::Sl),
            10 => Ok(ChannelPosition::Sr),
            11 => Ok(ChannelPosition::Rc),
            12 => Ok(ChannelPosition::Flc),
            13 => Ok(ChannelPosition::Frc),
            14 => Ok(ChannelPosition::Rlc),
            15 => Ok(ChannelPosition::Rrc),
            16 => Ok(ChannelPosition::Flw),
            17 => Ok(ChannelPosition::Frw),
            18 => Ok(ChannelPosition::Flh),
            19 => Ok(ChannelPosition::Fch),
            20 => Ok(ChannelPosition::Frh),
            21 => Ok(ChannelPosition::Tc),
            22 => Ok(ChannelPosition::Tfl),
            23 => Ok(ChannelPosition::Tfr),
            24 => Ok(ChannelPosition::Tfc),
            25 => Ok(ChannelPosition::Trl),
            26 => Ok(ChannelPosition::Trr),
            27 => Ok(ChannelPosition::Trc),
            28 => Ok(ChannelPosition::Tflc),
            29 => Ok(ChannelPosition::Tfrc),
            30 => Ok(ChannelPosition::Tsl),
            31 => Ok(ChannelPosition::Tsr),
            32 => Ok(ChannelPosition::Llfe),
            33 => Ok(ChannelPosition::Rlfe),
            34 => Ok(ChannelPosition::Bc),
            35 => Ok(ChannelPosition::Blc),
            36 => Ok(ChannelPosition::Brc),
            _ => Err(()),
        }
    }
}

impl TryFromSpecImpl<u8> for ChannelPosition {
    open spec fn obeys_try_from_spec() -> bool {
        true
    }

    open spec fn try_from_spec(value: u8) -> Result<Self, ()> {
        match channel_position_of(value) {
            Some(p) => Ok(p),
            None => Err(()),
        }
    }
}

/// Reading a byte of a channel map undoes writing a position: the number
/// of a position stands for that position and for no other, and a byte
/// stands for a position exactly where it is no greater than the number of
/// the last one, bottom right center.
pub proof fn lemma_channel_position_numbers(p: ChannelPosition, value: u8)
    ensures
        channel_position_of(p.number_spec()) == Some(p),
        channel_position_of(value) == Some(p) <==> value == p.number_spec(),
        channel_position_of(value) is None <==> value > VIRTIO_SND_CHMAP_BRC,
        VIRTIO_SND_CHMAP_BRC == 36,
{
}

} // verus!
