//! The command catalog: for each kind of command its identifiers on the
//! wire and the encoding of what it carries.
//!
//! | Kind | fetch | reply | set | notify |
//! |---|---|---|---|---|
//! | Hello | | | 3 | |
//! | PowerMode | 14 | 14 | | 14 |
//! | Power | 15 | 15 | 15 | 15 |
//! | PlayControl | 51 | 51 | 40 | 51 |
//! | Volume | 64 | 64 | 64 | 64 |
//! | FirmwareUpdate | 65 | 65 | 65 | 65 |
//! | DeviceName | 90 | 90 | 90 | |
//! | BatteryLevel | 256 | 257 | | 258 |
//! | PreChannel | 275 | 275 | 276 | |
//! | PlayInfo | 278 | 278 | 277 | 278 |
//! | Capabilities | 281 | 281 | | |
//! | ChargingState | 1284 | 1284 | | 1284 |

use vstd::prelude::*;
use vstd::string::*;
use vstd::utf8::*;
use crate::channel::{
    channels_described, channels_from_json, channels_of_json, describe_channels,
    lemma_channel_json_writable, ChannelObject, ChannelObjectView,
};
use crate::json::{json_document, json_text, Json};
use crate::media::{
    capabilities_described, capabilities_of_json, lemma_play_info_json_writable, CapabilitiesData,
    PlayInfoData, PlayInfoDataView,
};
use crate::address::IpAddress;
use crate::protocol::{
    Packet, PacketView, COMMAND_TYPE_FETCH, COMMAND_TYPE_SET, NOTIF_RECV_PORT,
};
use crate::text::{
    append_bytes, bounded_decimal, bytes_of_str, decimal_digits, decimal_text,
    lemma_decimal_round_trip,
    lemma_lossy_text_of_encoding, lossy_text, parse_decimal, push_decimal, push_quoted, quoted,
    render_decimal, text_of_bytes,
};

verus! {

/// The direction of a request.
#[derive(Clone, Copy, Debug, PartialEq, Eq, Structural)]
pub enum CommandType {
    Fetch,
    SetValue,
}

/// Why a request could not be encoded.
#[derive(Clone, Copy, Debug, PartialEq, Eq, Structural)]
pub enum EncodeError {
    /// The value lies outside the range that the command accepts.
    OutOfRange,
}

/// Why a payload could not be decoded.
#[derive(Clone, Copy, Debug, PartialEq, Eq, Structural)]
pub enum DecodeError {
    /// The payload is not a decimal number in the range of the command.
    InvalidNumber,
    /// The payload is one byte, and the byte stands for nothing.
    InvalidCode(u8),
    /// The payload is not exactly one byte.
    InvalidLength,
    /// The payload is not a JSON document.
    InvalidJson,
    /// The payload is a JSON document of another shape than the command's.
    InvalidShape,
}

impl DecodeError {
    /// `acc` followed by what went wrong, in words.
    pub open spec fn described(self, acc: Seq<char>) -> Seq<char> {
        match self {
            DecodeError::InvalidNumber => acc + "invalid number"@,
            DecodeError::InvalidCode(b) => acc + "invalid data: "@ + decimal_text(b as nat),
            DecodeError::InvalidLength => acc + "invalid data length"@,
            DecodeError::InvalidJson => acc + "error parsing JSON"@,
            DecodeError::InvalidShape => acc + "unexpected JSON"@,
        }
    }

    /// Appends what went wrong, in words.
    pub fn describe(&self, out: &mut String)
        ensures
            final(out)@ == self.described(old(out)@),
    {
        match self {
            DecodeError::InvalidNumber => {
                out.append("invalid number");
            },
            DecodeError::InvalidCode(b) => {
                out.append("invalid data: ");
                push_decimal(out, *b as u64);
            },
            DecodeError::InvalidLength => {
                out.append("invalid data length");
            },
            DecodeError::InvalidJson => {
                out.append("error parsing JSON");
            },
            DecodeError::InvalidShape => {
                out.append("unexpected JSON");
            },
        }
    }

    /// What went wrong, in words.
    pub fn message(&self) -> (s: String)
        ensures
            s@ == self.described(Seq::empty()),
    {
        let mut out = String::new();
        self.describe(&mut out);
        out
    }
}

impl CommandType {
    /// The value of the frame's `command_type` field.
    pub open spec fn code(self) -> u8 {
        match self {
            CommandType::Fetch => COMMAND_TYPE_FETCH,
            CommandType::SetValue => COMMAND_TYPE_SET,
        }
    }
}

/// The word for the value of a frame's `command_type` field.
pub open spec fn direction_text(command_type: u8) -> Seq<char> {
    if command_type == COMMAND_TYPE_FETCH {
        "fetch"@
    } else if command_type == COMMAND_TYPE_SET {
        "set"@
    } else {
        "??"@
    }
}

/// The word for the value of a frame's `command_type` field.
pub fn direction_str(command_type: u8) -> (s: &'static str)
    ensures
        s@ == direction_text(command_type),
{
    if command_type == COMMAND_TYPE_FETCH {
        "fetch"
    } else if command_type == COMMAND_TYPE_SET {
        "set"
    } else {
        "??"
    }
}

/// The line that describes a packet of the kind called `name`: the
/// direction, the name, and between quotes what the payload decodes to.
pub open spec fn format_text(command_type: u8, name: Seq<char>, inner: Seq<char>) -> Seq<char> {
    Seq::<char>::empty() + direction_text(command_type) + " "@ + name + " "@ + quoted(inner)
}

/// One kind of command.
pub trait Command<Req: DeepView, Resp: DeepView>: Sized {
    /// Identifier of a request that reads the field.
    const GET_COMMAND_ID: u16;

    /// Identifier that the reply to such a request carries.
    const GET_REPLY_COMMAND_ID: u16 = Self::GET_COMMAND_ID;

    /// Identifier of a request that writes the field; 0 where there is none.
    const SET_COMMAND_ID: u16;

    /// Identifier of an unsolicited notification; 0 where there is none.
    const NOTIFY_ID: u16;

    /// Name for display.
    const NAME: &'static str;

    /// The payload that carries `req`.
    spec fn marshalled(req: Req::V) -> Result<Seq<u8>, EncodeError>;

    /// The value that the payload `data` carries.
    spec fn unmarshalled(data: Seq<u8>) -> Result<Resp::V, DecodeError>;

    /// `acc` followed by the display form of a decoded value.
    spec fn described(acc: Seq<char>, resp: Resp::V) -> Seq<char>;

    /// Encodes the payload of a request.
    fn marshal_data(req: Req) -> (r: Result<Vec<u8>, EncodeError>)
        ensures
            match r {
                Ok(b) => Self::marshalled(req.deep_view()) == Ok::<Seq<u8>, EncodeError>(b@),
                Err(e) => Self::marshalled(req.deep_view()) == Err::<Seq<u8>, EncodeError>(e),
            },
    ;

    /// Decodes the payload of a reply or a notification.
    fn unmarshal_data(data: &[u8]) -> (r: Result<Resp, DecodeError>)
        ensures
            match r {
                Ok(v) => Self::unmarshalled(data@) == Ok::<Resp::V, DecodeError>(v.deep_view()),
                Err(e) => Self::unmarshalled(data@) == Err::<Resp::V, DecodeError>(e),
            },
    ;

    /// Appends the display form of a decoded value.
    fn describe(resp: &Resp, out: &mut String)
        ensures
            final(out)@ == Self::described(old(out)@, resp.deep_view()),
    ;

    /// Builds a request.
    fn packet(command_type: CommandType, data: Option<Req>) -> (r: Result<Packet, EncodeError>)
        ensures
            data is None ==> r is Ok,
            data matches Some(d) ==> (r is Ok <==> Self::marshalled(d.deep_view()) is Ok),
            r matches Err(e) ==> data matches Some(d) && Self::marshalled(d.deep_view()) == Err::<
                Seq<u8>,
                EncodeError,
            >(e),
            r matches Ok(p) ==> {
                &&& p.command_type == command_type.code()
                &&& p.command == match command_type {
                    CommandType::Fetch => Self::GET_COMMAND_ID,
                    CommandType::SetValue => Self::SET_COMMAND_ID,
                }
                &&& p@.command_data == match data {
                    Some(d) => Some(Self::marshalled(d.deep_view())->Ok_0),
                    None => None,
                }
            },
    {
        let code: u8 = match command_type {
            CommandType::Fetch => COMMAND_TYPE_FETCH,
            CommandType::SetValue => COMMAND_TYPE_SET,
        };
        let command: u16 = match command_type {
            CommandType::Fetch => Self::GET_COMMAND_ID,
            CommandType::SetValue => Self::SET_COMMAND_ID,
        };
        match data {
            None => Ok(Packet { command_type: code, command, command_data: None }),
            Some(d) => match Self::marshal_data(d) {
                Ok(b) => Ok(Packet { command_type: code, command, command_data: Some(b) }),
                Err(e) => Err(e),
            },
        }
    }

    /// The request that reads the field.
    fn fetch() -> (p: Packet)
        ensures
            p@ == (PacketView {
                command_type: COMMAND_TYPE_FETCH,
                command: Self::GET_COMMAND_ID,
                command_data: None,
            }),
    {
        Packet {
            command_type: COMMAND_TYPE_FETCH,
            command: Self::GET_COMMAND_ID,
            command_data: None,
        }
    }

    /// The request that writes `data` to the field.
    fn set(data: Req) -> (r: Result<Packet, EncodeError>)
        ensures
            match Self::marshalled(data.deep_view()) {
                Ok(b) => r matches Ok(p) && p@ == (PacketView {
                    command_type: COMMAND_TYPE_SET,
                    command: Self::SET_COMMAND_ID,
                    command_data: Some(b),
                }),
                Err(e) => r == Err::<Packet, EncodeError>(e),
            },
    {
        Self::packet(CommandType::SetValue, Some(data))
    }

    /// Describes a packet of this kind in one line.
    fn format(p: &Packet) -> (s: String)
        ensures
            s@ == format_text(
                p.command_type,
                Self::NAME@,
                match p@.command_data {
                    Some(d) => match Self::unmarshalled(d) {
                        Ok(v) => Self::described(Seq::empty(), v),
                        Err(e) => e.described(Seq::empty()),
                    },
                    None => Seq::empty(),
                },
            ),
    {
        let mut inner = String::new();
        match &p.command_data {
            Some(data) => match Self::unmarshal_data(data.as_slice()) {
                Ok(v) => {
                    Self::describe(&v, &mut inner);
                },
                Err(e) => {
                    e.describe(&mut inner);
                },
            },
            None => {},
        }
        let mut out = String::new();
        out.append(direction_str(p.command_type));
        out.append(" ");
        out.append(Self::NAME);
        out.append(" ");
        push_quoted(&mut out, inner.as_str());
        out
    }

    /// Describes a notification of this kind in one line.
    fn format_notification(p: &Packet) -> (s: String)
        requires
            p.command == Self::NOTIFY_ID,
        ensures
            s@ == format_text(
                p.command_type,
                Self::NAME@,
                match p@.command_data {
                    Some(d) => match Self::unmarshalled(d) {
                        Ok(v) => Self::described(Seq::empty(), v),
                        Err(e) => e.described(Seq::empty()),
                    },
                    None => Seq::empty(),
                },
            ),
    {
        Self::format(p)
    }

    /// Describes a reply of this kind in one line.
    fn format_reply(p: &Packet) -> (s: String)
        requires
            p.command == Self::GET_REPLY_COMMAND_ID,
        ensures
            s@ == format_text(
                p.command_type,
                Self::NAME@,
                match p@.command_data {
                    Some(d) => match Self::unmarshalled(d) {
                        Ok(v) => Self::described(Seq::empty(), v),
                        Err(e) => e.described(Seq::empty()),
                    },
                    None => Seq::empty(),
                },
            ),
    {
        Self::format(p)
    }
}

/// What to do to the power of a device.
#[derive(Clone, Copy, Debug, PartialEq, Eq, Structural)]
pub enum PowerState {
    Sleep,
    WakeUp,
}

impl DeepView for PowerState {
    type V = PowerState;

    open spec fn deep_view(&self) -> PowerState {
        *self
    }
}

impl PowerState {
    /// The two characters that stand for the state on the wire.
    pub open spec fn code(self) -> Seq<char> {
        match self {
            PowerState::Sleep => "02"@,
            PowerState::WakeUp => "00"@,
        }
    }
}

/// Putting a device to sleep and waking it up.
pub struct Power;

impl Command<PowerState, ()> for Power {
    const GET_COMMAND_ID: u16 = 15;

    const SET_COMMAND_ID: u16 = 15;

    const NOTIFY_ID: u16 = 15;

    const NAME: &'static str = "Power";

    open spec fn marshalled(req: PowerState) -> Result<Seq<u8>, EncodeError> {
        Ok(encode_utf8(req.code()))
    }

    open spec fn unmarshalled(data: Seq<u8>) -> Result<(), DecodeError> {
        Ok(())
    }

    open spec fn described(acc: Seq<char>, resp: ()) -> Seq<char> {
        acc + "()"@
    }

    fn marshal_data(s: PowerState) -> (r: Result<Vec<u8>, EncodeError>) {
        Ok(
            bytes_of_str(
                match s {
                    PowerState::Sleep => "02",
                    PowerState::WakeUp => "00",
                },
            ),
        )
    }

    fn unmarshal_data(data: &[u8]) -> (r: Result<(), DecodeError>) {
        Ok(())
    }

    fn describe(resp: &(), out: &mut String) {
        out.append("()");
    }
}

/// The name that the user gave the device.
pub struct DeviceName;

impl Command<String, String> for DeviceName {
    const GET_COMMAND_ID: u16 = 90;

    const SET_COMMAND_ID: u16 = 90;

    const NOTIFY_ID: u16 = 0;

    const NAME: &'static str = "Name";

    open spec fn marshalled(req: Seq<char>) -> Result<Seq<u8>, EncodeError> {
        Ok(encode_utf8(req))
    }

    open spec fn unmarshalled(data: Seq<u8>) -> Result<Seq<char>, DecodeError> {
        Ok(lossy_text(data))
    }

    open spec fn described(acc: Seq<char>, resp: Seq<char>) -> Seq<char> {
        acc + quoted(resp)
    }

    fn marshal_data(name: String) -> (r: Result<Vec<u8>, EncodeError>) {
        Ok(bytes_of_str(name.as_str()))
    }

    fn unmarshal_data(data: &[u8]) -> (r: Result<String, DecodeError>) {
        Ok(text_of_bytes(data))
    }

    fn describe(resp: &String, out: &mut String) {
        push_quoted(out, resp.as_str());
    }
}

/// The volume, from 0 to 100.
pub struct Volume;

impl Command<u8, u8> for Volume {
    const GET_COMMAND_ID: u16 = 64;

    const SET_COMMAND_ID: u16 = 64;

    const NOTIFY_ID: u16 = 64;

    const NAME: &'static str = "Volume";

    open spec fn marshalled(req: u8) -> Result<Seq<u8>, EncodeError> {
        if req > 100 {
            Err(EncodeError::OutOfRange)
        } else {
            Ok(decimal_digits(req as nat))
        }
    }

    open spec fn unmarshalled(data: Seq<u8>) -> Result<u8, DecodeError> {
        match bounded_decimal(data, 100) {
            Some(v) => Ok(v as u8),
            None => Err(DecodeError::InvalidNumber),
        }
    }

    open spec fn described(acc: Seq<char>, resp: u8) -> Seq<char> {
        acc + decimal_text(resp as nat)
    }

    fn marshal_data(volume: u8) -> (r: Result<Vec<u8>, EncodeError>) {
        if volume > 100 {
            return Err(EncodeError::OutOfRange);
        }
        Ok(render_decimal(volume as u32))
    }

    fn unmarshal_data(data: &[u8]) -> (r: Result<u8, DecodeError>) {
        match parse_decimal(data, 100) {
            Some(v) => Ok(v as u8),
            None => Err(DecodeError::InvalidNumber),
        }
    }

    fn describe(resp: &u8, out: &mut String) {
        push_decimal(out, *resp as u64);
    }
}

/// What to do to the playback of a device, and what it is doing.
#[derive(Clone, Copy, Debug, PartialEq, Eq, Structural)]
pub enum PlayControlCommand {
    Play,
    Stop,
    Pause,
    Next,
    Previous,
    Toggle,
    Mute,
    Unmute,
}

impl DeepView for PlayControlCommand {
    type V = PlayControlCommand;

    open spec fn deep_view(&self) -> PlayControlCommand {
        *self
    }
}

impl PlayControlCommand {
    /// The digit that stands for this variant in a reply or a notification.
    pub open spec fn digit(self) -> u8 {
        match self {
            PlayControlCommand::Play => 48,
            PlayControlCommand::Stop => 49,
            PlayControlCommand::Pause => 50,
            PlayControlCommand::Next => 51,
            PlayControlCommand::Previous => 52,
            PlayControlCommand::Toggle => 53,
            PlayControlCommand::Mute => 54,
            PlayControlCommand::Unmute => 55,
        }
    }

    /// The variants, in the order in which they are numbered.
    pub open spec fn variants() -> Seq<PlayControlCommand> {
        seq![
            PlayControlCommand::Play,
            PlayControlCommand::Stop,
            PlayControlCommand::Pause,
            PlayControlCommand::Next,
            PlayControlCommand::Previous,
            PlayControlCommand::Toggle,
            PlayControlCommand::Mute,
            PlayControlCommand::Unmute,
        ]
    }

    /// The variant that a payload of a reply or a notification stands for:
    /// the payload is one digit, the index of the variant.
    pub open spec fn of_payload(data: Seq<u8>) -> Result<PlayControlCommand, DecodeError> {
        if data.len() != 1 {
            Err(DecodeError::InvalidLength)
        } else if 0x30 <= data[0] < 0x30 + Self::variants().len() {
            Ok(Self::variants()[data[0] - 0x30])
        } else {
            Err(DecodeError::InvalidCode(data[0]))
        }
    }

    /// The name of the variant.
    pub open spec fn variant_text(self) -> Seq<char> {
        match self {
            PlayControlCommand::Play => "Play"@,
            PlayControlCommand::Stop => "Stop"@,
            PlayControlCommand::Pause => "Pause"@,
            PlayControlCommand::Next => "Next"@,
            PlayControlCommand::Previous => "Previous"@,
            PlayControlCommand::Toggle => "Toggle"@,
            PlayControlCommand::Mute => "Mute"@,
            PlayControlCommand::Unmute => "Unmute"@,
        }
    }

    /// The digit that stands for this variant in a reply or a notification.
    pub fn to_digit(self) -> (b: u8)
        ensures
            b == self.digit(),
    {
        match self {
            PlayControlCommand::Play => 48,
            PlayControlCommand::Stop => 49,
            PlayControlCommand::Pause => 50,
            PlayControlCommand::Next => 51,
            PlayControlCommand::Previous => 52,
            PlayControlCommand::Toggle => 53,
            PlayControlCommand::Mute => 54,
            PlayControlCommand::Unmute => 55,
        }
    }

    /// Reads the payload of a reply or a notification.
    pub fn from_payload(data: &[u8]) -> (r: Result<PlayControlCommand, DecodeError>)
        ensures
            r == Self::of_payload(data@),
    {
        if data.len() != 1 {
            return Err(DecodeError::InvalidLength);
        }
        let b = data[0];
        if b == 48 {
            Ok(PlayControlCommand::Play)
        } else if b == 49 {
            Ok(PlayControlCommand::Stop)
        } else if b == 50 {
            Ok(PlayControlCommand::Pause)
        } else if b == 51 {
            Ok(PlayControlCommand::Next)
        } else if b == 52 {
            Ok(PlayControlCommand::Previous)
        } else if b == 53 {
            Ok(PlayControlCommand::Toggle)
        } else if b == 54 {
            Ok(PlayControlCommand::Mute)
        } else if b == 55 {
            Ok(PlayControlCommand::Unmute)
        } else {
            Err(DecodeError::InvalidCode(b))
        }
    }

    /// The name of the variant.
    pub fn variant_str(self) -> (s: &'static str)
        ensures
            s@ == self.variant_text(),
    {
        match self {
            PlayControlCommand::Play => "Play",
            PlayControlCommand::Stop => "Stop",
            PlayControlCommand::Pause => "Pause",
            PlayControlCommand::Next => "Next",
            PlayControlCommand::Previous => "Previous",
            PlayControlCommand::Toggle => "Toggle",
            PlayControlCommand::Mute => "Mute",
            PlayControlCommand::Unmute => "Unmute",
        }
    }
}

impl PlayControlCommand {
    /// The word that stands for this command in a request.
    pub open spec fn verb(self) -> Seq<char> {
        match self {
            PlayControlCommand::Play => "PLAY"@,
            PlayControlCommand::Stop => "STOP"@,
            PlayControlCommand::Pause => "PAUSE"@,
            PlayControlCommand::Next => "NEXT"@,
            PlayControlCommand::Previous => "PREV"@,
            PlayControlCommand::Toggle => "TOGGL"@,
            PlayControlCommand::Mute => "MUTE"@,
            PlayControlCommand::Unmute => "UNMUTE"@,
        }
    }

    /// The word that stands for this command in a request.
    pub fn verb_str(self) -> (s: &'static str)
        ensures
            s@ == self.verb(),
    {
        match self {
            PlayControlCommand::Play => "PLAY",
            PlayControlCommand::Stop => "STOP",
            PlayControlCommand::Pause => "PAUSE",
            PlayControlCommand::Next => "NEXT",
            PlayControlCommand::Previous => "PREV",
            PlayControlCommand::Toggle => "TOGGL",
            PlayControlCommand::Mute => "MUTE",
            PlayControlCommand::Unmute => "UNMUTE",
        }
    }
}

/// Control of the playback: a request carries a word, a reply or a
/// notification carries a digit.
pub struct PlayControl;

impl Command<PlayControlCommand, PlayControlCommand> for PlayControl {
    const GET_COMMAND_ID: u16 = 51;

    const SET_COMMAND_ID: u16 = 40;

    const NOTIFY_ID: u16 = 51;

    const NAME: &'static str = "Play control";

    open spec fn marshalled(req: PlayControlCommand) -> Result<Seq<u8>, EncodeError> {
        Ok(encode_utf8(req.verb()))
    }

    open spec fn unmarshalled(data: Seq<u8>) -> Result<PlayControlCommand, DecodeError> {
        PlayControlCommand::of_payload(data)
    }

    open spec fn described(acc: Seq<char>, resp: PlayControlCommand) -> Seq<char> {
        acc + resp.variant_text()
    }

    fn marshal_data(cmd: PlayControlCommand) -> (r: Result<Vec<u8>, EncodeError>) {
        Ok(bytes_of_str(cmd.verb_str()))
    }

    fn unmarshal_data(data: &[u8]) -> (r: Result<PlayControlCommand, DecodeError>) {
        PlayControlCommand::from_payload(data)
    }

    fn describe(resp: &PlayControlCommand, out: &mut String) {
        out.append(resp.variant_str());
    }
}

/// What is playing, as a JSON document.
pub struct PlayInfo;

impl Command<PlayInfoData, PlayInfoData> for PlayInfo {
    const GET_COMMAND_ID: u16 = 278;

    const SET_COMMAND_ID: u16 = 277;

    const NOTIFY_ID: u16 = 278;

    const NAME: &'static str = "Play info";

    open spec fn marshalled(req: PlayInfoDataView) -> Result<Seq<u8>, EncodeError> {
        Ok(json_text(req.json()))
    }

    open spec fn unmarshalled(data: Seq<u8>) -> Result<PlayInfoDataView, DecodeError> {
        match json_document(data) {
            Some(j) => PlayInfoDataView::of_json(j),
            None => Err(DecodeError::InvalidJson),
        }
    }

    open spec fn described(acc: Seq<char>, resp: PlayInfoDataView) -> Seq<char> {
        resp.described(acc)
    }

    fn marshal_data(d: PlayInfoData) -> (r: Result<Vec<u8>, EncodeError>) {
        let j = d.to_json();
        proof {
            lemma_play_info_json_writable(d@);
        }
        Ok(j.to_bytes())
    }

    fn unmarshal_data(data: &[u8]) -> (r: Result<PlayInfoData, DecodeError>) {
        match Json::parse(data) {
            Some(j) => PlayInfoData::from_json(&j),
            None => Err(DecodeError::InvalidJson),
        }
    }

    fn describe(resp: &PlayInfoData, out: &mut String) {
        resp.describe(out);
    }
}

/// What a device can do, as a JSON document.
pub struct Capabilities;

impl Command<(), CapabilitiesData> for Capabilities {
    const GET_COMMAND_ID: u16 = 281;

    const SET_COMMAND_ID: u16 = 0;

    const NOTIFY_ID: u16 = 0;

    const NAME: &'static str = "Capabilities";

    open spec fn marshalled(req: ()) -> Result<Seq<u8>, EncodeError> {
        Ok(Seq::empty())
    }

    open spec fn unmarshalled(data: Seq<u8>) -> Result<Seq<Seq<char>>, DecodeError> {
        match json_document(data) {
            Some(j) => capabilities_of_json(j),
            None => Err(DecodeError::InvalidJson),
        }
    }

    open spec fn described(acc: Seq<char>, resp: Seq<Seq<char>>) -> Seq<char> {
        capabilities_described(acc, resp)
    }

    fn marshal_data(_req: ()) -> (r: Result<Vec<u8>, EncodeError>) {
        Ok(Vec::new())
    }

    fn unmarshal_data(data: &[u8]) -> (r: Result<CapabilitiesData, DecodeError>) {
        match Json::parse(data) {
            Some(j) => CapabilitiesData::from_json(&j),
            None => Err(DecodeError::InvalidJson),
        }
    }

    fn describe(resp: &CapabilitiesData, out: &mut String) {
        resp.describe(out);
    }
}

/// The power mode of a device, as text.
pub struct PowerMode;

impl Command<(), String> for PowerMode {
    const GET_COMMAND_ID: u16 = 14;

    const SET_COMMAND_ID: u16 = 0;

    const NOTIFY_ID: u16 = 14;

    const NAME: &'static str = "Power mode";

    open spec fn marshalled(req: ()) -> Result<Seq<u8>, EncodeError> {
        Ok(Seq::empty())
    }

    open spec fn unmarshalled(data: Seq<u8>) -> Result<Seq<char>, DecodeError> {
        Ok(lossy_text(data))
    }

    open spec fn described(acc: Seq<char>, resp: Seq<char>) -> Seq<char> {
        acc + quoted(resp)
    }

    fn marshal_data(_req: ()) -> (r: Result<Vec<u8>, EncodeError>) {
        Ok(Vec::new())
    }

    fn unmarshal_data(data: &[u8]) -> (r: Result<String, DecodeError>) {
        Ok(text_of_bytes(data))
    }

    fn describe(resp: &String, out: &mut String) {
        push_quoted(out, resp.as_str());
    }
}

/// Whether a device runs on its battery, and whether the battery is being charged.
#[derive(Clone, Copy, Debug, PartialEq, Eq, Structural)]
pub enum ChargingStateData {
    Discharging,
    PluggedInCharging,
    PluggedInCharged,
    PluggedInNotCharging,
}

impl DeepView for ChargingStateData {
    type V = ChargingStateData;

    open spec fn deep_view(&self) -> ChargingStateData {
        *self
    }
}

impl ChargingStateData {
    /// The digit that stands for this variant in a reply or a notification.
    pub open spec fn digit(self) -> u8 {
        match self {
            ChargingStateData::Discharging => 48,
            ChargingStateData::PluggedInCharging => 49,
            ChargingStateData::PluggedInCharged => 50,
            ChargingStateData::PluggedInNotCharging => 51,
        }
    }

    /// The variants, in the order in which they are numbered.
    pub open spec fn variants() -> Seq<ChargingStateData> {
        seq![
            ChargingStateData::Discharging,
            ChargingStateData::PluggedInCharging,
            ChargingStateData::PluggedInCharged,
            ChargingStateData::PluggedInNotCharging,
        ]
    }

    /// The variant that a payload of a reply or a notification stands for:
    /// the payload is one digit, the index of the variant.
    pub open spec fn of_payload(data: Seq<u8>) -> Result<ChargingStateData, DecodeError> {
        if data.len() != 1 {
            Err(DecodeError::InvalidLength)
        } else if 0x30 <= data[0] < 0x30 + Self::variants().len() {
            Ok(Self::variants()[data[0] - 0x30])
        } else {
            Err(DecodeError::InvalidCode(data[0]))
        }
    }

    /// The name of the variant.
    pub open spec fn variant_text(self) -> Seq<char> {
        match self {
            ChargingStateData::Discharging => "Discharging"@,
            ChargingStateData::PluggedInCharging => "PluggedInCharging"@,
            ChargingStateData::PluggedInCharged => "PluggedInCharged"@,
            ChargingStateData::PluggedInNotCharging => "PluggedInNotCharging"@,
        }
    }

    /// The digit that stands for this variant in a reply or a notification.
    pub fn to_digit(self) -> (b: u8)
        ensures
            b == self.digit(),
    {
        match self {
            ChargingStateData::Discharging => 48,
            ChargingStateData::PluggedInCharging => 49,
            ChargingStateData::PluggedInCharged => 50,
            ChargingStateData::PluggedInNotCharging => 51,
        }
    }

    /// Reads the payload of a reply or a notification.
    pub fn from_payload(data: &[u8]) -> (r: Result<ChargingStateData, DecodeError>)
        ensures
            r == Self::of_payload(data@),
    {
        if data.len() != 1 {
            return Err(DecodeError::InvalidLength);
        }
        let b = data[0];
        if b == 48 {
            Ok(ChargingStateData::Discharging)
        } else if b == 49 {
            Ok(ChargingStateData::PluggedInCharging)
        } else if b == 50 {
            Ok(ChargingStateData::PluggedInCharged)
        } else if b == 51 {
            Ok(ChargingStateData::PluggedInNotCharging)
        } else {
            Err(DecodeError::InvalidCode(b))
        }
    }

    /// The name of the variant.
    pub fn variant_str(self) -> (s: &'static str)
        ensures
            s@ == self.variant_text(),
    {
        match self {
            ChargingStateData::Discharging => "Discharging",
            ChargingStateData::PluggedInCharging => "PluggedInCharging",
            ChargingStateData::PluggedInCharged => "PluggedInCharged",
            ChargingStateData::PluggedInNotCharging => "PluggedInNotCharging",
        }
    }
}

/// The state of the charger.
pub struct ChargingState;

impl Command<(), ChargingStateData> for ChargingState {
    const GET_COMMAND_ID: u16 = 1284;

    const SET_COMMAND_ID: u16 = 0;

    const NOTIFY_ID: u16 = 1284;

    const NAME: &'static str = "Charging state";

    open spec fn marshalled(req: ()) -> Result<Seq<u8>, EncodeError> {
        Ok(Seq::empty())
    }

    open spec fn unmarshalled(data: Seq<u8>) -> Result<ChargingStateData, DecodeError> {
        ChargingStateData::of_payload(data)
    }

    open spec fn described(acc: Seq<char>, resp: ChargingStateData) -> Seq<char> {
        acc + resp.variant_text()
    }

    fn marshal_data(_req: ()) -> (r: Result<Vec<u8>, EncodeError>) {
        Ok(Vec::new())
    }

    fn unmarshal_data(data: &[u8]) -> (r: Result<ChargingStateData, DecodeError>) {
        ChargingStateData::from_payload(data)
    }

    fn describe(resp: &ChargingStateData, out: &mut String) {
        out.append(resp.variant_str());
    }
}

/// The charge of the battery, from 0 to 100.
pub struct BatteryLevel;

impl Command<(), u8> for BatteryLevel {
    const GET_COMMAND_ID: u16 = 256;

    const GET_REPLY_COMMAND_ID: u16 = 257;

    const SET_COMMAND_ID: u16 = 0;

    const NOTIFY_ID: u16 = 258;

    const NAME: &'static str = "Battery level";

    open spec fn marshalled(req: ()) -> Result<Seq<u8>, EncodeError> {
        Ok(Seq::empty())
    }

    open spec fn unmarshalled(data: Seq<u8>) -> Result<u8, DecodeError> {
        match bounded_decimal(data, 100) {
            Some(v) => Ok(v as u8),
            None => Err(DecodeError::InvalidNumber),
        }
    }

    open spec fn described(acc: Seq<char>, resp: u8) -> Seq<char> {
        acc + decimal_text(resp as nat)
    }

    fn marshal_data(_req: ()) -> (r: Result<Vec<u8>, EncodeError>) {
        Ok(Vec::new())
    }

    fn unmarshal_data(data: &[u8]) -> (r: Result<u8, DecodeError>) {
        match parse_decimal(data, 100) {
            Some(v) => Ok(v as u8),
            None => Err(DecodeError::InvalidNumber),
        }
    }

    fn describe(resp: &u8, out: &mut String) {
        push_decimal(out, *resp as u64);
    }
}

/// The state of a firmware update, as text.
pub struct FirmwareUpdate;

impl Command<(), String> for FirmwareUpdate {
    const GET_COMMAND_ID: u16 = 65;

    const SET_COMMAND_ID: u16 = 65;

    const NOTIFY_ID: u16 = 65;

    const NAME: &'static str = "FM Update";

    open spec fn marshalled(req: ()) -> Result<Seq<u8>, EncodeError> {
        Ok(Seq::empty())
    }

    open spec fn unmarshalled(data: Seq<u8>) -> Result<Seq<char>, DecodeError> {
        Ok(lossy_text(data))
    }

    open spec fn described(acc: Seq<char>, resp: Seq<char>) -> Seq<char> {
        acc + quoted(resp)
    }

    fn marshal_data(_req: ()) -> (r: Result<Vec<u8>, EncodeError>) {
        Ok(Vec::new())
    }

    fn unmarshal_data(data: &[u8]) -> (r: Result<String, DecodeError>) {
        Ok(text_of_bytes(data))
    }

    fn describe(resp: &String, out: &mut String) {
        push_quoted(out, resp.as_str());
    }
}

/// The presets of a device, as JSON documents.
pub struct PreChannel;

impl Command<ChannelObject, Vec<ChannelObject>> for PreChannel {
    const GET_COMMAND_ID: u16 = 275;

    const SET_COMMAND_ID: u16 = 276;

    const NOTIFY_ID: u16 = 0;

    const NAME: &'static str = "PreChannel";

    open spec fn marshalled(req: ChannelObjectView) -> Result<Seq<u8>, EncodeError> {
        Ok(json_text(req.json()))
    }

    open spec fn unmarshalled(data: Seq<u8>) -> Result<Seq<ChannelObjectView>, DecodeError> {
        match json_document(data) {
            Some(j) => channels_of_json(j),
            None => Err(DecodeError::InvalidJson),
        }
    }

    open spec fn described(acc: Seq<char>, resp: Seq<ChannelObjectView>) -> Seq<char> {
        channels_described(acc, resp)
    }

    fn marshal_data(ch: ChannelObject) -> (r: Result<Vec<u8>, EncodeError>) {
        let j = ch.to_json();
        proof {
            lemma_channel_json_writable(ch@);
        }
        Ok(j.to_bytes())
    }

    fn unmarshal_data(data: &[u8]) -> (r: Result<Vec<ChannelObject>, DecodeError>) {
        match Json::parse(data) {
            Some(j) => channels_from_json(&j),
            None => Err(DecodeError::InvalidJson),
        }
    }

    fn describe(resp: &Vec<ChannelObject>, out: &mut String) {
        describe_channels(resp, out);
    }
}

/// The line that describes `p` as a packet of the kind `C`.
pub open spec fn kind_text<Req: DeepView, Resp: DeepView, C: Command<Req, Resp>>(
    p: PacketView,
) -> Seq<char> {
    format_text(
        p.command_type,
        C::NAME@,
        match p.command_data {
            Some(d) => match C::unmarshalled(d) {
                Ok(v) => C::described(Seq::empty(), v),
                Err(e) => e.described(Seq::empty()),
            },
            None => Seq::empty(),
        },
    )
}

/// The line that describes `p` as a reply: that of the kind whose reply
/// identifier `p` carries, and the display form of the packet where no kind
/// has it.
pub open spec fn reply_text(p: PacketView) -> Seq<char> {
    if p.command == BatteryLevel::GET_REPLY_COMMAND_ID {
        kind_text::<(), u8, BatteryLevel>(p)
    } else if p.command == Capabilities::GET_COMMAND_ID {
        kind_text::<(), CapabilitiesData, Capabilities>(p)
    } else if p.command == DeviceName::GET_COMMAND_ID {
        kind_text::<String, String, DeviceName>(p)
    } else if p.command == FirmwareUpdate::GET_COMMAND_ID {
        kind_text::<(), String, FirmwareUpdate>(p)
    } else if p.command == PlayControl::GET_COMMAND_ID {
        kind_text::<PlayControlCommand, PlayControlCommand, PlayControl>(p)
    } else if p.command == PlayInfo::GET_COMMAND_ID {
        kind_text::<PlayInfoData, PlayInfoData, PlayInfo>(p)
    } else if p.command == PreChannel::GET_COMMAND_ID {
        kind_text::<ChannelObject, Vec<ChannelObject>, PreChannel>(p)
    } else if p.command == Volume::GET_COMMAND_ID {
        kind_text::<u8, u8, Volume>(p)
    } else {
        p.described(Seq::empty())
    }
}

/// The line that describes `p` as a notification: that of the kind whose
/// notification identifier `p` carries, and the display form of the packet
/// where no kind has it.
pub open spec fn notification_text(p: PacketView) -> Seq<char> {
    if p.command == BatteryLevel::NOTIFY_ID {
        kind_text::<(), u8, BatteryLevel>(p)
    } else if p.command == FirmwareUpdate::NOTIFY_ID {
        kind_text::<(), String, FirmwareUpdate>(p)
    } else if p.command == PlayControl::NOTIFY_ID {
        kind_text::<PlayControlCommand, PlayControlCommand, PlayControl>(p)
    } else if p.command == PlayInfo::NOTIFY_ID {
        kind_text::<PlayInfoData, PlayInfoData, PlayInfo>(p)
    } else if p.command == Power::NOTIFY_ID {
        kind_text::<PowerState, (), Power>(p)
    } else if p.command == PowerMode::NOTIFY_ID {
        kind_text::<(), String, PowerMode>(p)
    } else if p.command == Volume::NOTIFY_ID {
        kind_text::<u8, u8, Volume>(p)
    } else {
        p.described(Seq::empty())
    }
}

/// Describes a reply in one line, for a log.
pub fn format_reply(p: &Packet) -> (s: String)
    ensures
        s@ == reply_text(p@),
{
    if p.command == BatteryLevel::GET_REPLY_COMMAND_ID {
        BatteryLevel::format_reply(p)
    } else if p.command == Capabilities::GET_COMMAND_ID {
        Capabilities::format_reply(p)
    } else if p.command == DeviceName::GET_COMMAND_ID {
        DeviceName::format_reply(p)
    } else if p.command == FirmwareUpdate::GET_COMMAND_ID {
        FirmwareUpdate::format_reply(p)
    } else if p.command == PlayControl::GET_COMMAND_ID {
        PlayControl::format_reply(p)
    } else if p.command == PlayInfo::GET_COMMAND_ID {
        PlayInfo::format_reply(p)
    } else if p.command == PreChannel::GET_COMMAND_ID {
        PreChannel::format_reply(p)
    } else if p.command == Volume::GET_COMMAND_ID {
        Volume::format_reply(p)
    } else {
        let mut out = String::new();
        p.describe(&mut out);
        out
    }
}

/// Describes a notification in one line, for a log.
pub fn format_notification(p: &Packet) -> (s: String)
    ensures
        s@ == notification_text(p@),
{
    if p.command == BatteryLevel::NOTIFY_ID {
        BatteryLevel::format_notification(p)
    } else if p.command == FirmwareUpdate::NOTIFY_ID {
        FirmwareUpdate::format_notification(p)
    } else if p.command == PlayControl::NOTIFY_ID {
        PlayControl::format_notification(p)
    } else if p.command == PlayInfo::NOTIFY_ID {
        PlayInfo::format_notification(p)
    } else if p.command == Power::NOTIFY_ID {
        Power::format_notification(p)
    } else if p.command == PowerMode::NOTIFY_ID {
        PowerMode::format_notification(p)
    } else if p.command == Volume::NOTIFY_ID {
        Volume::format_notification(p)
    } else {
        let mut out = String::new();
        p.describe(&mut out);
        out
    }
}

/// A volume from 0 to 100 is encoded, and decoding the payload gives it
/// back.
pub proof fn lemma_volume_round_trip(volume: u8)
    requires
        volume <= 100,
    ensures
        Volume::marshalled(volume) is Ok,
        Volume::unmarshalled(Volume::marshalled(volume)->Ok_0) == Ok::<u8, DecodeError>(volume),
{
    lemma_decimal_round_trip(volume as nat);
}

/// A volume above 100 is not encoded.
pub proof fn lemma_volume_out_of_range(volume: u8)
    requires
        volume > 100,
    ensures
        Volume::marshalled(volume) == Err::<Seq<u8>, EncodeError>(EncodeError::OutOfRange),
{
}

/// The decimal writing of a battery level from 0 to 100 decodes to it.
pub proof fn lemma_battery_level_round_trip(level: u8)
    requires
        level <= 100,
    ensures
        BatteryLevel::unmarshalled(decimal_digits(level as nat)) == Ok::<u8, DecodeError>(level),
{
    lemma_decimal_round_trip(level as nat);
}

/// Every name is encoded, and decoding the payload gives it back.
pub proof fn lemma_device_name_round_trip(name: Seq<char>)
    ensures
        DeviceName::marshalled(name) is Ok,
        DeviceName::unmarshalled(DeviceName::marshalled(name)->Ok_0) == Ok::<
            Seq<char>,
            DecodeError,
        >(name),
{
    lemma_lossy_text_of_encoding(name);
}

/// The UTF-8 bytes of a text decode to it as a power mode and as the state
/// of a firmware update.
pub proof fn lemma_text_round_trip(text: Seq<char>)
    ensures
        PowerMode::unmarshalled(encode_utf8(text)) == Ok::<Seq<char>, DecodeError>(text),
        FirmwareUpdate::unmarshalled(encode_utf8(text)) == Ok::<Seq<char>, DecodeError>(text),
{
    lemma_lossy_text_of_encoding(text);
}

/// The digit of each playback command decodes to it.
pub proof fn lemma_play_control_round_trip(command: PlayControlCommand)
    ensures
        PlayControl::unmarshalled(seq![command.digit()]) == Ok::<PlayControlCommand, DecodeError>(
            command,
        ),
{
}

/// The digit of each charging state decodes to it.
pub proof fn lemma_charging_state_round_trip(state: ChargingStateData)
    ensures
        ChargingState::unmarshalled(seq![state.digit()]) == Ok::<ChargingStateData, DecodeError>(
            state,
        ),
{
}

/// The identifiers of every kind, as they are on the wire.
pub proof fn lemma_catalog()
    ensures
        PowerMode::GET_COMMAND_ID == 14,
        PowerMode::GET_REPLY_COMMAND_ID == 14,
        PowerMode::SET_COMMAND_ID == 0,
        PowerMode::NOTIFY_ID == 14,
        Power::GET_COMMAND_ID == 15,
        Power::GET_REPLY_COMMAND_ID == 15,
        Power::SET_COMMAND_ID == 15,
        Power::NOTIFY_ID == 15,
        PlayControl::GET_COMMAND_ID == 51,
        PlayControl::GET_REPLY_COMMAND_ID == 51,
        PlayControl::SET_COMMAND_ID == 40,
        PlayControl::NOTIFY_ID == 51,
        Volume::GET_COMMAND_ID == 64,
        Volume::GET_REPLY_COMMAND_ID == 64,
        Volume::SET_COMMAND_ID == 64,
        Volume::NOTIFY_ID == 64,
        FirmwareUpdate::GET_COMMAND_ID == 65,
        FirmwareUpdate::GET_REPLY_COMMAND_ID == 65,
        FirmwareUpdate::SET_COMMAND_ID == 65,
        FirmwareUpdate::NOTIFY_ID == 65,
        DeviceName::GET_COMMAND_ID == 90,
        DeviceName::GET_REPLY_COMMAND_ID == 90,
        DeviceName::SET_COMMAND_ID == 90,
        DeviceName::NOTIFY_ID == 0,
        BatteryLevel::GET_COMMAND_ID == 256,
        BatteryLevel::GET_REPLY_COMMAND_ID == 257,
        BatteryLevel::SET_COMMAND_ID == 0,
        BatteryLevel::NOTIFY_ID == 258,
        PreChannel::GET_COMMAND_ID == 275,
        PreChannel::GET_REPLY_COMMAND_ID == 275,
        PreChannel::SET_COMMAND_ID == 276,
        PreChannel::NOTIFY_ID == 0,
        PlayInfo::GET_COMMAND_ID == 278,
        PlayInfo::GET_REPLY_COMMAND_ID == 278,
        PlayInfo::SET_COMMAND_ID == 277,
        PlayInfo::NOTIFY_ID == 278,
        Capabilities::GET_COMMAND_ID == 281,
        Capabilities::GET_REPLY_COMMAND_ID == 281,
        Capabilities::SET_COMMAND_ID == 0,
        Capabilities::NOTIFY_ID == 0,
        ChargingState::GET_COMMAND_ID == 1284,
        ChargingState::GET_REPLY_COMMAND_ID == 1284,
        ChargingState::SET_COMMAND_ID == 0,
        ChargingState::NOTIFY_ID == 1284,
{
}

/// Identifier of the greeting with which a controller tells a device where
/// to send its notifications.
pub const HELLO_COMMAND_ID: u16 = 3;

/// ASCII code of `,`.
pub const COMMA: u8 = 0x2c;

/// The greeting of a controller at the address `our_addr`: a set request
/// that carries the address and the notification port with a comma between
/// them.
pub open spec fn hello_packet(our_addr: IpAddress) -> PacketView {
    PacketView {
        command_type: COMMAND_TYPE_SET,
        command: HELLO_COMMAND_ID,
        command_data: Some(
            our_addr.text() + seq![COMMA] + decimal_digits(NOTIF_RECV_PORT as nat),
        ),
    }
}

/// Builds the greeting of a controller at the address `our_addr`.
pub fn hello(our_addr: &IpAddress) -> (p: Packet)
    ensures
        p@ == hello_packet(*our_addr),
{
    let mut data = our_addr.to_bytes();
    data.push(COMMA);
    let port = render_decimal(NOTIF_RECV_PORT as u32);
    append_bytes(&mut data, port.as_slice());
    assert(data@ =~= our_addr.text() + seq![COMMA] + decimal_digits(NOTIF_RECV_PORT as nat));
    Packet { command_type: COMMAND_TYPE_SET, command: HELLO_COMMAND_ID, command_data: Some(data) }
}

/// The names of every kind, as they are displayed.
pub proof fn lemma_names()
    ensures
        PowerMode::NAME@ == "Power mode"@,
        Power::NAME@ == "Power"@,
        PlayControl::NAME@ == "Play control"@,
        Volume::NAME@ == "Volume"@,
        FirmwareUpdate::NAME@ == "FM Update"@,
        DeviceName::NAME@ == "Name"@,
        BatteryLevel::NAME@ == "Battery level"@,
        PreChannel::NAME@ == "PreChannel"@,
        PlayInfo::NAME@ == "Play info"@,
        Capabilities::NAME@ == "Capabilities"@,
        ChargingState::NAME@ == "Charging state"@,
{
}

} // verus!
