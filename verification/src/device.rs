//! The devices that the controller knows, and what an incoming packet does
//! to them.

use vstd::prelude::*;
use crate::address::IpAddress;
use crate::channel::{ChannelObject, ChannelObjectView};
use crate::commands::{
    BatteryLevel, ChargingState, ChargingStateData, Command, DecodeError, DeviceName, PlayControl,
    PlayControlCommand, PlayInfo, PreChannel, Volume,
};
use crate::media::{copy_optional_text, PlayInfoData, PlayInfoDataView};
use crate::protocol::{Packet, PacketView};
use crate::text::str_eq;

verus! {

/// What the controller knows of one device.
#[derive(Debug, PartialEq, Eq)]
pub struct Device {
    id: String,
    addr: IpAddress,
    name: Option<String>,
    volume: Option<u8>,
    play_status: Option<PlayControlCommand>,
    play_info: Option<PlayInfoData>,
    pre_channels: Option<Vec<ChannelObject>>,
    charging_state: Option<ChargingStateData>,
    battery_level: Option<u8>,
}

/// The mathematical content of a [`Device`].
pub ghost struct DeviceView {
    pub id: Seq<char>,
    pub addr: IpAddress,
    pub name: Option<Seq<char>>,
    pub volume: Option<u8>,
    pub play_status: Option<PlayControlCommand>,
    pub play_info: Option<PlayInfoDataView>,
    pub pre_channels: Option<Seq<ChannelObjectView>>,
    pub charging_state: Option<ChargingStateData>,
    pub battery_level: Option<u8>,
}

impl DeviceView {
    /// A device of which only the identifier and the address are known.
    pub open spec fn fresh(id: Seq<char>, addr: IpAddress) -> DeviceView {
        DeviceView {
            id,
            addr,
            name: None,
            volume: None,
            play_status: None,
            play_info: None,
            pre_channels: None,
            charging_state: None,
            battery_level: None,
        }
    }

    /// Of a fresh device neither the volume nor the battery level is known.
    pub proof fn lemma_fresh_in_range(id: Seq<char>, addr: IpAddress)
        ensures
            Self::fresh(id, addr).in_range(),
    {
    }

    /// The volume and the battery level, where known, are at most 100.
    pub open spec fn in_range(self) -> bool {
        &&& self.volume matches Some(v) ==> v <= 100
        &&& self.battery_level matches Some(b) ==> b <= 100
    }
}

impl View for Device {
    type V = DeviceView;

    closed spec fn view(&self) -> DeviceView {
        DeviceView {
            id: self.id@,
            addr: self.addr,
            name: self.name.deep_view(),
            volume: self.volume,
            play_status: self.play_status,
            play_info: self.play_info.deep_view(),
            pre_channels: self.pre_channels.deep_view(),
            charging_state: self.charging_state,
            battery_level: self.battery_level,
        }
    }
}

impl DeepView for Device {
    type V = DeviceView;

    open spec fn deep_view(&self) -> DeviceView {
        self@
    }
}

/// A copy of a list of presets.
pub fn copy_channels(list: &Vec<ChannelObject>) -> (out: Vec<ChannelObject>)
    ensures
        out.deep_view() == list.deep_view(),
{
    let mut out: Vec<ChannelObject> = Vec::new();
    let mut i: usize = 0;
    while i < list.len()
        invariant
            i <= list.len(),
            out@.len() == i,
            forall|k: int| 0 <= k < i ==> #[trigger] out@[k]@ == list@[k]@,
        decreases list.len() - i,
    {
        out.push(list[i].clone());
        i += 1;
    }
    assert(out.deep_view() =~= list.deep_view());
    out
}

impl Clone for Device {
    fn clone(&self) -> (d: Device)
        ensures
            d@ == self@,
    {
        Device {
            id: self.id.clone(),
            addr: self.addr,
            name: copy_optional_text(&self.name),
            volume: self.volume,
            play_status: self.play_status,
            play_info: match &self.play_info {
                Some(p) => Some(p.clone()),
                None => None,
            },
            pre_channels: match &self.pre_channels {
                Some(c) => Some(copy_channels(c)),
                None => None,
            },
            charging_state: self.charging_state,
            battery_level: self.battery_level,
        }
    }
}

impl Device {
    /// A device of which only the identifier and the address are known.
    pub fn new(id: String, addr: IpAddress) -> (d: Device)
        ensures
            d@ == DeviceView::fresh(id@, addr),
    {
        Device {
            id,
            addr,
            name: None,
            volume: None,
            play_status: None,
            play_info: None,
            pre_channels: None,
            charging_state: None,
            battery_level: None,
        }
    }

    /// The identifier.
    pub fn id(&self) -> (r: String)
        ensures
            r@ == self@.id,
    {
        self.id.clone()
    }

    /// Whether the identifier is `id`.
    pub fn has_id(&self, id: &str) -> (r: bool)
        ensures
            r == (self@.id == id@),
    {
        str_eq(self.id.as_str(), id)
    }

    /// The address.
    pub fn addr(&self) -> (r: IpAddress)
        ensures
            r == self@.addr,
    {
        self.addr
    }

    /// The name that the user gave the device.
    pub fn name(&self) -> (r: Option<String>)
        ensures
            r.deep_view() == self@.name,
    {
        copy_optional_text(&self.name)
    }

    /// The volume.
    pub fn volume(&self) -> (r: Option<u8>)
        ensures
            r == self@.volume,
    {
        self.volume
    }

    /// What the playback is doing.
    pub fn play_status(&self) -> (r: Option<PlayControlCommand>)
        ensures
            r == self@.play_status,
    {
        self.play_status
    }

    /// What is playing.
    pub fn play_info(&self) -> (r: Option<PlayInfoData>)
        ensures
            r.deep_view() == self@.play_info,
    {
        match &self.play_info {
            Some(p) => Some(p.clone()),
            None => None,
        }
    }

    /// The presets.
    pub fn pre_channels(&self) -> (r: Option<Vec<ChannelObject>>)
        ensures
            r.deep_view() == self@.pre_channels,
    {
        match &self.pre_channels {
            Some(c) => Some(copy_channels(c)),
            None => None,
        }
    }

    /// The state of the charger.
    pub fn charging_state(&self) -> (r: Option<ChargingStateData>)
        ensures
            r == self@.charging_state,
    {
        self.charging_state
    }

    /// The charge of the battery.
    pub fn battery_level(&self) -> (r: Option<u8>)
        ensures
            r == self@.battery_level,
    {
        self.battery_level
    }
}

/// What the controller tells its subscribers.
#[derive(Debug, PartialEq, Eq)]
pub enum DeviceManagerEvent {
    /// A device was seen for the first time; what is known of it.
    DeviceDiscovered(Device),
    /// Something became known of a device; all that is known of it now.
    DeviceUpdated(Device),
}

/// The mathematical content of a [`DeviceManagerEvent`].
pub ghost enum DeviceManagerEventView {
    DeviceDiscovered(DeviceView),
    DeviceUpdated(DeviceView),
}

impl View for DeviceManagerEvent {
    type V = DeviceManagerEventView;

    open spec fn view(&self) -> DeviceManagerEventView {
        match self {
            DeviceManagerEvent::DeviceDiscovered(d) => DeviceManagerEventView::DeviceDiscovered(d@),
            DeviceManagerEvent::DeviceUpdated(d) => DeviceManagerEventView::DeviceUpdated(d@),
        }
    }
}

impl DeepView for DeviceManagerEvent {
    type V = DeviceManagerEventView;

    open spec fn deep_view(&self) -> DeviceManagerEventView {
        self@
    }
}

impl Clone for DeviceManagerEvent {
    fn clone(&self) -> (e: DeviceManagerEvent)
        ensures
            e@ == self@,
    {
        match self {
            DeviceManagerEvent::DeviceDiscovered(d) => DeviceManagerEvent::DeviceDiscovered(
                d.clone(),
            ),
            DeviceManagerEvent::DeviceUpdated(d) => DeviceManagerEvent::DeviceUpdated(d.clone()),
        }
    }
}

/// What a packet makes of a device.
///
/// A reply that carries the name, the volume, the playback status, what is
/// playing or the state of the charger sets that field; so does a reply or a
/// notification that carries the battery level, and a packet with the fetch
/// identifier of the presets. An absent payload is decoded as an empty one.
/// A payload that does not decode is an error. Any other packet changes
/// nothing.
pub open spec fn updated(d: DeviceView, p: PacketView) -> Result<Option<DeviceView>, DecodeError> {
    let data = p.data_bytes();
    if p.command == DeviceName::GET_REPLY_COMMAND_ID {
        match DeviceName::unmarshalled(data) {
            Ok(v) => Ok(Some(DeviceView { name: Some(v), ..d })),
            Err(e) => Err(e),
        }
    } else if p.command == Volume::GET_REPLY_COMMAND_ID {
        match Volume::unmarshalled(data) {
            Ok(v) => Ok(Some(DeviceView { volume: Some(v), ..d })),
            Err(e) => Err(e),
        }
    } else if p.command == PlayControl::GET_REPLY_COMMAND_ID {
        match PlayControl::unmarshalled(data) {
            Ok(v) => Ok(Some(DeviceView { play_status: Some(v), ..d })),
            Err(e) => Err(e),
        }
    } else if p.command == PlayInfo::GET_REPLY_COMMAND_ID {
        match PlayInfo::unmarshalled(data) {
            Ok(v) => Ok(Some(DeviceView { play_info: Some(v), ..d })),
            Err(e) => Err(e),
        }
    } else if p.command == ChargingState::GET_REPLY_COMMAND_ID {
        match ChargingState::unmarshalled(data) {
            Ok(v) => Ok(Some(DeviceView { charging_state: Some(v), ..d })),
            Err(e) => Err(e),
        }
    } else if p.command == BatteryLevel::GET_REPLY_COMMAND_ID || p.command
        == BatteryLevel::NOTIFY_ID {
        match BatteryLevel::unmarshalled(data) {
            Ok(v) => Ok(Some(DeviceView { battery_level: Some(v), ..d })),
            Err(e) => Err(e),
        }
    } else if p.command == PreChannel::GET_COMMAND_ID {
        match PreChannel::unmarshalled(data) {
            Ok(v) => Ok(Some(DeviceView { pre_channels: Some(v), ..d })),
            Err(e) => Err(e),
        }
    } else {
        Ok(None)
    }
}

/// A packet changes neither the identifier nor the address of a device, and
/// leaves the volume and the battery level at most 100.
pub proof fn lemma_updated_keeps(d: DeviceView, p: PacketView)
    requires
        updated(d, p) matches Ok(Some(_)),
    ensures
        updated(d, p)->Ok_0->0.id == d.id,
        updated(d, p)->Ok_0->0.addr == d.addr,
        d.in_range() ==> updated(d, p)->Ok_0->0.in_range(),
{
}

impl Device {
    /// Applies a packet to a device. Where the packet sets a field, the
    /// result is the event that carries the device as it is now.
    pub fn handle_device_update(device: &mut Device, packet: &Packet) -> (r: Result<
        Option<DeviceManagerEvent>,
        DecodeError,
    >)
        ensures
            match updated(old(device)@, packet@) {
                Ok(Some(d)) => {
                    &&& final(device)@ == d
                    &&& r matches Ok(Some(e))
                    &&& r->Ok_0->0@ == DeviceManagerEventView::DeviceUpdated(d)
                },
                Ok(None) => {
                    &&& final(device)@ == old(device)@
                    &&& r matches Ok(None)
                },
                Err(e) => final(device)@ == old(device)@ && r == Err::<
                    Option<DeviceManagerEvent>,
                    DecodeError,
                >(e),
            },
    {
        let empty: Vec<u8> = Vec::new();
        let data: &[u8] = match &packet.command_data {
            Some(d) => d.as_slice(),
            None => empty.as_slice(),
        };
        assert(data@ == packet@.data_bytes());
        if packet.command == DeviceName::GET_REPLY_COMMAND_ID {
            match DeviceName::unmarshal_data(data) {
                Ok(v) => {
                    device.name = Some(v);
                },
                Err(e) => return Err(e),
            }
        } else if packet.command == Volume::GET_REPLY_COMMAND_ID {
            match Volume::unmarshal_data(data) {
                Ok(v) => {
                    device.volume = Some(v);
                },
                Err(e) => return Err(e),
            }
        } else if packet.command == PlayControl::GET_REPLY_COMMAND_ID {
            match PlayControl::unmarshal_data(data) {
                Ok(v) => {
                    device.play_status = Some(v);
                },
                Err(e) => return Err(e),
            }
        } else if packet.command == PlayInfo::GET_REPLY_COMMAND_ID {
            match PlayInfo::unmarshal_data(data) {
                Ok(v) => {
                    device.play_info = Some(v);
                },
                Err(e) => return Err(e),
            }
        } else if packet.command == ChargingState::GET_REPLY_COMMAND_ID {
            match ChargingState::unmarshal_data(data) {
                Ok(v) => {
                    device.charging_state = Some(v);
                },
                Err(e) => return Err(e),
            }
        } else if packet.command == BatteryLevel::GET_REPLY_COMMAND_ID || packet.command
            == BatteryLevel::NOTIFY_ID {
            match BatteryLevel::unmarshal_data(data) {
                Ok(v) => {
                    device.battery_level = Some(v);
                },
                Err(e) => return Err(e),
            }
        } else if packet.command == PreChannel::GET_COMMAND_ID {
            match PreChannel::unmarshal_data(data) {
                Ok(v) => {
                    device.pre_channels = Some(v);
                },
                Err(e) => return Err(e),
            }
        } else {
            return Ok(None);
        }
        Ok(Some(DeviceManagerEvent::DeviceUpdated(device.clone())))
    }
}

} // verus!
