//! A device that is not there: what a speaker would answer, for trying the
//! controller without one.

use vstd::prelude::*;
use vstd::utf8::*;
use crate::address::IpAddress;
use crate::commands::{lemma_catalog, Command, DeviceName, PlayControl, Volume};
use crate::discovery_reply::{DiscoveryReply, DiscoveryReplyView};
use crate::protocol::{
    Packet, PacketView, CMD_RESP_PORT, COMMAND_TYPE_FETCH, COMMAND_TYPE_SET, NOTIF_RECV_PORT,
};
use crate::text::{bytes_of_str, copy_bytes, lossy_text, str_eq, text_of_bytes};

verus! {

/// The address at which the fake device pretends to be.
pub open spec fn fake_address() -> IpAddress {
    IpAddress::V4(192, 168, 10, 10)
}

/// The address at which the fake device pretends to be.
pub fn fake_device_addr() -> (addr: IpAddress)
    ensures
        addr == fake_address(),
{
    IpAddress::V4(192, 168, 10, 10)
}

/// The port that the fake device announces.
pub const FAKE_DEVICE_PORT: u16 = 7777;

/// What the fake device sends back: a packet, and the port of the
/// controller that it goes to.
#[derive(Debug, PartialEq, Eq)]
pub struct FakeReply {
    pub port: u16,
    pub packet: Packet,
}

/// The mathematical content of a [`FakeReply`].
pub ghost struct FakeReplyView {
    pub port: u16,
    pub packet: PacketView,
}

impl View for FakeReply {
    type V = FakeReplyView;

    open spec fn view(&self) -> FakeReplyView {
        FakeReplyView { port: self.port, packet: self.packet@ }
    }
}

/// A device that remembers whether it is playing.
#[derive(Debug, PartialEq, Eq)]
pub struct FakeDevice {
    pub playing: bool,
}

/// Whether the fake device plays after a playback command with the payload
/// `verb`: `PLAY` starts it, `PAUSE` and `STOP` stop it, `TOGGL` turns it
/// around, and anything else leaves it as it was.
pub open spec fn plays_after(playing: bool, verb: Seq<u8>) -> bool {
    let word = lossy_text(verb);
    if word == "PLAY"@ {
        true
    } else if word == "PAUSE"@ || word == "STOP"@ {
        false
    } else if word == "TOGGL"@ {
        !playing
    } else {
        playing
    }
}

/// Whether the fake device plays once it has seen the packet `p`: only a
/// playback command changes that.
pub open spec fn plays_next(playing: bool, p: PacketView) -> bool {
    if p.command_type == COMMAND_TYPE_SET && p.command == PlayControl::SET_COMMAND_ID {
        plays_after(playing, p.data_bytes())
    } else {
        playing
    }
}

/// The digit that tells whether the device plays: `0` where it does, `1`
/// where it does not.
pub open spec fn playing_digit(playing: bool) -> u8 {
    if playing {
        48
    } else {
        49
    }
}

/// What the fake device sends back for the packet `p`.
///
/// It answers a fetch of the name with `Pretty name` and a fetch of the
/// volume with `35`. It notifies of a volume that is set with the payload
/// that was sent, and of a playback command with the digit that tells
/// whether it plays now. It answers nothing else.
pub open spec fn fake_reply(playing: bool, p: PacketView) -> Option<FakeReplyView> {
    if p.command_type == COMMAND_TYPE_FETCH && p.command == DeviceName::GET_COMMAND_ID {
        Some(
            FakeReplyView {
                port: CMD_RESP_PORT,
                packet: PacketView {
                    command_type: COMMAND_TYPE_SET,
                    command: DeviceName::SET_COMMAND_ID,
                    command_data: Some(encode_utf8("Pretty name"@)),
                },
            },
        )
    } else if p.command_type == COMMAND_TYPE_FETCH && p.command == Volume::GET_COMMAND_ID {
        Some(
            FakeReplyView {
                port: CMD_RESP_PORT,
                packet: PacketView {
                    command_type: COMMAND_TYPE_SET,
                    command: Volume::SET_COMMAND_ID,
                    command_data: Some(encode_utf8("35"@)),
                },
            },
        )
    } else if p.command_type == COMMAND_TYPE_SET && p.command == Volume::SET_COMMAND_ID {
        Some(
            FakeReplyView {
                port: NOTIF_RECV_PORT,
                packet: PacketView {
                    command_type: COMMAND_TYPE_SET,
                    command: Volume::NOTIFY_ID,
                    command_data: p.command_data,
                },
            },
        )
    } else if p.command_type == COMMAND_TYPE_SET && p.command == PlayControl::SET_COMMAND_ID {
        Some(
            FakeReplyView {
                port: NOTIF_RECV_PORT,
                packet: PacketView {
                    command_type: COMMAND_TYPE_SET,
                    command: PlayControl::NOTIFY_ID,
                    command_data: Some(seq![playing_digit(plays_next(playing, p))]),
                },
            },
        )
    } else {
        None
    }
}

impl FakeDevice {
    /// A fake device that does not play.
    pub fn new() -> (device: FakeDevice)
        ensures
            !device.playing,
    {
        FakeDevice { playing: false }
    }

    /// Takes a packet that was sent to the device, and returns what the
    /// device sends back.
    pub fn respond(&mut self, packet: &Packet) -> (reply: Option<FakeReply>)
        ensures
            final(self).playing == plays_next(old(self).playing, packet@),
            match reply {
                Some(r) => fake_reply(old(self).playing, packet@) == Some(r@),
                None => fake_reply(old(self).playing, packet@) is None,
            },
    {
        proof {
            lemma_catalog();
        }
        if packet.command_type == COMMAND_TYPE_FETCH {
            if packet.command == DeviceName::GET_COMMAND_ID {
                Some(
                    FakeReply {
                        port: CMD_RESP_PORT,
                        packet: Packet {
                            command_type: COMMAND_TYPE_SET,
                            command: DeviceName::SET_COMMAND_ID,
                            command_data: Some(bytes_of_str("Pretty name")),
                        },
                    },
                )
            } else if packet.command == Volume::GET_COMMAND_ID {
                Some(
                    FakeReply {
                        port: CMD_RESP_PORT,
                        packet: Packet {
                            command_type: COMMAND_TYPE_SET,
                            command: Volume::SET_COMMAND_ID,
                            command_data: Some(bytes_of_str("35")),
                        },
                    },
                )
            } else {
                None
            }
        } else if packet.command_type == COMMAND_TYPE_SET {
            if packet.command == Volume::SET_COMMAND_ID {
                Some(
                    FakeReply {
                        port: NOTIF_RECV_PORT,
                        packet: Packet {
                            command_type: COMMAND_TYPE_SET,
                            command: Volume::NOTIFY_ID,
                            command_data: match &packet.command_data {
                                Some(d) => Some(copy_bytes(d.as_slice())),
                                None => None,
                            },
                        },
                    },
                )
            } else if packet.command == PlayControl::SET_COMMAND_ID {
                let empty: Vec<u8> = Vec::new();
                let payload: &[u8] = match &packet.command_data {
                    Some(d) => d.as_slice(),
                    None => empty.as_slice(),
                };
                assert(payload@ == packet@.data_bytes());
                let verb = text_of_bytes(payload);
                if str_eq(verb.as_str(), "PLAY") {
                    self.playing = true;
                } else if str_eq(verb.as_str(), "PAUSE") || str_eq(verb.as_str(), "STOP") {
                    self.playing = false;
                } else if str_eq(verb.as_str(), "TOGGL") {
                    self.playing = !self.playing;
                }
                let digit: u8 = if self.playing {
                    48
                } else {
                    49
                };
                let mut data: Vec<u8> = Vec::new();
                data.push(digit);
                assert(data@ =~= seq![playing_digit(self.playing)]);
                Some(
                    FakeReply {
                        port: NOTIF_RECV_PORT,
                        packet: Packet {
                            command_type: COMMAND_TYPE_SET,
                            command: PlayControl::NOTIFY_ID,
                            command_data: Some(data),
                        },
                    },
                )
            } else {
                None
            }
        } else {
            None
        }
    }
}

/// What the fake device announces of itself.
pub open spec fn fake_announcement() -> DiscoveryReplyView {
    DiscoveryReplyView {
        device_name: "Test device"@,
        device_id: "test-device"@,
        device_state: Seq::empty(),
        port: FAKE_DEVICE_PORT,
        zone_id: Seq::empty(),
        creator: Seq::empty(),
        ip_address: fake_address(),
        color_code: Seq::empty(),
        firmware_version: Seq::empty(),
        stereo_pair_id: Seq::empty(),
    }
}

/// The announcement of the fake device.
pub fn fake_discovery_reply() -> (reply: DiscoveryReply)
    ensures
        reply@ == fake_announcement(),
{
    DiscoveryReply {
        device_name: "Test device".to_owned(),
        device_id: "test-device".to_owned(),
        device_state: String::new(),
        port: FAKE_DEVICE_PORT,
        zone_id: String::new(),
        creator: String::new(),
        ip_address: fake_device_addr(),
        color_code: String::new(),
        firmware_version: String::new(),
        stereo_pair_id: String::new(),
    }
}

} // verus!
