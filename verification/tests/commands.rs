use libratone_rs::address::IpAddress;
use libratone_rs::channel::{ChannelObject, ChannelType};
use libratone_rs::commands::{
    format_notification, format_reply, hello, BatteryLevel, Capabilities, ChargingState,
    ChargingStateData, Command, CommandType, DecodeError, DeviceName, EncodeError, FirmwareUpdate,
    PlayControl, PlayControlCommand, PlayInfo, Power, PowerMode, PowerState, PreChannel, Volume,
};
use libratone_rs::media::{Capability, PlayInfoData};
use libratone_rs::protocol::Packet;

#[test]
fn catalog_identifiers() {
    let ids = |get: u16, reply: u16, set: u16, notify: u16| (get, reply, set, notify);
    assert_eq!(
        ids(
            PowerMode::GET_COMMAND_ID,
            PowerMode::GET_REPLY_COMMAND_ID,
            PowerMode::SET_COMMAND_ID,
            PowerMode::NOTIFY_ID
        ),
        (14, 14, 0, 14)
    );
    assert_eq!(
        ids(
            Power::GET_COMMAND_ID,
            Power::GET_REPLY_COMMAND_ID,
            Power::SET_COMMAND_ID,
            Power::NOTIFY_ID
        ),
        (15, 15, 15, 15)
    );
    assert_eq!(
        ids(
            PlayControl::GET_COMMAND_ID,
            PlayControl::GET_REPLY_COMMAND_ID,
            PlayControl::SET_COMMAND_ID,
            PlayControl::NOTIFY_ID
        ),
        (51, 51, 40, 51)
    );
    assert_eq!(
        ids(
            Volume::GET_COMMAND_ID,
            Volume::GET_REPLY_COMMAND_ID,
            Volume::SET_COMMAND_ID,
            Volume::NOTIFY_ID
        ),
        (64, 64, 64, 64)
    );
    assert_eq!(
        ids(
            FirmwareUpdate::GET_COMMAND_ID,
            FirmwareUpdate::GET_REPLY_COMMAND_ID,
            FirmwareUpdate::SET_COMMAND_ID,
            FirmwareUpdate::NOTIFY_ID
        ),
        (65, 65, 65, 65)
    );
    assert_eq!(
        ids(
            DeviceName::GET_COMMAND_ID,
            DeviceName::GET_REPLY_COMMAND_ID,
            DeviceName::SET_COMMAND_ID,
            DeviceName::NOTIFY_ID
        ),
        (90, 90, 90, 0)
    );
    assert_eq!(
        ids(
            BatteryLevel::GET_COMMAND_ID,
            BatteryLevel::GET_REPLY_COMMAND_ID,
            BatteryLevel::SET_COMMAND_ID,
            BatteryLevel::NOTIFY_ID
        ),
        (256, 257, 0, 258)
    );
    assert_eq!(
        ids(
            PreChannel::GET_COMMAND_ID,
            PreChannel::GET_REPLY_COMMAND_ID,
            PreChannel::SET_COMMAND_ID,
            PreChannel::NOTIFY_ID
        ),
        (275, 275, 276, 0)
    );
    assert_eq!(
        ids(
            PlayInfo::GET_COMMAND_ID,
            PlayInfo::GET_REPLY_COMMAND_ID,
            PlayInfo::SET_COMMAND_ID,
            PlayInfo::NOTIFY_ID
        ),
        (278, 278, 277, 278)
    );
    assert_eq!(
        ids(
            Capabilities::GET_COMMAND_ID,
            Capabilities::GET_REPLY_COMMAND_ID,
            Capabilities::SET_COMMAND_ID,
            Capabilities::NOTIFY_ID
        ),
        (281, 281, 0, 0)
    );
    assert_eq!(
        ids(
            ChargingState::GET_COMMAND_ID,
            ChargingState::GET_REPLY_COMMAND_ID,
            ChargingState::SET_COMMAND_ID,
            ChargingState::NOTIFY_ID
        ),
        (1284, 1284, 0, 1284)
    );
}

#[test]
fn volume_round_trip() {
    assert_eq!(Volume::marshal_data(35), Ok(b"35".to_vec()));
    assert_eq!(Volume::unmarshal_data(b"35"), Ok(35));
    assert_eq!(Volume::marshal_data(101), Err(EncodeError::OutOfRange));
}

#[test]
fn volume_round_trip_of_every_value() {
    for v in 0..=100u8 {
        let bytes = Volume::marshal_data(v).unwrap();
        assert_eq!(bytes, v.to_string().into_bytes());
        assert_eq!(Volume::unmarshal_data(&bytes), Ok(v));
    }
}

#[test]
fn volume_encode_rejects_what_is_above_100() {
    for v in 101..=255u8 {
        assert_eq!(Volume::marshal_data(v), Err(EncodeError::OutOfRange));
        assert_eq!(Volume::set(v), Err(EncodeError::OutOfRange));
    }
}

#[test]
fn volume_decode_edge_cases() {
    assert_eq!(Volume::unmarshal_data(b"0"), Ok(0));
    assert_eq!(Volume::unmarshal_data(b"100"), Ok(100));
    assert_eq!(Volume::unmarshal_data(b"+7"), Ok(7));
    assert_eq!(Volume::unmarshal_data(b"007"), Ok(7));
    assert_eq!(Volume::unmarshal_data(b"101"), Err(DecodeError::InvalidNumber));
    assert_eq!(Volume::unmarshal_data(b"256"), Err(DecodeError::InvalidNumber));
    assert_eq!(Volume::unmarshal_data(b"99999999999999999999"), Err(DecodeError::InvalidNumber));
    assert_eq!(Volume::unmarshal_data(b""), Err(DecodeError::InvalidNumber));
    assert_eq!(Volume::unmarshal_data(b"+"), Err(DecodeError::InvalidNumber));
    assert_eq!(Volume::unmarshal_data(b"-1"), Err(DecodeError::InvalidNumber));
    assert_eq!(Volume::unmarshal_data(b"3 5"), Err(DecodeError::InvalidNumber));
    assert_eq!(Volume::unmarshal_data(b"loud"), Err(DecodeError::InvalidNumber));
    assert_eq!(Volume::unmarshal_data(&[0x33, 0xff]), Err(DecodeError::InvalidNumber));
}

#[test]
fn battery_level_decode() {
    assert_eq!(BatteryLevel::unmarshal_data(b"80"), Ok(80));
    assert_eq!(BatteryLevel::unmarshal_data(b"100"), Ok(100));
    assert_eq!(BatteryLevel::unmarshal_data(b"101"), Err(DecodeError::InvalidNumber));
    assert_eq!(BatteryLevel::unmarshal_data(b"x"), Err(DecodeError::InvalidNumber));
    assert_eq!(BatteryLevel::marshal_data(()), Ok(vec![]));
}

#[test]
fn play_control_digit_decode() {
    assert_eq!(PlayControl::unmarshal_data(b"0"), Ok(PlayControlCommand::Play));
    assert_eq!(PlayControl::unmarshal_data(b"3"), Ok(PlayControlCommand::Next));
    assert_eq!(PlayControl::unmarshal_data(b"5"), Ok(PlayControlCommand::Toggle));
    assert_eq!(PlayControl::unmarshal_data(b"7"), Ok(PlayControlCommand::Unmute));
    assert_eq!(PlayControl::unmarshal_data(b"8"), Err(DecodeError::InvalidCode(b'8')));
}

const PLAY_CONTROLS: [PlayControlCommand; 8] = [
    PlayControlCommand::Play,
    PlayControlCommand::Stop,
    PlayControlCommand::Pause,
    PlayControlCommand::Next,
    PlayControlCommand::Previous,
    PlayControlCommand::Toggle,
    PlayControlCommand::Mute,
    PlayControlCommand::Unmute,
];

#[test]
fn play_control_digits_round_trip() {
    for (i, c) in PLAY_CONTROLS.iter().enumerate() {
        assert_eq!(c.to_digit(), b'0' + i as u8);
        assert_eq!(PlayControl::unmarshal_data(&[c.to_digit()]), Ok(*c));
        assert_eq!(PlayControlCommand::from_payload(&[c.to_digit()]), Ok(*c));
    }
}

#[test]
fn play_control_decode_errors() {
    assert_eq!(PlayControl::unmarshal_data(b""), Err(DecodeError::InvalidLength));
    assert_eq!(PlayControl::unmarshal_data(b"00"), Err(DecodeError::InvalidLength));
    assert_eq!(PlayControl::unmarshal_data(b"/"), Err(DecodeError::InvalidCode(b'/')));
    assert_eq!(PlayControl::unmarshal_data(b"PLAY"), Err(DecodeError::InvalidLength));
}

#[test]
fn play_control_verbs() {
    let verbs: [&[u8]; 8] =
        [b"PLAY", b"STOP", b"PAUSE", b"NEXT", b"PREV", b"TOGGL", b"MUTE", b"UNMUTE"];
    for (c, verb) in PLAY_CONTROLS.iter().zip(verbs) {
        assert_eq!(PlayControl::marshal_data(*c), Ok(verb.to_vec()));
    }
    assert_eq!(
        PlayControl::set(PlayControlCommand::Toggle),
        Ok(Packet { command_type: 2, command: 40, command_data: Some(b"TOGGL".to_vec()) })
    );
}

#[test]
fn charging_state_digits() {
    let states = [
        ChargingStateData::Discharging,
        ChargingStateData::PluggedInCharging,
        ChargingStateData::PluggedInCharged,
        ChargingStateData::PluggedInNotCharging,
    ];
    for (i, s) in states.iter().enumerate() {
        assert_eq!(s.to_digit(), b'0' + i as u8);
        assert_eq!(ChargingState::unmarshal_data(&[b'0' + i as u8]), Ok(*s));
    }
    assert_eq!(ChargingState::unmarshal_data(b"4"), Err(DecodeError::InvalidCode(b'4')));
    assert_eq!(ChargingState::unmarshal_data(b""), Err(DecodeError::InvalidLength));
    assert_eq!(ChargingState::unmarshal_data(b"12"), Err(DecodeError::InvalidLength));
}

#[test]
fn power_states() {
    assert_eq!(Power::marshal_data(PowerState::Sleep), Ok(b"02".to_vec()));
    assert_eq!(Power::marshal_data(PowerState::WakeUp), Ok(b"00".to_vec()));
    assert_eq!(Power::unmarshal_data(b"anything"), Ok(()));
    assert_eq!(
        Power::set(PowerState::Sleep),
        Ok(Packet { command_type: 2, command: 15, command_data: Some(b"02".to_vec()) })
    );
}

#[test]
fn texts_round_trip() {
    for name in ["", "Kitchen", "Wohnzimmer \u{1f50a}", "\u{e9}t\u{e9}", "a\"b\\c"] {
        let bytes = DeviceName::marshal_data(name.to_string()).unwrap();
        assert_eq!(bytes, name.as_bytes());
        assert_eq!(DeviceName::unmarshal_data(&bytes), Ok(name.to_string()));
        assert_eq!(PowerMode::unmarshal_data(name.as_bytes()), Ok(name.to_string()));
        assert_eq!(FirmwareUpdate::unmarshal_data(name.as_bytes()), Ok(name.to_string()));
    }
}

#[test]
fn texts_that_are_not_utf8_are_read_with_replacement_characters() {
    assert_eq!(DeviceName::unmarshal_data(&[0x41, 0xff, 0x42]), Ok("A\u{fffd}B".to_string()));
    assert_eq!(PowerMode::unmarshal_data(&[0xc3]), Ok("\u{fffd}".to_string()));
}

#[test]
fn fetch_and_set_packets() {
    assert_eq!(Volume::fetch(), Packet { command_type: 1, command: 64, command_data: None });
    assert_eq!(
        BatteryLevel::fetch(),
        Packet { command_type: 1, command: 256, command_data: None }
    );
    assert_eq!(
        Volume::set(35),
        Ok(Packet { command_type: 2, command: 64, command_data: Some(b"35".to_vec()) })
    );
    assert_eq!(
        DeviceName::set("Den".to_string()),
        Ok(Packet { command_type: 2, command: 90, command_data: Some(b"Den".to_vec()) })
    );
    assert_eq!(
        Volume::packet(CommandType::Fetch, Some(7)),
        Ok(Packet { command_type: 1, command: 64, command_data: Some(b"7".to_vec()) })
    );
    assert_eq!(
        PlayControl::packet(CommandType::SetValue, None),
        Ok(Packet { command_type: 2, command: 40, command_data: None })
    );
    assert_eq!(Volume::packet(CommandType::SetValue, Some(200)), Err(EncodeError::OutOfRange));
}

fn info() -> PlayInfoData {
    PlayInfoData {
        is_from_channel: true,
        play_title: Some("Morning \"Show\"".to_string()),
        play_preset_available: Some(-3),
        play_token: Some("t".to_string()),
        ..PlayInfoData::default()
    }
}

#[test]
fn play_info_encode() {
    let bytes = PlayInfo::marshal_data(info()).unwrap();
    assert_eq!(
        String::from_utf8(bytes).unwrap(),
        "{\"is_from_channel\":true,\"play_album\":null,\"play_album_uri\":null,\
\"play_artist\":null,\"play_attribution\":null,\"play_identity\":null,\"play_object\":null,\
\"play_pic\":null,\"play_preset_available\":-3,\"play_subtitle\":null,\
\"play_title\":\"Morning \\\"Show\\\"\",\"play_type\":null,\"play_username\":null,\
\"play_token\":\"t\"}"
    );
}

#[test]
fn play_info_round_trip() {
    let bytes = PlayInfo::marshal_data(info()).unwrap();
    assert_eq!(PlayInfo::unmarshal_data(&bytes), Ok(info()));
    let bytes = PlayInfo::marshal_data(PlayInfoData::default()).unwrap();
    assert_eq!(PlayInfo::unmarshal_data(&bytes), Ok(PlayInfoData::default()));
}

#[test]
fn play_info_decode() {
    let text = br#" { "play_artist": "X", "unknown": [1, 2.5, {"a": null}],
        "is_from_channel": false, "play_preset_available": 2147483647, "play_pic": null } "#;
    assert_eq!(
        PlayInfo::unmarshal_data(text),
        Ok(PlayInfoData {
            play_artist: Some("X".to_string()),
            play_preset_available: Some(i32::MAX),
            ..PlayInfoData::default()
        })
    );
}

#[test]
fn play_info_decode_errors() {
    assert_eq!(PlayInfo::unmarshal_data(b"{"), Err(DecodeError::InvalidJson));
    assert_eq!(PlayInfo::unmarshal_data(b""), Err(DecodeError::InvalidJson));
    assert_eq!(PlayInfo::unmarshal_data(b"{}"), Err(DecodeError::InvalidShape));
    assert_eq!(PlayInfo::unmarshal_data(b"[]"), Err(DecodeError::InvalidShape));
    assert_eq!(
        PlayInfo::unmarshal_data(br#"{"is_from_channel": null}"#),
        Err(DecodeError::InvalidShape)
    );
    assert_eq!(
        PlayInfo::unmarshal_data(br#"{"is_from_channel": true, "play_album": 3}"#),
        Err(DecodeError::InvalidShape)
    );
    assert_eq!(
        PlayInfo::unmarshal_data(
            br#"{"is_from_channel": true, "play_preset_available": 2147483648}"#
        ),
        Err(DecodeError::InvalidShape)
    );
    assert_eq!(
        PlayInfo::unmarshal_data(br#"{"is_from_channel": true, "play_preset_available": 1.5}"#),
        Err(DecodeError::InvalidShape)
    );
}

fn channel() -> ChannelObject {
    ChannelObject {
        is_playing: Some(false),
        channel_id: 4,
        channel_type: ChannelType::VTuner,
        channel_name: "Radio".to_string(),
        channel_identity: Some("id-1".to_string()),
        station_url: None,
        picture_url: None,
        username: None,
        password: None,
        play_token: Some("tok".to_string()),
    }
}

#[test]
fn pre_channel_encode() {
    let bytes = PreChannel::marshal_data(channel()).unwrap();
    assert_eq!(
        String::from_utf8(bytes).unwrap(),
        "{\"is_playing\":false,\"channel_id\":4,\"channel_type\":\"vtuner\",\
\"channel_name\":\"Radio\",\"channel_identity\":\"id-1\",\"station_url\":null,\
\"picture_url\":null,\"username\":null,\"password\":null,\"play_token\":\"tok\"}"
    );
}

#[test]
fn pre_channel_decode() {
    let one = String::from_utf8(PreChannel::marshal_data(channel()).unwrap()).unwrap();
    let text = format!(
        "[{}, {{\"channel_id\": -9000000000, \"channel_type\": \"napster\", \
\"channel_name\": \"N\"}}]",
        one
    );
    assert_eq!(
        PreChannel::unmarshal_data(text.as_bytes()),
        Ok(vec![
            channel(),
            ChannelObject {
                is_playing: None,
                channel_id: -9000000000,
                channel_type: ChannelType::Napster,
                channel_name: "N".to_string(),
                channel_identity: None,
                station_url: None,
                picture_url: None,
                username: None,
                password: None,
                play_token: None,
            }
        ])
    );
    assert_eq!(PreChannel::unmarshal_data(b"[]"), Ok(vec![]));
}

#[test]
fn pre_channel_decode_errors() {
    assert_eq!(PreChannel::unmarshal_data(b"nope"), Err(DecodeError::InvalidJson));
    assert_eq!(PreChannel::unmarshal_data(b"{}"), Err(DecodeError::InvalidShape));
    assert_eq!(PreChannel::unmarshal_data(b"[{}]"), Err(DecodeError::InvalidShape));
    assert_eq!(
        PreChannel::unmarshal_data(
            br#"[{"channel_id": 1, "channel_type": "fm", "channel_name": "N"}]"#
        ),
        Err(DecodeError::InvalidShape)
    );
    assert_eq!(
        PreChannel::unmarshal_data(
            br#"[{"channel_id": 18446744073709551615, "channel_type": "tidal",
                "channel_name": "N"}]"#
        ),
        Err(DecodeError::InvalidShape)
    );
}

#[test]
fn channel_types_by_name() {
    let all = [
        (ChannelType::VTuner, "vtuner"),
        (ChannelType::XMLY, "xmly"),
        (ChannelType::DoubanFM, "doubanfm"),
        (ChannelType::Spotify, "spotify"),
        (ChannelType::Kaishu, "kaishu"),
        (ChannelType::Deezer, "deezer"),
        (ChannelType::Tidal, "tidal"),
        (ChannelType::Napster, "napster"),
    ];
    for (t, name) in all {
        assert_eq!(t.as_str(), name);
        assert_eq!(ChannelType::from_name(name), Some(t));
    }
    assert_eq!(ChannelType::from_name("VTuner"), None);
    assert_eq!(ChannelType::from_name(""), None);
}

#[test]
fn channel_play_info() {
    assert_eq!(
        channel().play_info_data(),
        PlayInfoData {
            play_title: Some("Radio".to_string()),
            play_subtitle: Some("Radio".to_string()),
            play_type: Some("vtuner".to_string()),
            play_identity: Some("id-1".to_string()),
            play_token: Some("tok".to_string()),
            ..PlayInfoData::default()
        }
    );
}

#[test]
fn capabilities_decode() {
    let caps =
        Capabilities::unmarshal_data(br#"{"capabilities": [{"name": "a"}, {"name": "b", "x": 1}]}"#)
            .unwrap();
    assert_eq!(
        caps.capabilities,
        vec![Capability { name: "a".to_string() }, Capability { name: "b".to_string() }]
    );
    assert_eq!(Capabilities::unmarshal_data(b"{}"), Err(DecodeError::InvalidShape));
    assert_eq!(
        Capabilities::unmarshal_data(br#"{"capabilities": [{}]}"#),
        Err(DecodeError::InvalidShape)
    );
    assert_eq!(Capabilities::unmarshal_data(b"x"), Err(DecodeError::InvalidJson));
}

fn packet(command_type: u8, command: u16, data: &[u8]) -> Packet {
    Packet { command_type, command, command_data: Some(data.to_vec()) }
}

#[test]
fn format_reply_routes_by_command() {
    assert_eq!(format_reply(&packet(2, 64, b"35")), "set Volume \"35\"");
    assert_eq!(format_reply(&packet(1, 257, b"80")), "fetch Battery level \"80\"");
    assert_eq!(format_reply(&packet(2, 90, b"Pretty name")), "set Name \"\\\"Pretty name\\\"\"");
    assert_eq!(format_reply(&packet(3, 51, b"5")), "?? Play control \"Toggle\"");
    assert_eq!(format_reply(&packet(2, 65, b"ok")), "set FM Update \"\\\"ok\\\"\"");
    assert_eq!(format_reply(&packet(2, 275, b"[]")), "set PreChannel \"[]\"");
    assert_eq!(
        format_reply(&packet(2, 281, br#"{"capabilities":[{"name":"a"}]}"#)),
        "set Capabilities \"CapabilitiesData { capabilities: [Capability { name: \\\"a\\\" }] }\""
    );
    assert_eq!(
        format_reply(&Packet { command_type: 2, command: 64, command_data: None }),
        "set Volume \"\""
    );
}

#[test]
fn format_reply_shows_decode_errors() {
    assert_eq!(format_reply(&packet(2, 64, b"loud")), "set Volume \"invalid number\"");
    assert_eq!(format_reply(&packet(2, 51, b"9")), "set Play control \"invalid data: 57\"");
    assert_eq!(format_reply(&packet(2, 51, b"")), "set Play control \"invalid data length\"");
    assert_eq!(format_reply(&packet(2, 278, b"{")), "set Play info \"error parsing JSON\"");
    assert_eq!(format_reply(&packet(2, 278, b"{}")), "set Play info \"unexpected JSON\"");
}

#[test]
fn format_reply_dumps_what_it_does_not_know() {
    assert_eq!(
        format_reply(&packet(2, 14, b"0")),
        "Packet { command_type: 2, command: 14, command_data: Some([48]) }"
    );
    assert_eq!(
        format_reply(&packet(2, 256, b"80")),
        "Packet { command_type: 2, command: 256, command_data: Some([56, 48]) }"
    );
    assert_eq!(
        format_reply(&Packet { command_type: 1, command: 1284, command_data: None }),
        "Packet { command_type: 1, command: 1284, command_data: None }"
    );
}

#[test]
fn format_notification_routes_by_command() {
    assert_eq!(format_notification(&packet(2, 64, b"35")), "set Volume \"35\"");
    assert_eq!(format_notification(&packet(2, 258, b"80")), "set Battery level \"80\"");
    assert_eq!(format_notification(&packet(2, 15, b"00")), "set Power \"()\"");
    assert_eq!(format_notification(&packet(2, 14, b"eco")), "set Power mode \"\\\"eco\\\"\"");
    assert_eq!(format_notification(&packet(2, 51, b"0")), "set Play control \"Play\"");
    assert_eq!(
        format_notification(&packet(2, 257, b"80")),
        "Packet { command_type: 2, command: 257, command_data: Some([56, 48]) }"
    );
    assert_eq!(
        format_notification(&packet(2, 90, b"n")),
        "Packet { command_type: 2, command: 90, command_data: Some([110]) }"
    );
}

#[test]
fn format_shows_structured_values() {
    let text = br#"{"is_from_channel": true, "play_title": "T", "play_preset_available": 2}"#;
    assert_eq!(
        PlayInfo::format(&packet(2, 278, text)),
        "set Play info \"PlayInfoData { is_from_channel: true, play_album: None, \
play_album_uri: None, play_artist: None, play_attribution: None, play_identity: None, \
play_object: None, play_pic: None, play_preset_available: Some(2), play_subtitle: None, \
play_title: Some(\\\"T\\\"), play_type: None, play_username: None, play_token: None }\""
    );
    let text = br#"[{"channel_id": 1, "channel_type": "tidal", "channel_name": "A"},
        {"channel_id": 2, "channel_type": "xmly", "channel_name": "B", "is_playing": true}]"#;
    assert_eq!(
        PreChannel::format(&packet(1, 275, text)),
        "fetch PreChannel \"[ChannelObject { is_playing: None, channel_id: 1, \
channel_type: Tidal, channel_name: \\\"A\\\", channel_identity: None, station_url: None, \
picture_url: None, username: None, password: None, play_token: None }, \
ChannelObject { is_playing: Some(true), channel_id: 2, channel_type: XMLY, \
channel_name: \\\"B\\\", channel_identity: None, station_url: None, picture_url: None, \
username: None, password: None, play_token: None }]\""
    );
}

#[test]
fn decode_error_messages() {
    assert_eq!(DecodeError::InvalidNumber.message(), "invalid number");
    assert_eq!(DecodeError::InvalidCode(200).message(), "invalid data: 200");
    assert_eq!(DecodeError::InvalidLength.message(), "invalid data length");
    assert_eq!(DecodeError::InvalidJson.message(), "error parsing JSON");
    assert_eq!(DecodeError::InvalidShape.message(), "unexpected JSON");
}

#[test]
fn hello_carries_the_address_and_the_notification_port() {
    assert_eq!(
        hello(&IpAddress::V4(192, 168, 1, 5)),
        Packet { command_type: 2, command: 3, command_data: Some(b"192.168.1.5,3333".to_vec()) }
    );
    assert_eq!(
        hello(&IpAddress::V6(0xfe80, 0, 0, 0, 0, 0, 0, 0x1)),
        Packet { command_type: 2, command: 3, command_data: Some(b"fe80::1,3333".to_vec()) }
    );
}
