use libratone_rs::address::{Endpoint, IpAddress};
use libratone_rs::channel::ChannelType;
use libratone_rs::commands::{
    BatteryLevel, ChargingStateData, Command, DecodeError, PlayControlCommand, Volume,
};
use libratone_rs::device::{Device, DeviceManagerEvent};
use libratone_rs::discovery_reply::DiscoveryReply;
use libratone_rs::fake::{fake_device_addr, fake_discovery_reply, FakeDevice};
use libratone_rs::manager::{
    after_worker, DeviceManagerData, ManagerError, NotificationError, Outbound, WorkerAction,
};
use libratone_rs::protocol::{Packet, CMD_RESP_PORT, NOTIF_RECV_PORT};

fn announcement(id: &str, ip: IpAddress) -> DiscoveryReply {
    DiscoveryReply {
        device_name: "Speaker".to_string(),
        device_id: id.to_string(),
        device_state: String::new(),
        port: 7777,
        zone_id: String::new(),
        creator: String::new(),
        ip_address: ip,
        color_code: String::new(),
        firmware_version: String::new(),
        stereo_pair_id: String::new(),
    }
}

fn from(ip: IpAddress) -> Endpoint {
    Endpoint { ip, port: 7777 }
}

fn reply(command: u16, data: &[u8]) -> Packet {
    Packet { command_type: 2, command, command_data: Some(data.to_vec()) }
}

const KITCHEN: IpAddress = IpAddress::V4(10, 0, 0, 1);
const DEN: IpAddress = IpAddress::V4(10, 0, 0, 2);

#[test]
fn a_new_manager_is_empty() {
    let data = DeviceManagerData::new();
    assert_eq!(data.device_count(), 0);
    assert_eq!(data.subscriber_count(), 0);
    assert_eq!(data.device("kitchen"), None);
}

#[test]
fn register_device_adds_a_device_once() {
    let mut data = DeviceManagerData::new();
    let published = data.register_device(&announcement("kitchen", KITCHEN));
    assert_eq!(
        published,
        Some(DeviceManagerEvent::DeviceDiscovered(Device::new("kitchen".to_string(), KITCHEN)))
    );
    assert_eq!(data.device_count(), 1);
    assert_eq!(data.device("kitchen"), Some(Device::new("kitchen".to_string(), KITCHEN)));

    assert_eq!(data.register_device(&announcement("kitchen", DEN)), None);
    assert_eq!(data.device_count(), 1);
    assert_eq!(data.device("kitchen").unwrap().addr(), KITCHEN);

    assert!(data.register_device(&announcement("den", DEN)).is_some());
    assert_eq!(data.device_count(), 2);
}

#[test]
fn a_fresh_device_knows_nothing_but_its_identity() {
    let device = Device::new("kitchen".to_string(), KITCHEN);
    assert_eq!(device.id(), "kitchen");
    assert_eq!(device.addr(), KITCHEN);
    assert_eq!(device.name(), None);
    assert_eq!(device.volume(), None);
    assert_eq!(device.play_status(), None);
    assert_eq!(device.play_info(), None);
    assert_eq!(device.pre_channels(), None);
    assert_eq!(device.charging_state(), None);
    assert_eq!(device.battery_level(), None);
    assert_eq!(device.clone(), device);
}

#[test]
fn fetch_info_asks_for_seven_fields() {
    let mut data = DeviceManagerData::new();
    data.register_device(&announcement("kitchen", KITCHEN));
    let plan = data.fetch_info("kitchen").unwrap();
    let to = Endpoint { ip: KITCHEN, port: 7777 };
    let commands: Vec<u16> = vec![90, 64, 51, 278, 1284, 256, 275];
    assert_eq!(plan.len(), 7);
    for (outbound, command) in plan.iter().zip(commands) {
        assert_eq!(
            outbound,
            &Outbound { to, packet: Packet { command_type: 1, command, command_data: None } }
        );
    }
}

#[test]
fn requests_for_an_unknown_device_fail() {
    let mut data = DeviceManagerData::new();
    data.register_device(&announcement("kitchen", KITCHEN));
    assert_eq!(data.fetch_info("den"), Err(ManagerError::UnknownDevice));
    assert_eq!(data.set_volume("den", 3), Err(ManagerError::UnknownDevice));
    assert_eq!(data.send_packet("", &Volume::fetch()), Err(ManagerError::UnknownDevice));
    assert_eq!(data.device("Kitchen"), None);
}

#[test]
fn set_volume_clamps() {
    let mut data = DeviceManagerData::new();
    data.register_device(&announcement("kitchen", KITCHEN));
    let to = Endpoint { ip: KITCHEN, port: 7777 };
    for (volume, text) in [(0u8, "0"), (35, "35"), (100, "100"), (101, "100"), (255, "100")] {
        assert_eq!(
            data.set_volume("kitchen", volume),
            Ok(Outbound { to, packet: reply(64, text.as_bytes()) })
        );
    }
}

#[test]
fn send_packet_goes_to_the_command_port_of_the_device() {
    let mut data = DeviceManagerData::new();
    data.register_device(&announcement("kitchen", KITCHEN));
    data.register_device(&announcement("den", DEN));
    let packet = reply(40, b"PLAY");
    assert_eq!(
        data.send_packet("den", &packet),
        Ok(Outbound { to: Endpoint { ip: DEN, port: 7777 }, packet: packet.clone() })
    );
}

#[test]
fn notification_ack_echoes_the_command_type() {
    let notification = Packet { command_type: 7, command: 64, command_data: Some(b"3".to_vec()) };
    assert_eq!(
        DeviceManagerData::notification_ack(Endpoint { ip: KITCHEN, port: 50000 }, &notification),
        Outbound {
            to: Endpoint { ip: KITCHEN, port: 3334 },
            packet: Packet { command_type: 7, command: 2, command_data: None },
        }
    );
}

fn updated(event: Option<DeviceManagerEvent>) -> Device {
    match event {
        Some(DeviceManagerEvent::DeviceUpdated(device)) => device,
        other => panic!("no update: {:?}", other),
    }
}

#[test]
fn incoming_packets_set_the_fields() {
    let mut data = DeviceManagerData::new();
    data.register_device(&announcement("kitchen", KITCHEN));

    let device =
        updated(data.handle_incoming_packet(from(KITCHEN), &reply(90, b"Kitchen")).unwrap());
    assert_eq!(device.name(), Some("Kitchen".to_string()));
    let device = updated(data.handle_incoming_packet(from(KITCHEN), &reply(64, b"35")).unwrap());
    assert_eq!(device.volume(), Some(35));
    assert_eq!(device.name(), Some("Kitchen".to_string()));
    let device = updated(data.handle_incoming_packet(from(KITCHEN), &reply(51, b"2")).unwrap());
    assert_eq!(device.play_status(), Some(PlayControlCommand::Pause));
    let device = updated(
        data.handle_incoming_packet(
            from(KITCHEN),
            &reply(278, br#"{"is_from_channel": true, "play_title": "T"}"#),
        )
        .unwrap(),
    );
    let info = device.play_info().unwrap();
    assert!(info.is_from_channel);
    assert_eq!(info.play_title, Some("T".to_string()));
    let device = updated(data.handle_incoming_packet(from(KITCHEN), &reply(1284, b"1")).unwrap());
    assert_eq!(device.charging_state(), Some(ChargingStateData::PluggedInCharging));
    let device = updated(data.handle_incoming_packet(from(KITCHEN), &reply(257, b"80")).unwrap());
    assert_eq!(device.battery_level(), Some(80));
    let device = updated(data.handle_incoming_packet(from(KITCHEN), &reply(258, b"79")).unwrap());
    assert_eq!(device.battery_level(), Some(79));
    let device = updated(
        data.handle_incoming_packet(
            from(KITCHEN),
            &reply(275, br#"[{"channel_id": 1, "channel_type": "deezer", "channel_name": "D"}]"#),
        )
        .unwrap(),
    );
    let channels = device.pre_channels().unwrap();
    assert_eq!(channels.len(), 1);
    assert_eq!(channels[0].channel_type, ChannelType::Deezer);

    assert_eq!(data.device("kitchen"), Some(device.clone()));
    assert_eq!(device.id(), "kitchen");
    assert_eq!(device.addr(), KITCHEN);
    assert_eq!(device.volume(), Some(35));
}

#[test]
fn other_packets_change_nothing() {
    let mut data = DeviceManagerData::new();
    data.register_device(&announcement("kitchen", KITCHEN));
    let before = data.device("kitchen");
    for command in [0u16, 2, 3, 14, 15, 40, 65, 256, 276, 277, 281, 65535] {
        assert_eq!(data.handle_incoming_packet(from(KITCHEN), &reply(command, b"1")), Ok(None));
    }
    assert_eq!(data.device("kitchen"), before);
}

#[test]
fn packets_that_do_not_decode_change_nothing() {
    let mut data = DeviceManagerData::new();
    data.register_device(&announcement("kitchen", KITCHEN));
    data.handle_incoming_packet(from(KITCHEN), &reply(64, b"35")).unwrap();
    let before = data.device("kitchen");
    let receiver = data.listen();
    assert_eq!(
        data.handle_incoming_packet(from(KITCHEN), &reply(64, b"loud")),
        Err(DecodeError::InvalidNumber)
    );
    assert_eq!(
        data.handle_incoming_packet(from(KITCHEN), &reply(64, b"101")),
        Err(DecodeError::InvalidNumber)
    );
    assert_eq!(
        data.handle_incoming_packet(from(KITCHEN), &reply(51, b"8")),
        Err(DecodeError::InvalidCode(b'8'))
    );
    assert_eq!(
        data.handle_incoming_packet(from(KITCHEN), &reply(278, b"{")),
        Err(DecodeError::InvalidJson)
    );
    assert_eq!(
        data.handle_incoming_packet(
            from(KITCHEN),
            &Packet { command_type: 2, command: 64, command_data: None }
        ),
        Err(DecodeError::InvalidNumber)
    );
    assert_eq!(data.device("kitchen"), before);
    assert!(receiver.try_recv().is_err());
}

#[test]
fn an_absent_payload_is_an_empty_one() {
    let mut data = DeviceManagerData::new();
    data.register_device(&announcement("kitchen", KITCHEN));
    let device = updated(
        data.handle_incoming_packet(
            from(KITCHEN),
            &Packet { command_type: 2, command: 90, command_data: None },
        )
        .unwrap(),
    );
    assert_eq!(device.name(), Some(String::new()));
}

#[test]
fn packets_are_routed_by_the_address_of_the_sender() {
    let mut data = DeviceManagerData::new();
    data.register_device(&announcement("kitchen", KITCHEN));
    data.register_device(&announcement("den", DEN));
    data.register_device(&announcement("den-twin", DEN));
    let stranger = IpAddress::V4(10, 0, 0, 3);
    assert_eq!(data.handle_incoming_packet(from(stranger), &reply(64, b"35")), Ok(None));
    let device = updated(data.handle_incoming_packet(from(DEN), &reply(64, b"35")).unwrap());
    assert_eq!(device.id(), "den");
    assert_eq!(data.device("kitchen").unwrap().volume(), None);
    assert_eq!(data.device("den").unwrap().volume(), Some(35));
    assert_eq!(data.device("den-twin").unwrap().volume(), None);
}

#[test]
fn subscribers_receive_the_events_in_order() {
    let mut data = DeviceManagerData::new();
    let first = data.listen();
    let second = data.listen();
    assert_eq!(data.subscriber_count(), 2);
    data.register_device(&announcement("kitchen", KITCHEN));
    data.handle_incoming_packet(from(KITCHEN), &reply(64, b"35")).unwrap();
    data.handle_incoming_packet(from(KITCHEN), &reply(90, b"K")).unwrap();
    for receiver in [first, second] {
        match receiver.try_recv().unwrap() {
            DeviceManagerEvent::DeviceDiscovered(d) => assert_eq!(d.id(), "kitchen"),
            other => panic!("unexpected {:?}", other),
        }
        match receiver.try_recv().unwrap() {
            DeviceManagerEvent::DeviceUpdated(d) => {
                assert_eq!(d.volume(), Some(35));
                assert_eq!(d.name(), None);
            }
            other => panic!("unexpected {:?}", other),
        }
        match receiver.try_recv().unwrap() {
            DeviceManagerEvent::DeviceUpdated(d) => {
                assert_eq!(d.volume(), Some(35));
                assert_eq!(d.name(), Some("K".to_string()));
            }
            other => panic!("unexpected {:?}", other),
        }
        assert!(receiver.try_recv().is_err());
    }
}

#[test]
fn dropped_subscribers_are_pruned_by_the_next_publication() {
    let mut data = DeviceManagerData::new();
    let first = data.listen();
    let second = data.listen();
    let third = data.listen();
    assert_eq!(data.subscriber_count(), 3);
    drop(second);
    assert_eq!(data.subscriber_count(), 3);
    let event = DeviceManagerEvent::DeviceDiscovered(Device::new("x".to_string(), KITCHEN));
    assert_eq!(data.send_event(event.clone()), 2);
    assert_eq!(data.subscriber_count(), 2);
    assert_eq!(first.try_recv().unwrap(), event);
    assert_eq!(third.try_recv().unwrap(), event);
    drop(first);
    drop(third);
    data.register_device(&announcement("kitchen", KITCHEN));
    assert_eq!(data.subscriber_count(), 0);
    assert_eq!(data.send_event(event), 0);
}

#[test]
fn end_to_end_with_fakes() {
    let mut data = DeviceManagerData::new();
    let mut fake = FakeDevice::new();
    let events = data.listen();

    data.register_device(&fake_discovery_reply());
    let discovered = match events.try_recv().unwrap() {
        DeviceManagerEvent::DeviceDiscovered(device) => device,
        other => panic!("unexpected {:?}", other),
    };
    assert_eq!(discovered.id(), "test-device");
    assert_eq!(discovered.addr(), IpAddress::V4(192, 168, 10, 10));
    assert_eq!(fake_device_addr(), IpAddress::V4(192, 168, 10, 10));
    assert_eq!(fake_discovery_reply().port, 7777);

    let plan = data.fetch_info(&discovered.id()).unwrap();
    assert_eq!(plan.len(), 7);
    let mut replies = Vec::new();
    for outbound in &plan {
        assert_eq!(outbound.to, Endpoint { ip: IpAddress::V4(192, 168, 10, 10), port: 7777 });
        if let Some(answer) = fake.respond(&outbound.packet) {
            assert_eq!(answer.port, CMD_RESP_PORT);
            replies.push((Endpoint { ip: outbound.to.ip, port: answer.port }, answer.packet));
        }
    }
    assert_eq!(replies.len(), 2);
    for (sender, packet) in &replies {
        data.handle_incoming_packet(*sender, packet).unwrap();
    }

    match events.try_recv().unwrap() {
        DeviceManagerEvent::DeviceUpdated(device) => {
            assert_eq!(device.name(), Some("Pretty name".to_string()));
            assert_eq!(device.volume(), None);
        }
        other => panic!("unexpected {:?}", other),
    }
    match events.try_recv().unwrap() {
        DeviceManagerEvent::DeviceUpdated(device) => {
            assert_eq!(device.name(), Some("Pretty name".to_string()));
            assert_eq!(device.volume(), Some(35));
        }
        other => panic!("unexpected {:?}", other),
    }
    assert!(events.try_recv().is_err());
}

fn play_control(verb: &[u8]) -> Packet {
    Packet { command_type: 2, command: 40, command_data: Some(verb.to_vec()) }
}

fn notified(fake: &mut FakeDevice, verb: &[u8]) -> Vec<u8> {
    let answer = fake.respond(&play_control(verb)).unwrap();
    assert_eq!(answer.port, NOTIF_RECV_PORT);
    assert_eq!(answer.packet.command_type, 2);
    assert_eq!(answer.packet.command, 51);
    answer.packet.command_data.unwrap()
}

#[test]
fn play_control_toggle_notification() {
    let mut fake = FakeDevice::new();
    assert_eq!(notified(&mut fake, b"PLAY"), b"0");
    assert_eq!(notified(&mut fake, b"TOGGL"), b"1");
    assert_eq!(notified(&mut fake, b"TOGGL"), b"0");
}

#[test]
fn fake_playback_verbs() {
    let mut fake = FakeDevice::new();
    assert!(!fake.playing);
    assert_eq!(notified(&mut fake, b"NEXT"), b"1");
    assert_eq!(notified(&mut fake, b"PLAY"), b"0");
    assert_eq!(notified(&mut fake, b"MUTE"), b"0");
    assert_eq!(notified(&mut fake, b"PAUSE"), b"1");
    assert_eq!(notified(&mut fake, b"PLAY"), b"0");
    assert_eq!(notified(&mut fake, b"STOP"), b"1");
    assert_eq!(notified(&mut fake, b"play"), b"1");
    let answer = fake
        .respond(&Packet { command_type: 2, command: 40, command_data: None })
        .unwrap();
    assert_eq!(answer.packet.command_data, Some(b"1".to_vec()));
}

#[test]
fn fake_volume_notification_echoes_the_payload() {
    let mut fake = FakeDevice::new();
    let answer = fake.respond(&Volume::set(42).unwrap()).unwrap();
    assert_eq!(answer.port, NOTIF_RECV_PORT);
    assert_eq!(
        answer.packet,
        Packet { command_type: 2, command: 64, command_data: Some(b"42".to_vec()) }
    );
    let mut data = DeviceManagerData::new();
    data.register_device(&fake_discovery_reply());
    let device = updated(
        data.handle_incoming_packet(
            Endpoint { ip: fake_device_addr(), port: 7777 },
            &answer.packet,
        )
        .unwrap(),
    );
    assert_eq!(device.volume(), Some(42));
}

#[test]
fn fake_answers_nothing_else() {
    let mut fake = FakeDevice::new();
    assert_eq!(fake.respond(&BatteryLevel::fetch()), None);
    assert_eq!(
        fake.respond(&Packet { command_type: 3, command: 64, command_data: None }),
        None
    );
    assert_eq!(
        fake.respond(&Packet { command_type: 2, command: 90, command_data: None }),
        None
    );
    assert_eq!(
        fake.respond(&Packet {
            command_type: 1,
            command: 40,
            command_data: Some(b"PLAY".to_vec())
        }),
        None
    );
    assert!(!fake.playing);
}

#[test]
fn a_failed_worker_rests_and_starts_again() {
    assert_eq!(after_worker(true), WorkerAction::Restart { after_secs: 5 });
    assert_eq!(after_worker(false), WorkerAction::Fatal);
}

#[test]
fn a_notification_that_was_not_acknowledged_changes_nothing() {
    let mut data = DeviceManagerData::new();
    data.register_device(&announcement("kitchen", KITCHEN));
    let before = data.device("kitchen");
    let receiver = data.listen();
    assert_eq!(
        data.handle_notification(from(KITCHEN), &reply(64, b"35"), false),
        Err(NotificationError::NotAcknowledged)
    );
    assert_eq!(
        data.handle_notification(from(KITCHEN), &reply(64, b"loud"), false),
        Err(NotificationError::NotAcknowledged)
    );
    assert_eq!(data.device("kitchen"), before);
    assert!(receiver.try_recv().is_err());
}

#[test]
fn an_acknowledged_notification_is_applied() {
    let mut data = DeviceManagerData::new();
    data.register_device(&announcement("kitchen", KITCHEN));
    let receiver = data.listen();
    let device =
        updated(data.handle_notification(from(KITCHEN), &reply(258, b"79"), true).unwrap());
    assert_eq!(device.battery_level(), Some(79));
    assert_eq!(receiver.try_recv().unwrap(), DeviceManagerEvent::DeviceUpdated(device));
    assert_eq!(
        data.handle_notification(from(KITCHEN), &reply(64, b"loud"), true),
        Err(NotificationError::Decode(DecodeError::InvalidNumber))
    );
    assert_eq!(data.handle_notification(from(DEN), &reply(64, b"35"), true), Ok(None));
    assert_eq!(data.handle_notification(from(KITCHEN), &reply(14, b"eco"), true), Ok(None));
}
