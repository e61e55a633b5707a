//! The state of the controller: the devices it knows and the subscribers to
//! its events.
//!
//! Nothing here sends or receives a packet. A function that decides to send
//! returns what is to be sent and where; a function that handles a packet is
//! handed the packet and its sender.

use std::sync::mpsc::{Receiver, Sender};
use vstd::prelude::*;
use crate::address::{Endpoint, IpAddress};
use crate::commands::{
    lemma_catalog, BatteryLevel, ChargingState, Command, DecodeError, DeviceName, PlayControl,
    PlayInfo, PreChannel, Volume,
};
use crate::device::{updated, Device, DeviceManagerEvent, DeviceManagerEventView, DeviceView};
use crate::discovery_reply::DiscoveryReply;
use crate::protocol::{
    Packet, PacketView, CMD_SEND_PORT, COMMAND_TYPE_FETCH, COMMAND_TYPE_SET, NOTIF_ACK_PORT,
};
use crate::text::{decimal_digits, render_decimal};

verus! {

/// `std::sync::mpsc::Sender`, of which the verifier sees nothing.
#[verifier::external_type_specification]
#[verifier::external_body]
#[verifier::reject_recursive_types(T)]
pub struct ExSender<T>(Sender<T>);

/// `std::sync::mpsc::Receiver`, of which the verifier sees nothing.
#[verifier::external_type_specification]
#[verifier::external_body]
#[verifier::reject_recursive_types(T)]
pub struct ExReceiver<T>(Receiver<T>);

/// Calls `std::sync::mpsc::channel`.
///
/// Trusted: nothing is claimed of the two ends.
#[verifier::external_body]
fn new_channel() -> (ends: (Sender<DeviceManagerEvent>, Receiver<DeviceManagerEvent>)) {
    std::sync::mpsc::channel()
}

/// Calls `Sender::send` and tells whether it succeeded.
///
/// Trusted: nothing is claimed of the outcome, which depends on whether the
/// receiving end is still there.
#[verifier::external_body]
fn deliver(subscriber: &Sender<DeviceManagerEvent>, event: DeviceManagerEvent) -> (delivered:
    bool) {
    subscriber.send(event).is_ok()
}

/// Seconds that a worker of the controller rests after it failed, before it
/// is started again.
pub const RESTART_DELAY_SECS: u64 = 5;

/// What is done with a worker of the controller that has come back.
#[derive(Clone, Copy, Debug, PartialEq, Eq, Structural)]
pub enum WorkerAction {
    /// The worker rests for so many seconds and is started again.
    Restart { after_secs: u64 },
    /// Nothing can be done: a worker never comes back unless it failed.
    Fatal,
}

/// Decides what is done with a worker that has come back: one that failed
/// rests and is started again, and one that came back without a failure is
/// a fault of the program.
pub fn after_worker(failed: bool) -> (a: WorkerAction)
    ensures
        a == (if failed {
            WorkerAction::Restart { after_secs: RESTART_DELAY_SECS }
        } else {
            WorkerAction::Fatal
        }),
{
    if failed {
        WorkerAction::Restart { after_secs: RESTART_DELAY_SECS }
    } else {
        WorkerAction::Fatal
    }
}

/// Why a notification was not applied.
#[derive(Clone, Copy, Debug, PartialEq, Eq, Structural)]
pub enum NotificationError {
    /// The acknowledgement could not be sent.
    NotAcknowledged,
    /// The payload does not decode.
    Decode(DecodeError),
}

/// Why a request of the caller was not carried out.
#[derive(Clone, Copy, Debug, PartialEq, Eq, Structural)]
pub enum ManagerError {
    /// No device of that identifier is known.
    UnknownDevice,
}

/// A packet that is to be sent, and where to.
#[derive(Debug, PartialEq, Eq)]
pub struct Outbound {
    pub to: Endpoint,
    pub packet: Packet,
}

/// The mathematical content of an [`Outbound`].
pub ghost struct OutboundView {
    pub to: Endpoint,
    pub packet: PacketView,
}

impl View for Outbound {
    type V = OutboundView;

    open spec fn view(&self) -> OutboundView {
        OutboundView { to: self.to, packet: self.packet@ }
    }
}

impl DeepView for Outbound {
    type V = OutboundView;

    open spec fn deep_view(&self) -> OutboundView {
        self@
    }
}

/// `i` is the index of the first of `devices` with the identifier `id`.
pub open spec fn is_first_with_id(devices: Seq<DeviceView>, id: Seq<char>, i: int) -> bool {
    &&& 0 <= i < devices.len()
    &&& devices[i].id == id
    &&& forall|k: int| 0 <= k < i ==> (#[trigger] devices[k]).id != id
}

/// `i` is the index of the first of `devices` at the address `ip`.
pub open spec fn is_first_at(devices: Seq<DeviceView>, ip: IpAddress, i: int) -> bool {
    &&& 0 <= i < devices.len()
    &&& devices[i].addr == ip
    &&& forall|k: int| 0 <= k < i ==> (#[trigger] devices[k]).addr != ip
}

/// Index of the device with the identifier `id`.
pub open spec fn index_of_id(devices: Seq<DeviceView>, id: Seq<char>) -> Option<int> {
    if exists|i: int| is_first_with_id(devices, id, i) {
        Some(choose|i: int| is_first_with_id(devices, id, i))
    } else {
        None
    }
}

/// Index of the device that was registered first among those at the address
/// `ip`.
pub open spec fn index_at(devices: Seq<DeviceView>, ip: IpAddress) -> Option<int> {
    if exists|i: int| is_first_at(devices, ip, i) {
        Some(choose|i: int| is_first_at(devices, ip, i))
    } else {
        None
    }
}

/// No two of `devices` have the same identifier.
pub open spec fn distinct_ids(devices: Seq<DeviceView>) -> bool {
    forall|i: int, j: int|
        0 <= i < j < devices.len() ==> (#[trigger] devices[i]).id != (#[trigger] devices[j]).id
}

/// Those of `subscribers` to which an event was delivered, in their order.
pub open spec fn kept<T>(subscribers: Seq<T>, delivered: Seq<bool>) -> Seq<T>
    decreases subscribers.len(),
{
    if subscribers.len() == 0 || delivered.len() == 0 {
        Seq::empty()
    } else if delivered[0] {
        seq![subscribers[0]] + kept(subscribers.skip(1), delivered.skip(1))
    } else {
        kept(subscribers.skip(1), delivered.skip(1))
    }
}

/// Takes out of `subscribers` those to which an event was not delivered.
pub fn retain_delivered<T>(subscribers: &mut Vec<T>, delivered: &Vec<bool>)
    requires
        old(subscribers)@.len() == delivered@.len(),
    ensures
        final(subscribers)@ == kept(old(subscribers)@, delivered@),
{
    let ghost all = subscribers@;
    let mut i: usize = subscribers.len();
    assert(all.skip(i as int) =~= Seq::empty());
    assert(subscribers@ =~= all.take(i as int) + kept(
        all.skip(i as int),
        delivered@.skip(i as int),
    ));
    while i > 0
        invariant
            i <= all.len(),
            all.len() == delivered@.len(),
            subscribers@ == all.take(i as int) + kept(
                all.skip(i as int),
                delivered@.skip(i as int),
            ),
        decreases i,
    {
        i -= 1;
        let ghost rest = kept(all.skip(i + 1), delivered@.skip(i + 1));
        assert(all.skip(i as int).skip(1) =~= all.skip(i + 1));
        assert(delivered@.skip(i as int).skip(1) =~= delivered@.skip(i + 1));
        assert(all.take(i + 1) =~= all.take(i as int).push(all[i as int]));
        if !delivered[i] {
            subscribers.remove(i);
            assert(subscribers@ =~= all.take(i as int) + rest);
        } else {
            assert(subscribers@ =~= all.take(i as int) + (seq![all[i as int]] + rest));
        }
    }
    assert(all.skip(0) =~= all);
    assert(delivered@.skip(0) =~= delivered@);
    assert(all.take(0) + kept(all, delivered@) =~= kept(all, delivered@));
}

/// The views of the devices of a list.
pub open spec fn devices_view(devices: Seq<Device>) -> Seq<DeviceView> {
    Seq::new(devices.len(), |i: int| devices[i]@)
}

/// The devices that the controller knows, in the order in which they were
/// registered, and the subscribers to its events.
pub struct DeviceManagerData {
    event_listeners: Vec<Sender<DeviceManagerEvent>>,
    devices: Vec<Device>,
}

impl DeviceManagerData {
    /// No two devices have the same identifier, and of each the volume and
    /// the battery level, where known, are at most 100.
    #[verifier::type_invariant]
    spec fn well_formed(self) -> bool {
        &&& distinct_ids(devices_view(self.devices@))
        &&& forall|i: int|
            0 <= i < self.devices@.len() ==> (#[trigger] self.devices@[i])@.in_range()
    }

    /// The devices, in the order in which they were registered.
    pub closed spec fn devices(self) -> Seq<DeviceView> {
        devices_view(self.devices@)
    }

    /// The subscribers, in the order in which they subscribed.
    pub closed spec fn subscribers(self) -> Seq<Sender<DeviceManagerEvent>> {
        self.event_listeners@
    }

    /// Whether a device of the identifier `id` is known.
    pub open spec fn knows(self, id: Seq<char>) -> bool {
        index_of_id(self.devices(), id) is Some
    }

    /// A controller that knows no device and has no subscriber.
    pub fn new() -> (data: DeviceManagerData)
        ensures
            data.devices() == Seq::<DeviceView>::empty(),
            data.subscribers() == Seq::<Sender<DeviceManagerEvent>>::empty(),
    {
        let data = DeviceManagerData { event_listeners: Vec::new(), devices: Vec::new() };
        assert(data.devices() =~= Seq::<DeviceView>::empty());
        data
    }

    /// Number of devices.
    pub fn device_count(&self) -> (n: usize)
        ensures
            n == self.devices().len(),
    {
        self.devices.len()
    }

    /// Number of subscribers.
    pub fn subscriber_count(&self) -> (n: usize)
        ensures
            n == self.subscribers().len(),
    {
        self.event_listeners.len()
    }

    /// Index of the device with the identifier `id`.
    fn find_id(&self, id: &str) -> (r: Option<usize>)
        ensures
            match r {
                Some(i) => index_of_id(self.devices(), id@) == Some(i as int) && i
                    < self.devices@.len(),
                None => index_of_id(self.devices(), id@) is None,
            },
    {
        let ghost all = self.devices();
        let mut i: usize = 0;
        while i < self.devices.len()
            invariant
                i <= self.devices.len(),
                all == devices_view(self.devices@),
                forall|k: int| 0 <= k < i ==> (#[trigger] all[k]).id != id@,
            decreases self.devices.len() - i,
        {
            let found = self.devices[i].has_id(id);
            assert(all[i as int] == self.devices@[i as int]@);
            if found {
                assert(is_first_with_id(all, id@, i as int));
                assert forall|j: int| is_first_with_id(all, id@, j) implies j == i by {}
                return Some(i);
            }
            i += 1;
        }
        assert forall|j: int| !is_first_with_id(all, id@, j) by {}
        None
    }

    /// Index of the first device at the address `ip`.
    fn find_addr(&self, ip: IpAddress) -> (r: Option<usize>)
        ensures
            match r {
                Some(i) => index_at(self.devices(), ip) == Some(i as int) && i
                    < self.devices@.len(),
                None => index_at(self.devices(), ip) is None,
            },
    {
        let ghost all = self.devices();
        let mut i: usize = 0;
        while i < self.devices.len()
            invariant
                i <= self.devices.len(),
                all == devices_view(self.devices@),
                forall|k: int| 0 <= k < i ==> (#[trigger] all[k]).addr != ip,
            decreases self.devices.len() - i,
        {
            let found = self.devices[i].addr() == ip;
            assert(all[i as int] == self.devices@[i as int]@);
            if found {
                assert(is_first_at(all, ip, i as int));
                assert forall|j: int| is_first_at(all, ip, j) implies j == i by {}
                return Some(i);
            }
            i += 1;
        }
        assert forall|j: int| !is_first_at(all, ip, j) by {}
        None
    }

    /// What is known of the device with the identifier `id`.
    pub fn device(&self, id: &str) -> (r: Option<Device>)
        ensures
            match index_of_id(self.devices(), id@) {
                Some(i) => r matches Some(d) && d@ == self.devices()[i],
                None => r is None,
            },
    {
        match self.find_id(id) {
            Some(i) => Some(self.devices[i].clone()),
            None => None,
        }
    }
}

/// The request that reads the field with the identifier `command`.
pub open spec fn fetch_of(command: u16) -> PacketView {
    PacketView { command_type: COMMAND_TYPE_FETCH, command, command_data: None }
}

/// What is sent to learn all of a device: one request for each of the name,
/// the volume, the playback status, what is playing, the state of the
/// charger, the battery level and the presets, in this order.
pub open spec fn fetch_plan(to: Endpoint) -> Seq<OutboundView> {
    seq![
        OutboundView { to, packet: fetch_of(DeviceName::GET_COMMAND_ID) },
        OutboundView { to, packet: fetch_of(Volume::GET_COMMAND_ID) },
        OutboundView { to, packet: fetch_of(PlayControl::GET_COMMAND_ID) },
        OutboundView { to, packet: fetch_of(PlayInfo::GET_COMMAND_ID) },
        OutboundView { to, packet: fetch_of(ChargingState::GET_COMMAND_ID) },
        OutboundView { to, packet: fetch_of(BatteryLevel::GET_COMMAND_ID) },
        OutboundView { to, packet: fetch_of(PreChannel::GET_COMMAND_ID) },
    ]
}

/// The acknowledgement of a notification: the command type of the
/// notification, the command 2 and no payload, to the acknowledgement port
/// of the sender.
pub open spec fn ack_of(from: Endpoint, notification: PacketView) -> OutboundView {
    OutboundView {
        to: Endpoint { ip: from.ip, port: NOTIF_ACK_PORT },
        packet: PacketView {
            command_type: notification.command_type,
            command: 2,
            command_data: None,
        },
    }
}

/// Where commands to a device at the address `ip` go.
pub open spec fn command_endpoint(ip: IpAddress) -> Endpoint {
    Endpoint { ip, port: CMD_SEND_PORT }
}

/// The devices are as they should be: no two have the same identifier, and
/// of each the volume and the battery level, where known, are at most 100.
pub open spec fn sound(devices: Seq<DeviceView>) -> bool {
    &&& distinct_ids(devices)
    &&& forall|i: int| 0 <= i < devices.len() ==> (#[trigger] devices[i]).in_range()
}

/// `after` is `before` without the subscribers to which some event was not
/// delivered.
pub open spec fn pruned<T>(before: Seq<T>, after: Seq<T>) -> bool {
    exists|delivered: Seq<bool>|
        delivered.len() == before.len() && after == kept(before, delivered)
}

impl DeviceManagerData {
    /// The devices are sound at all times.
    pub fn devices_are_sound(&self)
        ensures
            sound(self.devices()),
    {
        proof {
            use_type_invariant(self);
            assert forall|i: int| 0 <= i < self.devices().len() implies (
            #[trigger] self.devices()[i]).in_range() by {
                assert(self.devices()[i] == self.devices@[i]@);
            }
        }
    }

    /// Adds a subscriber and returns the end at which it receives the
    /// events.
    pub fn listen(&mut self) -> (receiver: Receiver<DeviceManagerEvent>)
        ensures
            final(self).devices() == old(self).devices(),
            final(self).subscribers().len() == old(self).subscribers().len() + 1,
            final(self).subscribers().drop_last() == old(self).subscribers(),
    {
        proof {
            use_type_invariant(&*self);
        }
        let (sender, receiver) = new_channel();
        let mut listeners: Vec<Sender<DeviceManagerEvent>> = Vec::new();
        std::mem::swap(&mut self.event_listeners, &mut listeners);
        listeners.push(sender);
        std::mem::swap(&mut self.event_listeners, &mut listeners);
        assert(self.event_listeners@.drop_last() =~= old(self).event_listeners@);
        receiver
    }

    /// Hands a copy of the event to every subscriber, and drops the
    /// subscribers that no longer take it. Returns how many took it.
    pub fn send_event(&mut self, event: DeviceManagerEvent) -> (live: usize)
        ensures
            final(self).devices() == old(self).devices(),
            pruned(old(self).subscribers(), final(self).subscribers()),
            live == final(self).subscribers().len(),
    {
        proof {
            use_type_invariant(&*self);
        }
        let mut delivered: Vec<bool> = Vec::new();
        let mut i: usize = 0;
        while i < self.event_listeners.len()
            invariant
                i <= self.event_listeners.len(),
                delivered@.len() == i,
            decreases self.event_listeners.len() - i,
        {
            let ok = deliver(&self.event_listeners[i], event.clone());
            delivered.push(ok);
            i += 1;
        }
        let mut listeners: Vec<Sender<DeviceManagerEvent>> = Vec::new();
        std::mem::swap(&mut self.event_listeners, &mut listeners);
        retain_delivered(&mut listeners, &delivered);
        std::mem::swap(&mut self.event_listeners, &mut listeners);
        self.event_listeners.len()
    }

    /// Registers the device that an announcement is about, unless a device
    /// of that identifier is known already, and tells the subscribers of
    /// it. Returns the event that was published.
    pub fn register_device(&mut self, info: &DiscoveryReply) -> (published: Option<
        DeviceManagerEvent,
    >)
        ensures
            final(self).knows(info@.device_id),
            old(self).knows(info@.device_id) ==> {
                &&& published is None
                &&& final(self).devices() == old(self).devices()
                &&& final(self).subscribers() == old(self).subscribers()
            },
            !old(self).knows(info@.device_id) ==> {
                &&& final(self).devices() == old(self).devices().push(
                    DeviceView::fresh(info@.device_id, info@.ip_address),
                )
                &&& published matches Some(e)
                &&& published->0@ == DeviceManagerEventView::DeviceDiscovered(
                    DeviceView::fresh(info@.device_id, info@.ip_address),
                )
                &&& pruned(old(self).subscribers(), final(self).subscribers())
            },
    {
        proof {
            use_type_invariant(&*self);
        }
        if self.find_id(info.device_id.as_str()).is_some() {
            return None;
        }
        let ghost before = self.devices();
        let device = Device::new(info.device_id.clone(), info.ip_address);
        let event = DeviceManagerEvent::DeviceDiscovered(device.clone());
        let published = event.clone();
        let mut devices: Vec<Device> = Vec::new();
        std::mem::swap(&mut self.devices, &mut devices);
        devices.push(device);
        proof {
            let after = devices_view(devices@);
            assert(after =~= before.push(DeviceView::fresh(info@.device_id, info@.ip_address)));
            assert forall|k: int| 0 <= k < before.len() implies (#[trigger] before[k]).id
                != info@.device_id by {
                if before[k].id == info@.device_id {
                    lemma_first_with_id_exists(before, info@.device_id, k);
                }
            }
            assert(is_first_with_id(after, info@.device_id, before.len() as int));
            DeviceView::lemma_fresh_in_range(info@.device_id, info@.ip_address);
            assert forall|a: int, b: int| 0 <= a < b < after.len() implies (#[trigger] after[a]).id
                != (#[trigger] after[b]).id by {
                if b < before.len() {
                    assert(after[a] == before[a] && after[b] == before[b]);
                } else {
                    assert(after[a] == before[a]);
                }
            }
            assert forall|k: int| 0 <= k < devices@.len() implies (
            #[trigger] devices@[k])@.in_range() by {
                if k < before.len() {
                    assert(devices@[k] == old(self).devices@[k]);
                }
            }
        }
        std::mem::swap(&mut self.devices, &mut devices);
        self.send_event(event);
        Some(published)
    }

    /// Where a packet for the device with the identifier `device_id` goes.
    pub fn send_packet(&self, device_id: &str, packet: &Packet) -> (r: Result<
        Outbound,
        ManagerError,
    >)
        ensures
            match index_of_id(self.devices(), device_id@) {
                Some(i) => r matches Ok(o) && o@ == (OutboundView {
                    to: command_endpoint(self.devices()[i].addr),
                    packet: packet@,
                }),
                None => r matches Err(e) && e == ManagerError::UnknownDevice,
            },
    {
        match self.find_id(device_id) {
            Some(i) => {
                assert(self.devices()[i as int] == self.devices@[i as int]@);
                Ok(
                    Outbound {
                        to: Endpoint { ip: self.devices[i].addr(), port: CMD_SEND_PORT },
                        packet: packet.clone(),
                    },
                )
            },
            None => Err(ManagerError::UnknownDevice),
        }
    }

    /// What is to be sent to learn all of the device with the identifier
    /// `device_id`.
    pub fn fetch_info(&self, device_id: &str) -> (r: Result<Vec<Outbound>, ManagerError>)
        ensures
            match index_of_id(self.devices(), device_id@) {
                Some(i) => r matches Ok(plan) && plan.deep_view() == fetch_plan(
                    command_endpoint(self.devices()[i].addr),
                ),
                None => r matches Err(e) && e == ManagerError::UnknownDevice,
            },
    {
        let i = match self.find_id(device_id) {
            Some(i) => i,
            None => return Err(ManagerError::UnknownDevice),
        };
        assert(self.devices()[i as int] == self.devices@[i as int]@);
        let to = Endpoint { ip: self.devices[i].addr(), port: CMD_SEND_PORT };
        let mut plan: Vec<Outbound> = Vec::new();
        plan.push(Outbound { to, packet: DeviceName::fetch() });
        plan.push(Outbound { to, packet: Volume::fetch() });
        plan.push(Outbound { to, packet: PlayControl::fetch() });
        plan.push(Outbound { to, packet: PlayInfo::fetch() });
        plan.push(Outbound { to, packet: ChargingState::fetch() });
        plan.push(Outbound { to, packet: BatteryLevel::fetch() });
        plan.push(Outbound { to, packet: PreChannel::fetch() });
        assert(plan.deep_view() =~= fetch_plan(to));
        Ok(plan)
    }

    /// What is to be sent to set the volume of the device with the
    /// identifier `device_id`; a volume above 100 is taken as 100.
    pub fn set_volume(&self, device_id: &str, volume: u8) -> (r: Result<Outbound, ManagerError>)
        ensures
            match index_of_id(self.devices(), device_id@) {
                Some(i) => r matches Ok(o) && o@ == (OutboundView {
                    to: command_endpoint(self.devices()[i].addr),
                    packet: PacketView {
                        command_type: COMMAND_TYPE_SET,
                        command: Volume::SET_COMMAND_ID,
                        command_data: Some(
                            decimal_digits(
                                if volume > 100 {
                                    100
                                } else {
                                    volume as nat
                                },
                            ),
                        ),
                    },
                }),
                None => r matches Err(e) && e == ManagerError::UnknownDevice,
            },
    {
        let i = match self.find_id(device_id) {
            Some(i) => i,
            None => return Err(ManagerError::UnknownDevice),
        };
        assert(self.devices()[i as int] == self.devices@[i as int]@);
        let clamped: u8 = if volume > 100 {
            100
        } else {
            volume
        };
        Ok(
            Outbound {
                to: Endpoint { ip: self.devices[i].addr(), port: CMD_SEND_PORT },
                packet: Packet {
                    command_type: COMMAND_TYPE_SET,
                    command: Volume::SET_COMMAND_ID,
                    command_data: Some(render_decimal(clamped as u32)),
                },
            },
        )
    }

    /// The acknowledgement that a notification is answered with.
    pub fn notification_ack(from: Endpoint, notification: &Packet) -> (ack: Outbound)
        ensures
            ack@ == ack_of(from, notification@),
    {
        Outbound {
            to: Endpoint { ip: from.ip, port: NOTIF_ACK_PORT },
            packet: Packet {
                command_type: notification.command_type,
                command: 2,
                command_data: None,
            },
        }
    }

    /// Applies a packet to the device that was registered first among those
    /// at the address of the sender, and tells the subscribers where it set
    /// a field. Returns the event that was published.
    ///
    /// A packet from an address at which no device is known changes
    /// nothing. A payload that does not decode changes nothing and is
    /// reported.
    pub fn handle_incoming_packet(&mut self, from: Endpoint, packet: &Packet) -> (r: Result<
        Option<DeviceManagerEvent>,
        DecodeError,
    >)
        ensures
            match index_at(old(self).devices(), from.ip) {
                None => {
                    &&& final(self).devices() == old(self).devices()
                    &&& final(self).subscribers() == old(self).subscribers()
                    &&& r matches Ok(None)
                },
                Some(i) => match updated(old(self).devices()[i], packet@) {
                    Ok(Some(d)) => {
                        &&& final(self).devices() == old(self).devices().update(i, d)
                        &&& pruned(old(self).subscribers(), final(self).subscribers())
                        &&& r matches Ok(Some(e))
                        &&& r->Ok_0->0@ == DeviceManagerEventView::DeviceUpdated(d)
                    },
                    Ok(None) => {
                        &&& final(self).devices() == old(self).devices()
                        &&& final(self).subscribers() == old(self).subscribers()
                        &&& r matches Ok(None)
                    },
                    Err(e) => {
                        &&& final(self).devices() == old(self).devices()
                        &&& final(self).subscribers() == old(self).subscribers()
                        &&& r == Err::<Option<DeviceManagerEvent>, DecodeError>(e)
                    },
                },
            },
    {
        proof {
            use_type_invariant(&*self);
        }
        let i = match self.find_addr(from.ip) {
            Some(i) => i,
            None => return Ok(None),
        };
        let ghost before = self.devices();
        assert(before[i as int] == self.devices@[i as int]@);
        let mut device = self.devices[i].clone();
        let event = match Device::handle_device_update(&mut device, packet) {
            Ok(Some(e)) => e,
            Ok(None) => return Ok(None),
            Err(e) => return Err(e),
        };
        let published = event.clone();
        proof {
            crate::device::lemma_updated_keeps(before[i as int], packet@);
        }
        let mut devices: Vec<Device> = Vec::new();
        std::mem::swap(&mut self.devices, &mut devices);
        let ghost updated_view = device@;
        devices.set(i, device);
        proof {
            let after = devices_view(devices@);
            assert(after =~= before.update(i as int, updated_view));
            assert forall|a: int, b: int| 0 <= a < b < after.len() implies (#[trigger] after[a]).id
                != (#[trigger] after[b]).id by {
                assert(after[a].id == before[a].id);
                assert(after[b].id == before[b].id);
            }
            assert forall|k: int| 0 <= k < devices@.len() implies (
            #[trigger] devices@[k])@.in_range() by {
                if k != i {
                    assert(devices@[k] == old(self).devices@[k]);
                }
            }
        }
        std::mem::swap(&mut self.devices, &mut devices);
        self.send_event(event);
        Ok(Some(published))
    }
}

impl DeviceManagerData {
    /// Applies a notification once its acknowledgement was tried: where the
    /// acknowledgement could not be sent, the notification changes nothing
    /// and nobody is told; where it was sent, the notification is applied
    /// as any incoming packet is.
    pub fn handle_notification(
        &mut self,
        from: Endpoint,
        notification: &Packet,
        acknowledged: bool,
    ) -> (r: Result<Option<DeviceManagerEvent>, NotificationError>)
        ensures
            !acknowledged ==> {
                &&& final(self).devices() == old(self).devices()
                &&& final(self).subscribers() == old(self).subscribers()
                &&& r is Err
                &&& r->Err_0 == NotificationError::NotAcknowledged
            },
            acknowledged ==> match index_at(old(self).devices(), from.ip) {
                None => {
                    &&& final(self).devices() == old(self).devices()
                    &&& final(self).subscribers() == old(self).subscribers()
                    &&& r matches Ok(None)
                },
                Some(i) => match updated(old(self).devices()[i], notification@) {
                    Ok(Some(d)) => {
                        &&& final(self).devices() == old(self).devices().update(i, d)
                        &&& pruned(old(self).subscribers(), final(self).subscribers())
                        &&& r matches Ok(Some(e))
                        &&& r->Ok_0->0@ == DeviceManagerEventView::DeviceUpdated(d)
                    },
                    Ok(None) => {
                        &&& final(self).devices() == old(self).devices()
                        &&& final(self).subscribers() == old(self).subscribers()
                        &&& r matches Ok(None)
                    },
                    Err(e) => {
                        &&& final(self).devices() == old(self).devices()
                        &&& final(self).subscribers() == old(self).subscribers()
                        &&& r is Err
                        &&& r->Err_0 == NotificationError::Decode(e)
                    },
                },
            },
    {
        if !acknowledged {
            return Err(NotificationError::NotAcknowledged);
        }
        match self.handle_incoming_packet(from, notification) {
            Ok(published) => Ok(published),
            Err(e) => Err(NotificationError::Decode(e)),
        }
    }
}

/// An index at which a device has the identifier `id` shows that some index
/// is the first such.
pub proof fn lemma_first_with_id_exists(devices: Seq<DeviceView>, id: Seq<char>, k: int)
    requires
        0 <= k < devices.len(),
        devices[k].id == id,
    ensures
        exists|i: int| is_first_with_id(devices, id, i),
    decreases k,
{
    if exists|j: int| 0 <= j < k && (#[trigger] devices[j]).id == id {
        let j = choose|j: int| 0 <= j < k && (#[trigger] devices[j]).id == id;
        lemma_first_with_id_exists(devices, id, j);
    } else {
        assert(is_first_with_id(devices, id, k));
    }
}

/// A device that is registered under an identifier that was not known is
/// known afterwards, and what is sent to learn all of it is exactly seven
/// requests to the command port at its address: for the name, the volume,
/// the playback status, what is playing, the state of the charger, the
/// battery level and the presets.
pub proof fn lemma_fetch_after_discovery(devices: Seq<DeviceView>, id: Seq<char>, addr: IpAddress)
    requires
        index_of_id(devices, id) is None,
    ensures
        index_of_id(devices.push(DeviceView::fresh(id, addr)), id) == Some(devices.len() as int),
        fetch_plan(command_endpoint(addr)).len() == 7,
        forall|i: int|
            0 <= i < 7 ==> (#[trigger] fetch_plan(command_endpoint(addr))[i]).to == (Endpoint {
                ip: addr,
                port: 7777,
            }),
        fetch_plan(command_endpoint(addr))[0].packet == fetch_of(90),
        fetch_plan(command_endpoint(addr))[1].packet == fetch_of(64),
        fetch_plan(command_endpoint(addr))[2].packet == fetch_of(51),
        fetch_plan(command_endpoint(addr))[3].packet == fetch_of(278),
        fetch_plan(command_endpoint(addr))[4].packet == fetch_of(1284),
        fetch_plan(command_endpoint(addr))[5].packet == fetch_of(256),
        fetch_plan(command_endpoint(addr))[6].packet == fetch_of(275),
{
    lemma_catalog();
    let after = devices.push(DeviceView::fresh(id, addr));
    assert forall|k: int| 0 <= k < devices.len() implies (#[trigger] after[k]).id != id by {
        if devices[k].id == id {
            lemma_first_with_id_exists(devices, id, k);
        }
    }
    assert(is_first_with_id(after, id, devices.len() as int));
    assert forall|j: int| is_first_with_id(after, id, j) implies j == devices.len() by {}
}

/// Where an event was delivered to every subscriber, all of them are kept;
/// where it was delivered to none, none is.
pub proof fn lemma_kept_all_or_none<T>(subscribers: Seq<T>, delivered: Seq<bool>)
    requires
        delivered.len() == subscribers.len(),
    ensures
        (forall|i: int| 0 <= i < delivered.len() ==> delivered[i]) ==> kept(subscribers, delivered)
            == subscribers,
        (forall|i: int| 0 <= i < delivered.len() ==> !delivered[i]) ==> kept(
            subscribers,
            delivered,
        ) == Seq::<T>::empty(),
        kept(subscribers, delivered).len() <= subscribers.len(),
    decreases subscribers.len(),
{
    if subscribers.len() > 0 {
        lemma_kept_all_or_none(subscribers.skip(1), delivered.skip(1));
        if forall|i: int| 0 <= i < delivered.len() ==> delivered[i] {
            assert forall|i: int| 0 <= i < delivered.skip(1).len() implies delivered.skip(1)[i] by {
                assert(delivered.skip(1)[i] == delivered[i + 1]);
            }
            assert(delivered[0]);
            assert(seq![subscribers[0]] + subscribers.skip(1) =~= subscribers);
        }
        if forall|i: int| 0 <= i < delivered.len() ==> !delivered[i] {
            assert forall|i: int| 0 <= i < delivered.skip(1).len() implies !delivered.skip(
                1,
            )[i] by {
                assert(delivered.skip(1)[i] == delivered[i + 1]);
            }
            assert(!delivered[0]);
        }
    } else {
        assert(subscribers =~= Seq::<T>::empty());
    }
}

} // verus!
