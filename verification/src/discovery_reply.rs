//! The announcement with which a device answers a search: a datagram in the
//! shape of an HTTP `NOTIFY` request.

use vstd::prelude::*;
use vstd::utf8::*;
use crate::address::{ip_address_of, IpAddress};
use crate::http::{
    headers_view, last_value, lemma_last_value_is_header, parsed_request, RequestHead,
    RequestHeadView,
};
use crate::text::{
    append_bytes, bounded_decimal, copy_bytes, copy_range, has_prefix, lossy_text, parse_decimal,
    starts_with, str_eq, text_of_bytes,
};

verus! {

/// Number of headers that an announcement may hold.
pub const MAX_HEADERS: usize = 16;

/// The port on which the devices listen for a search and from which they
/// announce themselves. It is not the port that SSDP has registered.
pub const SSDP_MULTICAST_PORT: u16 = 1800;

/// The datagram that asks the devices to announce themselves.
pub const SEARCH_REQUEST_BODY: &'static str = "M-SEARCH * HTTP/1.1";

/// The multicast address that a search is sent to.
pub fn ssdp_multicast_addr() -> (addr: IpAddress)
    ensures
        addr == IpAddress::V4(239, 255, 255, 250),
{
    IpAddress::V4(239, 255, 255, 250)
}

/// A header that an announcement must hold.
#[derive(Clone, Copy, Debug, PartialEq, Eq, Structural)]
pub enum Field {
    DeviceName,
    DeviceID,
    DeviceState,
    Port,
    ZoneID,
    Creator,
    IPAddr,
    ColorCode,
    FWVersion,
    StereoPairID,
}

impl Field {
    /// The name of the header, as it is matched.
    pub open spec fn name(self) -> Seq<char> {
        match self {
            Field::DeviceName => "DeviceName"@,
            Field::DeviceID => "DeviceID"@,
            Field::DeviceState => "DeviceState"@,
            Field::Port => "PORT"@,
            Field::ZoneID => "ZoneID"@,
            Field::Creator => "Creator"@,
            Field::IPAddr => "IPAddr"@,
            Field::ColorCode => "ColorCode"@,
            Field::FWVersion => "FWVersion"@,
            Field::StereoPairID => "StereoPairID"@,
        }
    }

    /// The name of the header, as it is matched.
    pub fn as_str(self) -> (s: &'static str)
        ensures
            s@ == self.name(),
    {
        match self {
            Field::DeviceName => "DeviceName",
            Field::DeviceID => "DeviceID",
            Field::DeviceState => "DeviceState",
            Field::Port => "PORT",
            Field::ZoneID => "ZoneID",
            Field::Creator => "Creator",
            Field::IPAddr => "IPAddr",
            Field::ColorCode => "ColorCode",
            Field::FWVersion => "FWVersion",
            Field::StereoPairID => "StereoPairID",
        }
    }
}

/// Why a datagram is no announcement.
#[derive(Clone, Copy, Debug, PartialEq, Eq, Structural)]
pub enum DiscoveryError {
    /// The datagram is no HTTP request, or its `PORT` or `IPAddr` header
    /// holds what is no port or no address.
    BadHeader,
    /// The request is not `NOTIFY *`.
    BadRequestLine,
    /// A header that must be there is not.
    MissingHeader(Field),
}

/// What a device announces of itself.
#[derive(Debug, PartialEq, Eq)]
pub struct DiscoveryReply {
    pub device_name: String,
    pub device_id: String,
    pub device_state: String,
    pub port: u16,
    pub zone_id: String,
    pub creator: String,
    pub ip_address: IpAddress,
    pub color_code: String,
    pub firmware_version: String,
    pub stereo_pair_id: String,
}

/// The mathematical content of a [`DiscoveryReply`].
pub ghost struct DiscoveryReplyView {
    pub device_name: Seq<char>,
    pub device_id: Seq<char>,
    pub device_state: Seq<char>,
    pub port: u16,
    pub zone_id: Seq<char>,
    pub creator: Seq<char>,
    pub ip_address: IpAddress,
    pub color_code: Seq<char>,
    pub firmware_version: Seq<char>,
    pub stereo_pair_id: Seq<char>,
}

impl View for DiscoveryReply {
    type V = DiscoveryReplyView;

    open spec fn view(&self) -> DiscoveryReplyView {
        DiscoveryReplyView {
            device_name: self.device_name@,
            device_id: self.device_id@,
            device_state: self.device_state@,
            port: self.port,
            zone_id: self.zone_id@,
            creator: self.creator@,
            ip_address: self.ip_address,
            color_code: self.color_code@,
            firmware_version: self.firmware_version@,
            stereo_pair_id: self.stereo_pair_id@,
        }
    }
}

/// The start line as some devices send it, with a blank before the line
/// break.
pub open spec fn broken_start_line() -> Seq<u8> {
    encode_utf8("NOTIFY * HTTP/1.1 \r\n"@)
}

/// The start line as it should be.
pub open spec fn fixed_start_line() -> Seq<u8> {
    encode_utf8("NOTIFY * HTTP/1.1\r\n"@)
}

/// The datagram with the start line mended: where it begins with the broken
/// start line, that one blank is taken out.
pub open spec fn mended(input: Seq<u8>) -> Seq<u8> {
    if has_prefix(input, broken_start_line()) {
        fixed_start_line() + input.skip(broken_start_line().len() as int)
    } else {
        input
    }
}

/// Every `PORT` header holds a port and every `IPAddr` header an address.
pub open spec fn values_valid(headers: Seq<(Seq<char>, Seq<u8>)>) -> bool {
    forall|i: int|
        0 <= i < headers.len() ==> {
            &&& (#[trigger] headers[i]).0 == Field::Port.name() ==> bounded_decimal(
                headers[i].1,
                0xffff,
            ) is Some
            &&& headers[i].0 == Field::IPAddr.name() ==> ip_address_of(headers[i].1) is Some
        }
}

/// The first of the ten headers, in their order, that `headers` lacks.
pub open spec fn first_missing(headers: Seq<(Seq<char>, Seq<u8>)>) -> Option<Field> {
    if last_value(headers, Field::DeviceName.name()) is None {
        Some(Field::DeviceName)
    } else if last_value(headers, Field::DeviceID.name()) is None {
        Some(Field::DeviceID)
    } else if last_value(headers, Field::DeviceState.name()) is None {
        Some(Field::DeviceState)
    } else if last_value(headers, Field::Port.name()) is None {
        Some(Field::Port)
    } else if last_value(headers, Field::ZoneID.name()) is None {
        Some(Field::ZoneID)
    } else if last_value(headers, Field::Creator.name()) is None {
        Some(Field::Creator)
    } else if last_value(headers, Field::IPAddr.name()) is None {
        Some(Field::IPAddr)
    } else if last_value(headers, Field::ColorCode.name()) is None {
        Some(Field::ColorCode)
    } else if last_value(headers, Field::FWVersion.name()) is None {
        Some(Field::FWVersion)
    } else if last_value(headers, Field::StereoPairID.name()) is None {
        Some(Field::StereoPairID)
    } else {
        None
    }
}

/// The text of the last header of the given name.
pub open spec fn field_text(headers: Seq<(Seq<char>, Seq<u8>)>, field: Field) -> Seq<char> {
    lossy_text(last_value(headers, field.name())->0)
}

/// What the head of a request announces.
///
/// The request must be `NOTIFY *`. No `PORT` or `IPAddr` header may hold
/// anything but a port or an address. Each of the ten headers must be
/// there; where one occurs more than once, the last one counts. Headers of
/// other names are ignored.
pub open spec fn announced(head: RequestHeadView) -> Result<DiscoveryReplyView, DiscoveryError> {
    let h = head.headers;
    if head.method != Some("NOTIFY"@) || head.path != Some("*"@) {
        Err(DiscoveryError::BadRequestLine)
    } else if !values_valid(h) {
        Err(DiscoveryError::BadHeader)
    } else if first_missing(h) is Some {
        Err(DiscoveryError::MissingHeader(first_missing(h)->0))
    } else {
        Ok(
            DiscoveryReplyView {
                device_name: field_text(h, Field::DeviceName),
                device_id: field_text(h, Field::DeviceID),
                device_state: field_text(h, Field::DeviceState),
                port: bounded_decimal(last_value(h, Field::Port.name())->0, 0xffff)->0 as u16,
                zone_id: field_text(h, Field::ZoneID),
                creator: field_text(h, Field::Creator),
                ip_address: ip_address_of(last_value(h, Field::IPAddr.name())->0)->0,
                color_code: field_text(h, Field::ColorCode),
                firmware_version: field_text(h, Field::FWVersion),
                stereo_pair_id: field_text(h, Field::StereoPairID),
            },
        )
    }
}

/// What a datagram announces: what the head announces that is read from the
/// mended datagram, with room for sixteen headers.
pub open spec fn announcement(input: Seq<u8>) -> Result<DiscoveryReplyView, DiscoveryError> {
    match parsed_request(mended(input), MAX_HEADERS as nat) {
        Some(head) => announced(head),
        None => Err(DiscoveryError::BadHeader),
    }
}

/// Takes the blank out of a broken start line.
pub fn mend(input: &[u8]) -> (out: Vec<u8>)
    ensures
        out@ == mended(input@),
{
    let broken = "NOTIFY * HTTP/1.1 \r\n".as_bytes();
    let fixed = "NOTIFY * HTTP/1.1\r\n".as_bytes();
    if starts_with(input, broken) {
        let mut out = copy_bytes(fixed);
        let rest = copy_range(input, broken.len(), input.len());
        append_bytes(&mut out, rest.as_slice());
        out
    } else {
        copy_bytes(input)
    }
}

/// Whether every `PORT` header holds a port and every `IPAddr` header an
/// address.
pub fn check_values(head: &RequestHead) -> (ok: bool)
    ensures
        ok == values_valid(head@.headers),
{
    let ghost all = head@.headers;
    let mut i: usize = 0;
    while i < head.headers.len()
        invariant
            i <= head.headers.len(),
            all == headers_view(head.headers@),
            values_valid(all.take(i as int)),
        decreases head.headers.len() - i,
    {
        let line = &head.headers[i];
        assert(all[i as int] == line@);
        if str_eq(line.name.as_str(), Field::Port.as_str()) {
            if parse_decimal(line.value.as_slice(), 0xffff).is_none() {
                return false;
            }
        }
        if str_eq(line.name.as_str(), Field::IPAddr.as_str()) {
            if IpAddress::parse(line.value.as_slice()).is_none() {
                return false;
            }
        }
        assert forall|k: int| 0 <= k < i + 1 implies {
            &&& (#[trigger] all.take(i + 1)[k]).0 == Field::Port.name() ==> bounded_decimal(
                all.take(i + 1)[k].1,
                0xffff,
            ) is Some
            &&& all.take(i + 1)[k].0 == Field::IPAddr.name() ==> ip_address_of(
                all.take(i + 1)[k].1,
            ) is Some
        } by {
            if k < i {
                assert(all.take(i as int)[k] == all.take(i + 1)[k]);
            }
        }
        i += 1;
    }
    assert(all.take(i as int) =~= all);
    true
}

impl DiscoveryReply {
    /// Reads what the head of a request announces.
    pub fn from_request(head: &RequestHead) -> (r: Result<DiscoveryReply, DiscoveryError>)
        ensures
            match r {
                Ok(reply) => announced(head@) == Ok::<DiscoveryReplyView, DiscoveryError>(reply@),
                Err(e) => announced(head@) == Err::<DiscoveryReplyView, DiscoveryError>(e),
            },
    {
        let method_ok = match &head.method {
            Some(m) => str_eq(m.as_str(), "NOTIFY"),
            None => false,
        };
        let path_ok = match &head.path {
            Some(p) => str_eq(p.as_str(), "*"),
            None => false,
        };
        if !method_ok || !path_ok {
            return Err(DiscoveryError::BadRequestLine);
        }
        if !check_values(head) {
            return Err(DiscoveryError::BadHeader);
        }
        let ghost h = head@.headers;
        let device_name = match head.header(Field::DeviceName.as_str()) {
            Some(v) => text_of_bytes(v.as_slice()),
            None => return Err(DiscoveryError::MissingHeader(Field::DeviceName)),
        };
        let device_id = match head.header(Field::DeviceID.as_str()) {
            Some(v) => text_of_bytes(v.as_slice()),
            None => return Err(DiscoveryError::MissingHeader(Field::DeviceID)),
        };
        let device_state = match head.header(Field::DeviceState.as_str()) {
            Some(v) => text_of_bytes(v.as_slice()),
            None => return Err(DiscoveryError::MissingHeader(Field::DeviceState)),
        };
        let port_value = match head.header(Field::Port.as_str()) {
            Some(v) => v,
            None => return Err(DiscoveryError::MissingHeader(Field::Port)),
        };
        let zone_id = match head.header(Field::ZoneID.as_str()) {
            Some(v) => text_of_bytes(v.as_slice()),
            None => return Err(DiscoveryError::MissingHeader(Field::ZoneID)),
        };
        let creator = match head.header(Field::Creator.as_str()) {
            Some(v) => text_of_bytes(v.as_slice()),
            None => return Err(DiscoveryError::MissingHeader(Field::Creator)),
        };
        let address_value = match head.header(Field::IPAddr.as_str()) {
            Some(v) => v,
            None => return Err(DiscoveryError::MissingHeader(Field::IPAddr)),
        };
        let color_code = match head.header(Field::ColorCode.as_str()) {
            Some(v) => text_of_bytes(v.as_slice()),
            None => return Err(DiscoveryError::MissingHeader(Field::ColorCode)),
        };
        let firmware_version = match head.header(Field::FWVersion.as_str()) {
            Some(v) => text_of_bytes(v.as_slice()),
            None => return Err(DiscoveryError::MissingHeader(Field::FWVersion)),
        };
        let stereo_pair_id = match head.header(Field::StereoPairID.as_str()) {
            Some(v) => text_of_bytes(v.as_slice()),
            None => return Err(DiscoveryError::MissingHeader(Field::StereoPairID)),
        };
        proof {
            lemma_last_value_is_header(h, Field::Port.name());
            lemma_last_value_is_header(h, Field::IPAddr.name());
        }
        let port = match parse_decimal(port_value.as_slice(), 0xffff) {
            Some(p) => p as u16,
            None => return Err(DiscoveryError::BadHeader),
        };
        let ip_address = match IpAddress::parse(address_value.as_slice()) {
            Some(a) => a,
            None => return Err(DiscoveryError::BadHeader),
        };
        Ok(
            DiscoveryReply {
                device_name,
                device_id,
                device_state,
                port,
                zone_id,
                creator,
                ip_address,
                color_code,
                firmware_version,
                stereo_pair_id,
            },
        )
    }

    /// Reads an announcement.
    pub fn parse(input: &[u8]) -> (r: Result<DiscoveryReply, DiscoveryError>)
        ensures
            match r {
                Ok(reply) => announcement(input@) == Ok::<DiscoveryReplyView, DiscoveryError>(
                    reply@,
                ),
                Err(e) => announcement(input@) == Err::<DiscoveryReplyView, DiscoveryError>(e),
            },
    {
        let datagram = mend(input);
        match RequestHead::parse(datagram.as_slice(), MAX_HEADERS) {
            Some(head) => Self::from_request(&head),
            None => Err(DiscoveryError::BadHeader),
        }
    }
}

} // verus!
