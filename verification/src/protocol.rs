//! The binary command frame exchanged with a speaker.
//!
//! ```text
//! off  0  1  2            3  4      5       6  7     8  9    10..
//!      AA AA command_type command   status  reserved length  payload
//! ```
//!
//! All multi-byte fields are big-endian.

use vstd::prelude::*;
use vstd::string::*;
use crate::text::{append_bytes, copy_bytes, copy_range, decimal_text, push_decimal};

verus! {

/// Port on the device that receives commands.
pub const CMD_SEND_PORT: u16 = 7777;

/// Port on the controller that receives command replies.
pub const CMD_RESP_PORT: u16 = 7778;

/// Port on the controller that receives notifications.
pub const NOTIF_RECV_PORT: u16 = 3333;

/// Port on the device that receives notification acknowledgements.
pub const NOTIF_ACK_PORT: u16 = 3334;

/// Length in bytes of the fixed frame header.
pub const HEADER_LEN: usize = 10;

/// Longest payload that still fits one datagram together with the header.
pub const MAX_DATA_LEN: usize = 65525;

/// Size of the buffer that a datagram is received into.
pub const RECV_BUFFER_LEN: usize = 65536;

/// Value of `command_type` in a request that reads a field.
pub const COMMAND_TYPE_FETCH: u8 = 1;

/// Value of `command_type` in a request that writes a field.
pub const COMMAND_TYPE_SET: u8 = 2;

/// Why a byte string is not a frame.
#[derive(Clone, Copy, Debug, PartialEq, Eq, Structural)]
pub enum FrameError {
    /// Fewer bytes than a header.
    ShortFrame,
    /// The length declared in the header is not the length of what follows it.
    LengthMismatch,
}

/// One command frame.
#[derive(Debug, PartialEq, Eq)]
pub struct Packet {
    pub command_type: u8,
    pub command: u16,
    pub command_data: Option<Vec<u8>>,
}

/// The mathematical content of a [`Packet`].
pub ghost struct PacketView {
    pub command_type: u8,
    pub command: u16,
    pub command_data: Option<Seq<u8>>,
}

impl View for Packet {
    type V = PacketView;

    open spec fn view(&self) -> PacketView {
        PacketView {
            command_type: self.command_type,
            command: self.command,
            command_data: match self.command_data {
                Some(d) => Some(d@),
                None => None,
            },
        }
    }
}

impl PacketView {
    /// Number of payload bytes; an absent payload counts as none.
    pub open spec fn data_len(self) -> nat {
        match self.command_data {
            Some(d) => d.len(),
            None => 0,
        }
    }

    /// The payload bytes; an absent payload is the empty string.
    pub open spec fn data_bytes(self) -> Seq<u8> {
        match self.command_data {
            Some(d) => d,
            None => Seq::empty(),
        }
    }

    /// The same packet with an empty payload turned into an absent one.
    pub open spec fn normalized(self) -> PacketView {
        PacketView {
            command_type: self.command_type,
            command: self.command,
            command_data: if self.data_len() == 0 {
                None
            } else {
                self.command_data
            },
        }
    }

    /// The payload fits one datagram.
    pub open spec fn fits_datagram(self) -> bool {
        self.data_len() <= MAX_DATA_LEN
    }
}

/// The number written big-endian as the two bytes `hi lo`.
pub open spec fn be16(hi: u8, lo: u8) -> int {
    hi as int * 256 + lo as int
}

/// The ten header bytes that announce `p`.
pub open spec fn header_of(p: PacketView) -> Seq<u8> {
    seq![
        0xaau8,
        0xaau8,
        p.command_type,
        (p.command as int / 256) as u8,
        (p.command as int % 256) as u8,
        0x00u8,
        0x12u8,
        0x34u8,
        ((p.data_len() as int / 256) % 256) as u8,
        (p.data_len() as int % 256) as u8,
    ]
}

/// The frame of `p`: its header followed by its payload.
pub open spec fn frame_of(p: PacketView) -> Seq<u8> {
    header_of(p) + p.data_bytes()
}

/// What a byte string means as a frame.
pub open spec fn parse_frame(bytes: Seq<u8>) -> Result<PacketView, FrameError> {
    if bytes.len() < HEADER_LEN {
        Err(FrameError::ShortFrame)
    } else if HEADER_LEN + be16(bytes[8], bytes[9]) != bytes.len() {
        Err(FrameError::LengthMismatch)
    } else {
        Ok(
            PacketView {
                command_type: bytes[2],
                command: be16(bytes[3], bytes[4]) as u16,
                command_data: if be16(bytes[8], bytes[9]) > 0 {
                    Some(bytes.skip(HEADER_LEN as int))
                } else {
                    None
                },
            },
        )
    }
}

impl Packet {
    /// Whether the payload fits one datagram together with the header.
    pub fn fits_datagram(&self) -> (r: bool)
        ensures
            r == self@.fits_datagram(),
    {
        match &self.command_data {
            Some(d) => d.len() <= MAX_DATA_LEN,
            None => true,
        }
    }

    /// Reads one frame.
    ///
    /// The magic, status and reserved bytes are not looked at.
    pub fn parse(data: &[u8]) -> (r: Result<Packet, FrameError>)
        ensures
            match r {
                Ok(p) => parse_frame(data@) == Ok::<PacketView, FrameError>(p@),
                Err(e) => parse_frame(data@) == Err::<PacketView, FrameError>(e),
            },
    {
        if data.len() < HEADER_LEN {
            return Err(FrameError::ShortFrame);
        }
        let data_len: usize = data[8] as usize * 256 + data[9] as usize;
        if data.len() - HEADER_LEN != data_len {
            return Err(FrameError::LengthMismatch);
        }
        let command_type: u8 = data[2];
        let command: u16 = data[3] as u16 * 256 + data[4] as u16;
        let command_data = if data_len > 0 {
            Some(copy_range(data, HEADER_LEN, data.len()))
        } else {
            None
        };
        Ok(Packet { command_type, command, command_data })
    }

    /// Writes the frame of this packet.
    ///
    /// The length field holds the low sixteen bits of the payload length.
    pub fn data(&self) -> (bytes: Vec<u8>)
        ensures
            bytes@ == frame_of(self@),
    {
        let data_len: usize = match &self.command_data {
            Some(d) => d.len(),
            None => 0,
        };
        let mut packet_data: Vec<u8> = Vec::new();
        packet_data.push(0xaa);
        packet_data.push(0xaa);
        packet_data.push(self.command_type);
        packet_data.push((self.command / 256) as u8);
        packet_data.push((self.command % 256) as u8);
        packet_data.push(0x00);
        packet_data.push(0x12);
        packet_data.push(0x34);
        packet_data.push(((data_len / 256) % 256) as u8);
        packet_data.push((data_len % 256) as u8);
        assert(packet_data@ =~= header_of(self@));
        if let Some(command_data) = &self.command_data {
            append_bytes(&mut packet_data, command_data.as_slice());
        } else {
            assert(packet_data@ =~= header_of(self@) + Seq::<u8>::empty());
        }
        packet_data
    }
}

/// Reading the frame of a packet gives the packet back, an empty payload
/// having become an absent one, as long as the payload length fits the
/// sixteen-bit length field.
pub proof fn lemma_parse_frame_of(p: PacketView)
    requires
        p.data_len() <= 0xffff,
    ensures
        parse_frame(frame_of(p)) == Ok::<PacketView, FrameError>(p.normalized()),
{
    let f = frame_of(p);
    let n = p.data_len() as int;
    assert(f.len() == 10 + n);
    assert(f[8] == ((n / 256) % 256) as u8);
    assert(f[9] == (n % 256) as u8);
    assert(be16(f[8], f[9]) == n);
    assert(f[2] == p.command_type);
    assert(be16(f[3], f[4]) == p.command as int);
    assert(f.skip(10) =~= p.data_bytes());
}

/// Reading the frame of a packet gives exactly that packet: the command
/// type, the command, an absent payload as absent and a present payload
/// byte for byte. This holds of every packet whose payload, if present, is
/// not empty and fits the sixteen-bit length field.
pub proof fn lemma_frame_round_trip(p: PacketView)
    requires
        p.command_data matches Some(d) ==> 0 < d.len() <= 0xffff,
    ensures
        parse_frame(frame_of(p)) == Ok::<PacketView, FrameError>(p),
{
    lemma_parse_frame_of(p);
}

/// A payload too long for the length field yields a frame that does not read
/// back.
pub proof fn lemma_oversized_frame_rejected(p: PacketView)
    requires
        p.data_len() > 0xffff,
    ensures
        parse_frame(frame_of(p)) == Err::<PacketView, FrameError>(FrameError::LengthMismatch),
{
    let f = frame_of(p);
    assert(f.len() == 10 + p.data_len());
    assert(be16(f[8], f[9]) <= 0xffff);
}

/// A frame that reads as a packet holds exactly as many payload bytes as its
/// header declares.
pub proof fn lemma_parsed_length(bytes: Seq<u8>)
    requires
        parse_frame(bytes) is Ok,
    ensures
        parse_frame(bytes)->Ok_0.data_len() == be16(bytes[8], bytes[9]),
        parse_frame(bytes)->Ok_0.data_len() + HEADER_LEN == bytes.len(),
{
}

/// `acc` followed by the first `n` of `bytes` in decimal, with `, ` between
/// them.
pub open spec fn first_bytes_described(acc: Seq<char>, bytes: Seq<u8>, n: nat) -> Seq<char>
    decreases n,
{
    if n == 0 {
        acc
    } else {
        let t = first_bytes_described(acc, bytes, (n - 1) as nat);
        let t = if n > 1 {
            t + ", "@
        } else {
            t
        };
        t + decimal_text(bytes[n - 1] as nat)
    }
}

impl PacketView {
    /// `acc` followed by the display form of this packet: its fields by
    /// name, the payload byte by byte in decimal.
    pub open spec fn described(self, acc: Seq<char>) -> Seq<char> {
        let t = acc + "Packet { command_type: "@ + decimal_text(self.command_type as nat);
        let t = t + ", command: "@ + decimal_text(self.command as nat);
        let t = t + ", command_data: "@;
        let t = match self.command_data {
            Some(d) => first_bytes_described(t + "Some(["@, d, d.len()) + "])"@,
            None => t + "None"@,
        };
        t + " }"@
    }
}

impl Clone for Packet {
    fn clone(&self) -> (p: Packet)
        ensures
            p@ == self@,
    {
        Packet {
            command_type: self.command_type,
            command: self.command,
            command_data: match &self.command_data {
                Some(d) => Some(copy_bytes(d.as_slice())),
                None => None,
            },
        }
    }
}

impl Packet {
    /// Appends the display form of this packet.
    pub fn describe(&self, out: &mut String)
        ensures
            final(out)@ == self@.described(old(out)@),
    {
        out.append("Packet { command_type: ");
        push_decimal(out, self.command_type as u64);
        out.append(", command: ");
        push_decimal(out, self.command as u64);
        out.append(", command_data: ");
        match &self.command_data {
            Some(d) => {
                out.append("Some([");
                let ghost start = out@;
                let mut i: usize = 0;
                while i < d.len()
                    invariant
                        i <= d.len(),
                        out@ == first_bytes_described(start, d@, i as nat),
                    decreases d.len() - i,
                {
                    if i > 0 {
                        out.append(", ");
                    }
                    push_decimal(out, d[i] as u64);
                    i += 1;
                }
                out.append("])");
            },
            None => {
                out.append("None");
            },
        }
        out.append(" }");
    }
}

} // verus!
