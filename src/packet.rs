use crate::error::RazerError;
use vstd::prelude::*;
use vstd::slice::slice_subrange;

verus! {

/// Size of a packet on the wire.
pub const PACKET_SIZE: usize = 90;

/// Size of the argument buffer inside a packet.
pub const ARGS_SIZE: usize = 80;

/// Size of a feature report: one report-id byte followed by a packet.
pub const REPORT_SIZE: usize = 91;

/// Status byte of a request that has not been processed yet.
pub const STATUS_NEW: u8 = 0x00;
pub const STATUS_BUSY: u8 = 0x01;
pub const STATUS_SUCCESSFUL: u8 = 0x02;
pub const STATUS_FAILURE: u8 = 0x03;
pub const STATUS_TIMEOUT: u8 = 0x04;
pub const STATUS_NOT_SUPPORTED: u8 = 0x05;

/// XOR of all bytes of `s`, folded from the left.
pub open spec fn xor_all(s: Seq<u8>) -> u8
    decreases s.len(),
{
    if s.len() == 0 {
        0
    } else {
        xor_all(s.drop_last()) ^ s.last()
    }
}

/// Little-endian encoding of a 16-bit value.
pub open spec fn le_bytes(v: u16) -> Seq<u8> {
    seq![(v & 0xff) as u8, (v >> 8) as u8]
}

/// The two commands whose responses may carry a different
/// `remaining_packets` than their request: the battery-care read and the
/// max-fan-speed read.
pub open spec fn tolerates_remaining_mismatch(command_class: u8, command_id: u8) -> bool {
    (command_class == 0x07 && command_id == 0x92) || (command_class == 0x07 && command_id == 0x8f)
}

/// The 90-byte command/response frame exchanged with the device.
#[derive(Clone, Copy, Debug)]
pub struct Packet {
    pub status: u8,
    pub id: u8,
    pub remaining_packets: u16,
    pub protocol_type: u8,
    pub data_size: u8,
    pub command_class: u8,
    pub command_id: u8,
    pub args: [u8; 80],
    pub crc: u8,
    pub reserved: u8,
}

/// Relies on rand::random: a byte drawn from the thread-local generator.
/// Nothing is promised of its value.
#[verifier::external_body]
fn random_id() -> u8 {
    rand::random::<u8>()
}

impl Packet {
    /// A packet never claims more argument bytes than its buffer holds.
    pub open spec fn wf(&self) -> bool {
        self.data_size <= 80
    }

    /// The wire form of the packet: fields in order, integers little-endian.
    pub open spec fn serialize(&self) -> Seq<u8> {
        seq![self.status, self.id] + le_bytes(self.remaining_packets) + seq![
            self.protocol_type,
            self.data_size,
            self.command_class,
            self.command_id,
        ] + self.args@ + seq![self.crc, self.reserved]
    }

    /// The checksum of a packet: XOR of bytes 2..88 of its wire form.
    pub open spec fn crc_spec(&self) -> u8 {
        xor_all(self.serialize().subrange(2, 88))
    }

    /// The argument bytes that the packet declares meaningful.
    pub open spec fn args_used(&self) -> Seq<u8> {
        self.args@.subrange(0, self.data_size as int)
    }

    /// The 16-bit command code carried by the packet.
    pub open spec fn command(&self) -> u16 {
        (self.command_class as u16 * 256 + self.command_id as u16) as u16
    }

    /// The packet whose wire form is `b` (meaningful when `b` has 90 bytes).
    pub open spec fn parse(b: Seq<u8>) -> Packet {
        choose|p: Packet| p.serialize() == b
    }

    /// What validating this response against `request` gives: a response
    /// must answer the same command under the same id and with the same
    /// `remaining_packets` (but for two tolerant commands), and carry the
    /// status Successful.
    pub open spec fn validated(self, request: Packet) -> Result<Packet, RazerError> {
        if (request.command_class, request.command_id, request.id) != (
        self.command_class, self.command_id, self.id) {
            Err(RazerError::ResponseMismatch)
        } else if self.remaining_packets != request.remaining_packets
            && !tolerates_remaining_mismatch(self.command_class, self.command_id) {
            Err(RazerError::ResponseMismatch)
        } else if self.status == STATUS_SUCCESSFUL {
            Ok(self)
        } else if self.status == STATUS_NOT_SUPPORTED {
            Err(RazerError::CommandNotSupported)
        } else if self.status == STATUS_BUSY {
            Err(RazerError::DeviceBusy)
        } else if self.status == STATUS_FAILURE {
            Err(RazerError::CommandFailed)
        } else if self.status == STATUS_TIMEOUT {
            Err(RazerError::CommandTimeout)
        } else {
            Err(RazerError::UnknownStatus(self.status))
        }
    }

    /// A fresh request packet for `command` with `args`, as `new` builds it
    /// (its `id` is free).
    pub open spec fn is_request_for(&self, command: u16, args: Seq<u8>) -> bool {
        &&& self.status == STATUS_NEW
        &&& self.remaining_packets == 0
        &&& self.protocol_type == 0
        &&& self.data_size as int == args.len()
        &&& self.command_class == (command >> 8) as u8
        &&& self.command_id == (command & 0xff) as u8
        &&& self.args@ == args + Seq::new((80 - args.len()) as nat, |i: int| 0u8)
        &&& self.reserved == 0
        &&& self.crc == self.crc_spec()
    }

    /// Builds a request packet; fails when `args` does not fit the buffer.
    pub fn new(command: u16, args: &[u8]) -> (r: Result<Packet, RazerError>)
        ensures
            args@.len() > 80 ==> r == Err::<Packet, RazerError>(
                RazerError::InvalidDataSize { expected: 80, actual: args@.len() as usize },
            ),
            args@.len() <= 80 ==> r is Ok && r->Ok_0.is_request_for(command, args@)
                && r->Ok_0.wf(),
    {
        if args.len() > ARGS_SIZE {
            return Err(RazerError::InvalidDataSize { expected: ARGS_SIZE, actual: args.len() });
        }
        let mut buffer = [0u8; 80];
        let n = args.len();
        let mut i: usize = 0;
        while i < n
            invariant
                n == args@.len(),
                n <= 80,
                i <= n,
                forall|j: int| 0 <= j < i ==> buffer@[j] == args@[j],
                forall|j: int| i <= j < 80 ==> buffer@[j] == 0,
            decreases n - i,
        {
            buffer[i] = args[i];
            i = i + 1;
        }
        assert(command >> 8 <= 255 && command & 0xff <= 255) by (bit_vector);
        let mut packet = Packet {
            status: STATUS_NEW,
            id: random_id(),
            remaining_packets: 0,
            protocol_type: 0,
            data_size: n as u8,
            command_class: (command >> 8) as u8,
            command_id: (command & 0xff) as u8,
            args: buffer,
            crc: 0,
            reserved: 0,
        };
        assert(packet.args@ =~= args@ + Seq::new((80 - n) as nat, |i: int| 0u8));
        let crc = packet.calculate_crc();
        let ghost before = packet;
        packet.crc = crc;
        assert(packet.serialize().subrange(2, 88) =~= before.serialize().subrange(2, 88));
        Ok(packet)
    }

    /// The wire form of the packet.
    pub fn to_bytes(&self) -> (r: Vec<u8>)
        ensures
            r@ == self.serialize(),
            r@.len() == PACKET_SIZE,
    {
        let mut out: Vec<u8> = Vec::new();
        out.push(self.status);
        out.push(self.id);
        out.push((self.remaining_packets & 0xff) as u8);
        out.push((self.remaining_packets >> 8) as u8);
        out.push(self.protocol_type);
        out.push(self.data_size);
        out.push(self.command_class);
        out.push(self.command_id);
        let mut i: usize = 0;
        while i < ARGS_SIZE
            invariant
                i <= 80,
                out@ == self.serialize().subrange(0, 8 + i),
            decreases 80 - i,
        {
            out.push(self.args[i]);
            i = i + 1;
            assert(out@ =~= self.serialize().subrange(0, 8 + i));
        }
        out.push(self.crc);
        out.push(self.reserved);
        assert(out@ =~= self.serialize());
        out
    }

    /// XOR of bytes 2..88 of the packet's wire form.
    pub fn calculate_crc(&self) -> (r: u8)
        ensures
            r == self.crc_spec(),
    {
        let bytes = self.to_bytes();
        let mut crc: u8 = 0;
        let mut i: usize = 2;
        assert(bytes@.subrange(2, 2) =~= Seq::<u8>::empty());
        while i < 88
            invariant
                2 <= i <= 88,
                bytes@ == self.serialize(),
                bytes@.len() == 90,
                crc == xor_all(bytes@.subrange(2, i as int)),
            decreases 88 - i,
        {
            assert(bytes@.subrange(2, i + 1).drop_last() =~= bytes@.subrange(2, i as int));
            crc = crc ^ bytes[i];
            i = i + 1;
        }
        crc
    }

    /// Reads a packet from its wire form; fails unless `data` holds exactly
    /// 90 bytes that declare at most 80 argument bytes.
    pub fn from_bytes(data: &[u8]) -> (r: Result<Packet, RazerError>)
        ensures
            data@.len() != PACKET_SIZE ==> r == Err::<Packet, RazerError>(
                RazerError::InvalidDataSize { expected: PACKET_SIZE, actual: data@.len() as usize },
            ),
            data@.len() == PACKET_SIZE && data@[5] > 80 ==> r == Err::<Packet, RazerError>(
                RazerError::InvalidDataSize { expected: ARGS_SIZE, actual: data@[5] as usize },
            ),
            data@.len() == PACKET_SIZE && data@[5] <= 80 ==> r == Ok::<Packet, RazerError>(
                Packet::parse(data@),
            ) && Packet::parse(data@).serialize() == data@ && Packet::parse(data@).wf(),
    {
        if data.len() != PACKET_SIZE {
            return Err(RazerError::InvalidDataSize { expected: PACKET_SIZE, actual: data.len() });
        }
        if data[5] > 80 {
            return Err(RazerError::InvalidDataSize { expected: ARGS_SIZE, actual: data[5] as usize });
        }
        let mut args = [0u8; 80];
        let mut i: usize = 0;
        while i < ARGS_SIZE
            invariant
                i <= 80,
                data@.len() == 90,
                forall|j: int| 0 <= j < i ==> args@[j] == data@[8 + j],
            decreases 80 - i,
        {
            args[i] = data[8 + i];
            i = i + 1;
        }
        let lo = data[2];
        let hi = data[3];
        let remaining_packets = (lo as u16) | ((hi as u16) << 8);
        assert(((lo as u16) | ((hi as u16) << 8)) & 0xff == lo as u16 && (((lo as u16) | ((
        hi as u16) << 8)) >> 8) == hi as u16) by (bit_vector);
        let packet = Packet {
            status: data[0],
            id: data[1],
            remaining_packets,
            protocol_type: data[4],
            data_size: data[5],
            command_class: data[6],
            command_id: data[7],
            args,
            crc: data[88],
            reserved: data[89],
        };
        assert(packet.serialize() =~= data@);
        proof {
            Packet::lemma_serialize_injective(packet, Packet::parse(data@));
        }
        Ok(packet)
    }

    /// Reads a packet from its wire form (see `from_bytes`).
    pub fn try_from(data: &[u8]) -> (r: Result<Packet, RazerError>)
        ensures
            data@.len() != PACKET_SIZE ==> r == Err::<Packet, RazerError>(
                RazerError::InvalidDataSize { expected: PACKET_SIZE, actual: data@.len() as usize },
            ),
            data@.len() == PACKET_SIZE && data@[5] > 80 ==> r == Err::<Packet, RazerError>(
                RazerError::InvalidDataSize { expected: ARGS_SIZE, actual: data@[5] as usize },
            ),
            data@.len() == PACKET_SIZE && data@[5] <= 80 ==> r == Ok::<Packet, RazerError>(
                Packet::parse(data@),
            ) && Packet::parse(data@).serialize() == data@ && Packet::parse(data@).wf(),
    {
        Packet::from_bytes(data)
    }

    /// Two packets with the same wire form are the same packet.
    pub proof fn lemma_serialize_injective(p: Packet, q: Packet)
        requires
            p.serialize() == q.serialize(),
        ensures
            p == q,
    {
        let (a, b) = (p.serialize(), q.serialize());
        assert(a[2] == b[2] && a[3] == b[3]);
        let (x, y) = (p.remaining_packets, q.remaining_packets);
        assert((x & 0xff) as u8 == (y & 0xff) as u8 && (x >> 8) as u8 == (y >> 8) as u8 ==> x
            == y) by (bit_vector);
        assert forall|j: int| 0 <= j < 80 implies p.args@[j] == q.args@[j] by {
            assert(a[8 + j] == b[8 + j]);
        }
        assert(p.args =~= q.args);
        assert(a[0] == b[0] && a[1] == b[1] && a[4] == b[4] && a[5] == b[5] && a[6] == b[6]
            && a[7] == b[7] && a[88] == b[88] && a[89] == b[89]);
    }

    /// Checks that this response answers `request` (see `validated`).
    pub fn ensure_matches_report(self, report: &Packet) -> (r: Result<Packet, RazerError>)
        ensures
            r == self.validated(*report),
    {
        if report.command_class != self.command_class || report.command_id != self.command_id
            || report.id != self.id {
            return Err(RazerError::ResponseMismatch);
        }
        let tolerant = self.command_class == 0x07 && (self.command_id == 0x92 || self.command_id
            == 0x8f);
        if self.remaining_packets != report.remaining_packets && !tolerant {
            return Err(RazerError::ResponseMismatch);
        }
        match self.status {
            STATUS_SUCCESSFUL => Ok(self),
            STATUS_NOT_SUPPORTED => Err(RazerError::CommandNotSupported),
            STATUS_BUSY => Err(RazerError::DeviceBusy),
            STATUS_FAILURE => Err(RazerError::CommandFailed),
            STATUS_TIMEOUT => Err(RazerError::CommandTimeout),
            s => Err(RazerError::UnknownStatus(s)),
        }
    }

    /// The feature report that carries this packet: a zero report id, then
    /// the packet's wire form.
    pub fn to_report(&self) -> (r: Vec<u8>)
        ensures
            r@ == seq![0u8] + self.serialize(),
            r@.len() == REPORT_SIZE,
    {
        let bytes = self.to_bytes();
        let mut out: Vec<u8> = Vec::new();
        out.push(0u8);
        let mut i: usize = 0;
        while i < PACKET_SIZE
            invariant
                i <= 90,
                bytes@.len() == 90,
                out@ == seq![0u8] + bytes@.subrange(0, i as int),
            decreases 90 - i,
        {
            out.push(bytes[i]);
            i = i + 1;
            assert(out@ =~= seq![0u8] + bytes@.subrange(0, i as int));
        }
        assert(bytes@.subrange(0, 90) =~= bytes@);
        out
    }

    /// The first `data_size` argument bytes.
    pub fn get_args(&self) -> (r: &[u8])
        requires
            self.wf(),
        ensures
            r@ == self.args_used(),
    {
        slice_subrange(self.args.as_slice(), 0, self.data_size as usize)
    }
}

/// A request built by `new` serializes to exactly 90 bytes that
/// `from_bytes` accepts, and reading them back gives a packet with the same
/// command, the same `data_size` and the same meaningful arguments.
pub proof fn lemma_request_round_trip(command: u16, args: Seq<u8>, p: Packet)
    requires
        args.len() <= 80,
        p.is_request_for(command, args),
    ensures
        p.serialize().len() == PACKET_SIZE,
        p.serialize()[5] <= 80,
        Packet::parse(p.serialize()) == p,
        Packet::parse(p.serialize()).command_class == (command >> 8) as u8,
        Packet::parse(p.serialize()).command_id == (command & 0xff) as u8,
        Packet::parse(p.serialize()).data_size as int == args.len(),
        Packet::parse(p.serialize()).args_used() == args,
{
    let q = Packet::parse(p.serialize());
    assert(p.serialize()[5] == p.data_size);
    Packet::lemma_serialize_injective(p, q);
    assert(p.args_used() =~= args);
}

/// The checksum of a request built by `new` is the XOR of bytes 2..88 of
/// its wire form, and it stands at byte 88.
pub proof fn lemma_request_crc(command: u16, args: Seq<u8>, p: Packet)
    requires
        args.len() <= 80,
        p.is_request_for(command, args),
    ensures
        p.crc == xor_all(p.serialize().subrange(2, 88)),
        p.serialize()[88] == p.crc,
{
}

/// A response under another id than its request is a mismatch.
pub proof fn lemma_other_id_mismatch(response: Packet, request: Packet)
    requires
        response.id != request.id,
    ensures
        response.validated(request) == Err::<Packet, RazerError>(RazerError::ResponseMismatch),
{
}

/// A matching response with status 0x05 means the command is not supported.
pub proof fn lemma_not_supported_status(response: Packet, request: Packet)
    requires
        response.command_class == request.command_class,
        response.command_id == request.command_id,
        response.id == request.id,
        response.remaining_packets == request.remaining_packets,
        response.status == 0x05,
    ensures
        response.validated(request) == Err::<Packet, RazerError>(RazerError::CommandNotSupported),
{
}

/// A response whose `remaining_packets` differs from its request's is a
/// mismatch, except for commands 0x0792 and 0x078f, where the difference is
/// tolerated and the status alone decides.
pub proof fn lemma_remaining_packets_mismatch(response: Packet, request: Packet)
    requires
        response.command_class == request.command_class,
        response.command_id == request.command_id,
        response.id == request.id,
        response.remaining_packets != request.remaining_packets,
    ensures
        response.command() != 0x0792 && response.command() != 0x078f ==> response.validated(
            request,
        ) == Err::<Packet, RazerError>(RazerError::ResponseMismatch),
        response.command() == 0x0792 || response.command() == 0x078f ==> response.validated(
            request,
        ) != Err::<Packet, RazerError>(RazerError::ResponseMismatch),
        (response.command() == 0x0792 || response.command() == 0x078f) && response.status
            == STATUS_SUCCESSFUL ==> response.validated(request) == Ok::<Packet, RazerError>(
            response,
        ),
{
}

} // verus!
