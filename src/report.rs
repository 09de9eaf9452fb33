use vstd::prelude::*;
use crate::protocol::{ARGUMENTS_SIZE, REPORT_SIZE};

verus! {

/// The outcome or request marker that opens every report.
#[derive(Clone, Copy, Debug, PartialEq, Eq, Structural)]
pub enum ReportStatus {
    NewCommand,
    Busy,
    Success,
    Failure,
    Timeout,
    Unsupported,
}

/// A status byte outside the six known codes.
#[derive(Clone, Copy, Debug, PartialEq, Eq, Structural)]
pub struct InvalidReportStatusError {
    pub invalid_byte: u8,
}

impl ReportStatus {
    /// The byte that stands for the status on the wire.
    pub open spec fn byte_spec(self) -> u8 {
        match self {
            ReportStatus::NewCommand => 0x00,
            ReportStatus::Busy => 0x01,
            ReportStatus::Success => 0x02,
            ReportStatus::Failure => 0x03,
            ReportStatus::Timeout => 0x04,
            ReportStatus::Unsupported => 0x05,
        }
    }

    /// The status that a byte stands for, if any.
    pub open spec fn from_byte_spec(b: u8) -> Option<ReportStatus> {
        if b == 0x00 {
            Some(ReportStatus::NewCommand)
        } else if b == 0x01 {
            Some(ReportStatus::Busy)
        } else if b == 0x02 {
            Some(ReportStatus::Success)
        } else if b == 0x03 {
            Some(ReportStatus::Failure)
        } else if b == 0x04 {
            Some(ReportStatus::Timeout)
        } else if b == 0x05 {
            Some(ReportStatus::Unsupported)
        } else {
            None
        }
    }

    pub fn to_byte(self) -> (r: u8)
        ensures
            r == self.byte_spec(),
    {
        match self {
            ReportStatus::NewCommand => 0x00,
            ReportStatus::Busy => 0x01,
            ReportStatus::Success => 0x02,
            ReportStatus::Failure => 0x03,
            ReportStatus::Timeout => 0x04,
            ReportStatus::Unsupported => 0x05,
        }
    }

    /// Reads a status byte; a byte outside the six codes is an error, never a default.
    pub fn try_from(value: u8) -> (r: Result<ReportStatus, InvalidReportStatusError>)
        ensures
            match ReportStatus::from_byte_spec(value) {
                Some(s) => r == Ok::<ReportStatus, InvalidReportStatusError>(s),
                None => r == Err::<ReportStatus, InvalidReportStatusError>(
                    InvalidReportStatusError { invalid_byte: value },
                ),
            },
    {
        match value {
            0x00 => Ok(ReportStatus::NewCommand),
            0x01 => Ok(ReportStatus::Busy),
            0x02 => Ok(ReportStatus::Success),
            0x03 => Ok(ReportStatus::Failure),
            0x04 => Ok(ReportStatus::Timeout),
            0x05 => Ok(ReportStatus::Unsupported),
            _ => Err(InvalidReportStatusError { invalid_byte: value }),
        }
    }
}

/// Why a byte buffer is not a report.
#[derive(Clone, Copy, Debug, PartialEq, Eq, Structural)]
pub enum ReportParseError {
    /// The buffer does not hold exactly `REPORT_SIZE` bytes.
    WrongSize { actual: usize },
    /// The status byte is none of the known codes.
    InvalidStatus { invalid_byte: u8 },
}

/// The fields of a report, as mathematical values.
pub struct ReportView {
    pub status: ReportStatus,
    pub transaction_id: u8,
    pub remaining_packets: u16,
    pub protocol_type: u8,
    pub data_size: u8,
    pub command_class: u8,
    pub command_id: u8,
    pub arguments: Seq<u8>,
    pub crc: u8,
    pub reserved: u8,
}

impl ReportView {
    pub open spec fn wf(self) -> bool {
        self.arguments.len() == ARGUMENTS_SIZE
    }

    /// The first 88 bytes of the layout: every field before the checksum.
    pub open spec fn body(self) -> Seq<u8> {
        seq![
            self.status.byte_spec(),
            self.transaction_id,
            (self.remaining_packets / 256) as u8,
            (self.remaining_packets % 256) as u8,
            self.protocol_type,
            self.data_size,
            self.command_class,
            self.command_id,
        ] + self.arguments
    }

    /// The checksum that encoding writes: the XOR of offsets 2 to 87.
    pub open spec fn checksum(self) -> u8 {
        xor_all(self.body().subrange(2, 88))
    }
}

/// XOR of all the bytes of a sequence.
pub open spec fn xor_all(s: Seq<u8>) -> u8
    decreases s.len(),
{
    if s.len() == 0 {
        0
    } else {
        xor_all(s.drop_last()) ^ s.last()
    }
}

/// The 90 bytes that encode a report, with its checksum recomputed.
pub open spec fn encode_spec(v: ReportView) -> Seq<u8> {
    v.body() + seq![v.checksum(), v.reserved]
}

/// The report that 90 bytes decode to; the checksum is kept as it stands.
pub open spec fn decode_spec(bytes: Seq<u8>) -> Result<ReportView, ReportParseError> {
    if bytes.len() != REPORT_SIZE {
        Err(ReportParseError::WrongSize { actual: bytes.len() as usize })
    } else {
        match ReportStatus::from_byte_spec(bytes[0]) {
            None => Err(ReportParseError::InvalidStatus { invalid_byte: bytes[0] }),
            Some(status) => Ok(
                ReportView {
                    status,
                    transaction_id: bytes[1],
                    remaining_packets: (bytes[2] * 256 + bytes[3]) as u16,
                    protocol_type: bytes[4],
                    data_size: bytes[5],
                    command_class: bytes[6],
                    command_id: bytes[7],
                    arguments: bytes.subrange(8, 88),
                    crc: bytes[88],
                    reserved: bytes[89],
                },
            ),
        }
    }
}

/// Decoding what encoding wrote gives back every field of the report; only the
/// checksum is the one that encoding computed.
pub proof fn lemma_round_trip(v: ReportView)
    requires
        v.wf(),
    ensures
        decode_spec(encode_spec(v)) == Ok::<ReportView, ReportParseError>(
            ReportView { crc: v.checksum(), ..v },
        ),
{
    let bytes = encode_spec(v);
    assert(bytes.subrange(8, 88) =~= v.arguments);
    let rp = v.remaining_packets;
    assert((rp / 256) as u8 * 256 + (rp % 256) as u8 == rp);
    match v.status {
        ReportStatus::NewCommand => {},
        ReportStatus::Busy => {},
        ReportStatus::Success => {},
        ReportStatus::Failure => {},
        ReportStatus::Timeout => {},
        ReportStatus::Unsupported => {},
    }
}

/// The checksum byte of an encoding is the XOR of its bytes at offsets 2 to 87,
/// so two reports that differ in `reserved` alone get the same checksum.
pub proof fn lemma_checksum_determinism(a: ReportView, b: ReportView)
    requires
        a.wf(),
        b.wf(),
        a == (ReportView { reserved: a.reserved, ..b }),
    ensures
        encode_spec(a)[88] == xor_all(encode_spec(a).subrange(2, 88)),
        encode_spec(a)[88] == encode_spec(b)[88],
{
    assert(encode_spec(a).subrange(2, 88) =~= a.body().subrange(2, 88));
    assert(a.body() =~= b.body());
}

/// Bytes whose status byte is none of the six codes are refused, naming that byte.
pub proof fn lemma_rejects_unknown_status(bytes: Seq<u8>)
    requires
        bytes.len() == REPORT_SIZE,
        bytes[0] > 0x05,
    ensures
        decode_spec(bytes) == Err::<ReportView, ReportParseError>(
            ReportParseError::InvalidStatus { invalid_byte: bytes[0] },
        ),
{
}

/// Bytes of any length but `REPORT_SIZE` are refused.
pub proof fn lemma_rejects_wrong_size(bytes: Seq<u8>)
    requires
        bytes.len() != REPORT_SIZE,
    ensures
        decode_spec(bytes) == Err::<ReportView, ReportParseError>(
            ReportParseError::WrongSize { actual: bytes.len() as usize },
        ),
{
}

/// One report of the protocol.
#[derive(Clone, Debug)]
pub struct RazerReport {
    pub status: ReportStatus,
    pub transaction_id: u8,
    pub remaining_packets: u16,
    pub protocol_type: u8,
    pub data_size: u8,
    pub command_class: u8,
    pub command_id: u8,
    pub arguments: Vec<u8>,
    pub crc: u8,
    pub reserved: u8,
}

impl View for RazerReport {
    type V = ReportView;

    open spec fn view(&self) -> ReportView {
        ReportView {
            status: self.status,
            transaction_id: self.transaction_id,
            remaining_packets: self.remaining_packets,
            protocol_type: self.protocol_type,
            data_size: self.data_size,
            command_class: self.command_class,
            command_id: self.command_id,
            arguments: self.arguments@,
            crc: self.crc,
            reserved: self.reserved,
        }
    }
}

impl RazerReport {
    /// The arguments hold exactly `ARGUMENTS_SIZE` bytes.
    pub open spec fn wf(&self) -> bool {
        self@.wf()
    }

    /// Encodes the report into its 90 bytes, with the checksum recomputed.
    pub fn to_bytes(&self) -> (r: Vec<u8>)
        requires
            self.wf(),
        ensures
            r@ == encode_spec(self@),
    {
        let mut buffer: Vec<u8> = Vec::new();
        buffer.push(self.status.to_byte());
        buffer.push(self.transaction_id);
        buffer.push((self.remaining_packets / 256) as u8);
        buffer.push((self.remaining_packets % 256) as u8);
        buffer.push(self.protocol_type);
        buffer.push(self.data_size);
        buffer.push(self.command_class);
        buffer.push(self.command_id);
        let ghost head = buffer@;
        let mut i: usize = 0;
        while i < ARGUMENTS_SIZE
            invariant
                self.wf(),
                i <= ARGUMENTS_SIZE,
                buffer@ == head + self.arguments@.subrange(0, i as int),
            decreases ARGUMENTS_SIZE - i,
        {
            buffer.push(self.arguments[i]);
            i = i + 1;
            assert(self.arguments@.subrange(0, i as int)
                =~= self.arguments@.subrange(0, i - 1) + seq![self.arguments@[i - 1]]);
        }
        assert(buffer@ =~= self@.body());
        let mut checksum: u8 = 0;
        let mut j: usize = 2;
        while j < 88
            invariant
                2 <= j <= 88,
                buffer@ == self@.body(),
                buffer@.len() == 88,
                checksum == xor_all(buffer@.subrange(2, j as int)),
            decreases 88 - j,
        {
            assert(buffer@.subrange(2, j + 1).drop_last() =~= buffer@.subrange(2, j as int));
            checksum = checksum ^ buffer[j];
            j = j + 1;
        }
        buffer.push(checksum);
        buffer.push(self.reserved);
        assert(buffer@ =~= encode_spec(self@));
        buffer
    }

    /// Decodes 90 bytes into a report; the checksum is kept, not checked.
    pub fn try_from(bytes: &[u8]) -> (r: Result<RazerReport, ReportParseError>)
        ensures
            match (r, decode_spec(bytes@)) {
                (Ok(rep), Ok(v)) => rep@ == v && rep.wf(),
                (Err(e), Err(f)) => e == f,
                _ => false,
            },
    {
        if bytes.len() != REPORT_SIZE {
            return Err(ReportParseError::WrongSize { actual: bytes.len() });
        }
        let status = match ReportStatus::try_from(bytes[0]) {
            Ok(s) => s,
            Err(e) => {
                return Err(ReportParseError::InvalidStatus { invalid_byte: e.invalid_byte });
            },
        };
        let remaining_packets: u16 = (bytes[2] as u16) * 256 + bytes[3] as u16;
        let mut arguments: Vec<u8> = Vec::new();
        let mut i: usize = 8;
        while i < 88
            invariant
                bytes@.len() == REPORT_SIZE,
                8 <= i <= 88,
                arguments@ == bytes@.subrange(8, i as int),
            decreases 88 - i,
        {
            arguments.push(bytes[i]);
            i = i + 1;
            assert(arguments@ =~= bytes@.subrange(8, i as int));
        }
        let report = RazerReport {
            status,
            transaction_id: bytes[1],
            remaining_packets,
            protocol_type: bytes[4],
            data_size: bytes[5],
            command_class: bytes[6],
            command_id: bytes[7],
            arguments,
            crc: bytes[88],
            reserved: bytes[89],
        };
        Ok(report)
    }
}

} // verus!
