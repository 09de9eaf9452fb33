use vstd::prelude::*;
use crate::protocol::{
    RazerCommand, ARGUMENTS_SIZE, COMMAND_CLASS_MISC, REPORT_INDEX, REPORT_SIZE, TRANSACTION_ID,
    WIRE_SIZE,
};
use crate::report::{decode_spec, encode_spec, RazerReport, ReportParseError, ReportStatus, ReportView};

verus! {

/// Why the response of one transaction is refused.
#[derive(Clone, Copy, Debug, PartialEq, Eq, Structural)]
pub enum ResponseError {
    /// The read returned fewer bytes than a whole report.
    ShortResponse,
    /// The response carries another transaction id than the request.
    TransactionMismatch,
    /// The response bytes are not a report.
    MalformedReport(ReportParseError),
}

/// The request of a command: a new command with no arguments.
pub open spec fn request_spec(cmd: RazerCommand) -> ReportView {
    ReportView {
        status: ReportStatus::NewCommand,
        transaction_id: TRANSACTION_ID,
        remaining_packets: 0,
        protocol_type: 0,
        data_size: 0,
        command_class: COMMAND_CLASS_MISC,
        command_id: cmd.id_spec(),
        arguments: Seq::new(ARGUMENTS_SIZE as nat, |i: int| 0u8),
        crc: 0,
        reserved: 0,
    }
}

/// The feature report written for a command: the report index, then the encoded request.
pub open spec fn request_wire_spec(cmd: RazerCommand) -> Seq<u8> {
    seq![REPORT_INDEX] + encode_spec(request_spec(cmd))
}

/// What a transaction yields from the buffer read back and the count of bytes read.
pub open spec fn response_spec(buf: Seq<u8>, len: usize) -> Result<ReportView, ResponseError> {
    if len < REPORT_SIZE {
        Err(ResponseError::ShortResponse)
    } else if buf[2] != TRANSACTION_ID {
        Err(ResponseError::TransactionMismatch)
    } else {
        match decode_spec(buf.subrange(1, WIRE_SIZE as int)) {
            Ok(v) => Ok(v),
            Err(e) => Err(ResponseError::MalformedReport(e)),
        }
    }
}

impl RazerReport {
    /// Builds the request report of a command.
    pub fn request(cmd: RazerCommand) -> (r: RazerReport)
        ensures
            r.wf(),
            r@ == request_spec(cmd),
    {
        let mut arguments: Vec<u8> = Vec::new();
        let mut i: usize = 0;
        while i < ARGUMENTS_SIZE
            invariant
                i <= ARGUMENTS_SIZE,
                arguments@.len() == i,
                forall|k: int| 0 <= k < i ==> arguments@[k] == 0u8,
            decreases ARGUMENTS_SIZE - i,
        {
            arguments.push(0u8);
            i = i + 1;
        }
        let r = RazerReport {
            status: ReportStatus::NewCommand,
            transaction_id: TRANSACTION_ID,
            remaining_packets: 0,
            protocol_type: 0,
            data_size: 0,
            command_class: COMMAND_CLASS_MISC,
            command_id: cmd.id(),
            arguments,
            crc: 0,
            reserved: 0,
        };
        assert(r@.arguments =~= request_spec(cmd).arguments);
        r
    }
}

/// The bytes to write as the feature report of a command.
pub fn request_buffer(cmd: RazerCommand) -> (r: Vec<u8>)
    ensures
        r@ == request_wire_spec(cmd),
        r@.len() == WIRE_SIZE,
{
    let report = RazerReport::request(cmd);
    let body = report.to_bytes();
    let mut buf: Vec<u8> = Vec::new();
    buf.push(REPORT_INDEX);
    let mut i: usize = 0;
    while i < body.len()
        invariant
            i <= body@.len(),
            body@ == encode_spec(request_spec(cmd)),
            buf@ == seq![REPORT_INDEX] + body@.subrange(0, i as int),
        decreases body@.len() - i,
    {
        buf.push(body[i]);
        i = i + 1;
        assert(body@.subrange(0, i as int) =~= body@.subrange(0, i - 1) + seq![body@[i - 1]]);
    }
    assert(body@.subrange(0, body@.len() as int) =~= body@);
    buf
}

/// A buffer to read a feature report into: the report index, then zeros.
pub fn response_buffer() -> (r: Vec<u8>)
    ensures
        r@.len() == WIRE_SIZE,
        r@[0] == REPORT_INDEX,
        forall|k: int| 1 <= k < WIRE_SIZE ==> r@[k] == 0u8,
{
    let mut buf: Vec<u8> = Vec::new();
    buf.push(REPORT_INDEX);
    let mut i: usize = 1;
    while i < WIRE_SIZE
        invariant
            1 <= i <= WIRE_SIZE,
            buf@.len() == i,
            buf@[0] == REPORT_INDEX,
            forall|k: int| 1 <= k < i ==> buf@[k] == 0u8,
        decreases WIRE_SIZE - i,
    {
        buf.push(0u8);
        i = i + 1;
    }
    buf
}

/// Checks and decodes the response of a transaction: `buf` is the feature report
/// read back and `len` the count of bytes that the read returned.
pub fn parse_response(buf: &[u8], len: usize) -> (r: Result<RazerReport, ResponseError>)
    requires
        buf@.len() == WIRE_SIZE,
    ensures
        match (r, response_spec(buf@, len)) {
            (Ok(rep), Ok(v)) => rep@ == v && rep.wf(),
            (Err(e), Err(f)) => e == f,
            _ => false,
        },
{
    if len < REPORT_SIZE {
        return Err(ResponseError::ShortResponse);
    }
    if buf[2] != TRANSACTION_ID {
        return Err(ResponseError::TransactionMismatch);
    }
    let mut payload: Vec<u8> = Vec::new();
    let mut i: usize = 1;
    while i < WIRE_SIZE
        invariant
            buf@.len() == WIRE_SIZE,
            1 <= i <= WIRE_SIZE,
            payload@ == buf@.subrange(1, i as int),
        decreases WIRE_SIZE - i,
    {
        payload.push(buf[i]);
        i = i + 1;
        assert(payload@ =~= buf@.subrange(1, i as int));
    }
    match RazerReport::try_from(payload.as_slice()) {
        Ok(rep) => Ok(rep),
        Err(e) => Err(ResponseError::MalformedReport(e)),
    }
}

} // verus!
