//! Dispatch of one Modbus TCP request against the register table, as the
//! network poll loop performs it once per iteration. The wire format is
//! consumed through rmodbus, never reimplemented: parsing, table processing
//! and response finalization run behind trusted wrappers, and the verified
//! dispatch decides, from the parsed flags, what runs and what is sent back.

use vstd::prelude::*;

use crate::MODBUS_UNIT_ID;
use crate::registers::RegisterBank;

verus! {

/// What `ModbusFrame::parse` reports of a request, as a function of the raw
/// bytes alone: whether table processing is required, whether the access is
/// read-only, and whether a response is owed.
pub uninterp spec fn frame_flags(request: Seq<u8>) -> (bool, bool, bool);

/// Whether the request asks for any table access at all.
pub open spec fn processing_required_of(request: Seq<u8>) -> bool {
    frame_flags(request).0
}

/// Whether the requested table access is read-only.
pub open spec fn readonly_of(request: Seq<u8>) -> bool {
    frame_flags(request).1
}

/// Whether the client is owed a response to the request.
pub open spec fn response_required_of(request: Seq<u8>) -> bool {
    frame_flags(request).2
}

/// The finalized reply to a read-only request, as a function of the request
/// bytes and the table contents; `None` where rmodbus reports a processing or
/// finalization fault instead of producing a reply.
pub uninterp spec fn read_reply(
    request: Seq<u8>,
    coils: Seq<bool>,
    discretes: Seq<bool>,
    inputs: Seq<u16>,
    holdings: Seq<u16>,
) -> Option<Seq<u8>>;

/// The outcome of a write request: the finalized reply (`None` on a fault)
/// and the new coil and holding-register contents. A write request touches no
/// discrete input and no input register.
pub uninterp spec fn write_outcome(request: Seq<u8>, coils: Seq<bool>, holdings: Seq<u16>) -> (
    Option<Seq<u8>>,
    Seq<bool>,
    Seq<u16>,
);

/// The bytes a reply carries, if one was produced.
pub open spec fn opt_bytes(r: Option<Vec<u8>>) -> Option<Seq<u8>> {
    match r {
        Some(v) => Some(v@),
        None => None,
    }
}

/// The byte-count bounds rmodbus's table processing takes for granted.
///
/// `parse` length-checks the head of a frame, but processing and
/// finalization do not re-check everything they touch: processing reads the
/// unit and function bytes of the frame, finalizing an error reply adds the
/// exception marker `0x80` to the function code, and a bulk write (function
/// 15 or 16) slices as many data bytes after the eighth frame byte as the
/// request itself declares. A request inside these bounds can be handed to
/// them; one outside is malformed and is dropped without a response, like
/// any other frame that does not carry what it announces.
pub open spec fn request_in_bounds(request: Seq<u8>) -> bool {
    &&& request.len() >= 8
    &&& request[7] < 0x80
    &&& ((request[7] == 15 || request[7] == 16) ==> request.len() >= 13 && 13 + request[12]
        <= request.len())
}

/// Whether the request lies inside [`request_in_bounds`].
fn check_request_bounds(request: &Vec<u8>) -> (r: bool)
    ensures
        r == request_in_bounds(request@),
{
    if request.len() < 8 {
        return false;
    }
    let func = request[7];
    if func >= 0x80 {
        return false;
    }
    if func == 15 || func == 16 {
        if request.len() < 13 {
            return false;
        }
        let declared = request[12] as usize;
        if 13 + declared > request.len() {
            return false;
        }
    }
    true
}

/// Relies on rmodbus's `ModbusFrame::parse`: with a fixed unit identifier and
/// TCP framing, the three dispatch flags are a function of the request bytes
/// alone. A request that cannot be parsed asks for no processing and no
/// response (the read-only flag merely keeps its initial value, true).
#[verifier::external_body]
fn parse_flags(request: &Vec<u8>) -> (r: (bool, bool, bool))
    ensures
        r == frame_flags(request@),
{
    let mut reply: Vec<u8> = Vec::new();
    let proto = rmodbus::ModbusProto::TcpUdp;
    let mut frame =
        rmodbus::server::ModbusFrame::new(MODBUS_UNIT_ID, request.as_slice(), proto, &mut reply);
    let _ = frame.parse();
    (frame.processing_required, frame.readonly, frame.response_required)
}

/// Relies on rmodbus's `ModbusFrame::parse`, `process_read` and
/// `finalize_response`: a read-only request leaves the table as it is and the
/// finalized reply is a function of the request bytes and the table contents.
/// The frame is rebuilt and reparsed from the same bytes here; parsing is
/// deterministic, so the flags the dispatcher acted on hold of this frame too.
/// The precondition keeps out the request shapes on which processing or
/// finalization would panic instead of failing (see [`request_in_bounds`]).
#[verifier::external_body]
fn run_read(bank: &RegisterBank, request: &Vec<u8>) -> (r: Option<Vec<u8>>)
    requires
        request_in_bounds(request@),
    ensures
        opt_bytes(r) == read_reply(
            request@,
            bank.coils(),
            bank.discrete_inputs(),
            bank.input_registers(),
            bank.holding_registers(),
        ),
{
    let mut reply: Vec<u8> = Vec::new();
    let proto = rmodbus::ModbusProto::TcpUdp;
    let mut frame =
        rmodbus::server::ModbusFrame::new(MODBUS_UNIT_ID, request.as_slice(), proto, &mut reply);
    if frame.parse().is_err() {
        return None;
    }
    if frame.process_read(&bank.storage).is_err() {
        return None;
    }
    if frame.finalize_response().is_err() {
        return None;
    }
    Some(reply)
}

/// Relies on rmodbus's `ModbusFrame::parse`, `process_write` and
/// `finalize_response`: a write request changes only coils and holding
/// registers, each table keeps its size, and the reply and the new contents
/// are a function of the request bytes and the old contents. As in `run_read`,
/// the frame is rebuilt and reparsed deterministically from the same bytes,
/// and the precondition keeps out the request shapes on which processing
/// would panic: a bulk write slices as many data bytes as the request
/// declares without re-checking the buffer (see [`request_in_bounds`]).
#[verifier::external_body]
fn run_write(bank: &mut RegisterBank, request: &Vec<u8>) -> (r: Option<Vec<u8>>)
    requires
        request_in_bounds(request@),
    ensures
        ({
            let (reply, new_coils, new_holdings) = write_outcome(
                request@,
                old(bank).coils(),
                old(bank).holding_registers(),
            );
            &&& opt_bytes(r) == reply
            &&& final(bank).coils() == new_coils
            &&& final(bank).holding_registers() == new_holdings
        }),
        final(bank).discrete_inputs() == old(bank).discrete_inputs(),
        final(bank).input_registers() == old(bank).input_registers(),
        final(bank).coils().len() == old(bank).coils().len(),
        final(bank).holding_registers().len() == old(bank).holding_registers().len(),
{
    let mut reply: Vec<u8> = Vec::new();
    let proto = rmodbus::ModbusProto::TcpUdp;
    let mut frame =
        rmodbus::server::ModbusFrame::new(MODBUS_UNIT_ID, request.as_slice(), proto, &mut reply);
    if frame.parse().is_err() {
        return None;
    }
    if frame.process_write(&mut bank.storage).is_err() {
        return None;
    }
    if frame.finalize_response().is_err() {
        return None;
    }
    Some(reply)
}

/// Serve one raw Modbus request against the register table.
///
/// Mirrors one iteration of the network poll loop: parse the frame; if no
/// table processing is required (a parse failure, a foreign unit identifier
/// or an unsupported function), nothing runs and nothing is sent; a frame
/// whose declared contents overrun the bytes that actually arrived (see
/// [`request_in_bounds`]) is likewise dropped without a response; otherwise
/// the table access runs, read-only or read-write as decoded, and the
/// finalized reply is returned only where a response is owed. `None` means no
/// bytes go back to the client, which must time out and retry.
pub fn serve_request(bank: &mut RegisterBank, request: &Vec<u8>) -> (r: Option<Vec<u8>>)
    requires
        old(bank).wf(),
    ensures
        final(bank).wf(),
        !processing_required_of(request@) ==> r is None && *final(bank) == *old(bank),
        processing_required_of(request@) && !request_in_bounds(request@) ==> r is None
            && *final(bank) == *old(bank),
        processing_required_of(request@) && request_in_bounds(request@) && readonly_of(request@)
            ==> *final(bank) == *old(bank) && opt_bytes(r) == (if response_required_of(request@) {
            read_reply(
                request@,
                old(bank).coils(),
                old(bank).discrete_inputs(),
                old(bank).input_registers(),
                old(bank).holding_registers(),
            )
        } else {
            None::<Seq<u8>>
        }),
        processing_required_of(request@) && request_in_bounds(request@) && !readonly_of(request@)
            ==> ({
            let (reply, new_coils, new_holdings) = write_outcome(
                request@,
                old(bank).coils(),
                old(bank).holding_registers(),
            );
            &&& final(bank).coils() == new_coils
            &&& final(bank).holding_registers() == new_holdings
            &&& final(bank).discrete_inputs() == old(bank).discrete_inputs()
            &&& final(bank).input_registers() == old(bank).input_registers()
            &&& opt_bytes(r) == (if response_required_of(request@) {
                reply
            } else {
                None::<Seq<u8>>
            })
        }),
{
    let (processing_required, readonly, response_required) = parse_flags(request);
    if !processing_required {
        return None;
    }
    if !check_request_bounds(request) {
        return None;
    }
    let reply = if readonly {
        run_read(bank, request)
    } else {
        run_write(bank, request)
    };
    if response_required {
        reply
    } else {
        None
    }
}

} // verus!
