//! Frame decoding: the length prefix, the presence bits, the optional
//! header triplet, and the classified fault taxonomy.
//!
//! A frame is one length-prefixed byte unit: byte 0 holds the payload
//! byte count `L`, bytes `1..1+L` are the payload bit-stream.  The
//! payload starts with two presence bits (`gsf_null`, `header_null`);
//! when `header_null` is clear, a header triplet of variable-width
//! integers follows: flags, service class, opcode, request id.  The
//! remaining bits are the body and are not interpreted here.

use vstd::prelude::*;
use vstd::arithmetic::power2::lemma2_to64;
use crate::bits::{BitCursor, BitWriter, stream_bits, fits_signed};
use crate::varnum::{
    VarNumError, VarNumOutcome, spec_varnum, get_number, width_of_run, run_supported, wide_len,
    spec_varnum_encode_wide, write_varnum_wide, lemma_varnum_wide_roundtrip,
};
use crate::opcodes::{
    MessageType, ServiceClass, spec_service_class_from, spec_user_message_from,
    spec_sync_message_from, spec_client_message_from, service_class_from_code,
    user_message_from_code, sync_message_from_code, client_message_from_code,
};
use vstd::slice::{slice_index_get, slice_subrange};

verus! {

/// Stage of frame decoding at which the stream ran out.
#[derive(Debug, Clone, Copy, PartialEq, Eq, Structural)]
pub enum DecodeStage {
    /// The length prefix itself.
    Length,
    /// The two leading presence bits.
    Presence,
    /// The flags field of the header.
    Flags,
    /// The service-class field of the header.
    SvcClass,
    /// The opcode field of the header.
    Opcode,
    /// The request-id field of the header.
    RequestId,
}

/// The closed taxonomy of frame decode faults.
#[derive(Debug, Clone, Copy, PartialEq, Eq, Structural)]
pub enum DecodeError {
    /// The stream ran out at the named stage.
    Truncated(DecodeStage),
    /// The length prefix promises more payload than the buffer holds.
    LengthOverrun,
    /// A width indicator selected a width outside {4, 8, 16, 32, 64};
    /// carries that width, in bits.
    UnsupportedWidth(u32),
    /// A width indicator ran past the codec's byte cap.
    WidthExceedsMax,
    /// The service-class field matches no known class.
    UnknownServiceClass(i64),
    /// The opcode is not in the named class's table.
    UnknownOpcode(ServiceClass, i64),
    /// The Location service class is reserved and not decodable.
    Unimplemented,
}

/// The header triplet carried by a frame whose header-null bit is
/// clear.
#[derive(Debug, Clone, Copy, PartialEq, Eq)]
pub struct MessageHeader {
    pub flags: u32,
    pub message_type: MessageType,
    pub request_id: u32,
}

/// A decoded message.
#[derive(Debug, Clone, Copy, PartialEq, Eq)]
pub struct Message {
    /// The reserved leading presence bit; preserved but not otherwise
    /// interpreted.
    pub gsf_null: bool,
    /// The header triplet, absent when the header-null bit was set.
    pub header: Option<MessageHeader>,
}

/// Classify a (service class, opcode) pair against the canonical
/// tables.
pub open spec fn spec_message_type_of(sc: i64, op: i64) -> Result<MessageType, DecodeError> {
    match spec_service_class_from(sc) {
        Option::None => Result::Err(DecodeError::UnknownServiceClass(sc)),
        Option::Some(cls) => match cls {
            ServiceClass::UserServer => match spec_user_message_from(op) {
                Option::Some(m) => Result::Ok(MessageType::User(m)),
                Option::None => Result::Err(
                    DecodeError::UnknownOpcode(ServiceClass::UserServer, op),
                ),
            },
            ServiceClass::SyncServer => match spec_sync_message_from(op) {
                Option::Some(m) => Result::Ok(MessageType::Sync(m)),
                Option::None => Result::Err(
                    DecodeError::UnknownOpcode(ServiceClass::SyncServer, op),
                ),
            },
            ServiceClass::Client => match spec_client_message_from(op) {
                Option::Some(m) => Result::Ok(MessageType::Client(m)),
                Option::None => Result::Err(DecodeError::UnknownOpcode(ServiceClass::Client, op)),
            },
            ServiceClass::Location => Result::Err(DecodeError::Unimplemented),
        },
    }
}

/// Outcome of reading and classifying the (service class, opcode) pair
/// at a bit position (specification level).
pub enum TypeReadOutcome {
    /// The classified type and the bit position right after the opcode.
    Value { mt: MessageType, next: int },
    /// The classified fault.
    Fail { e: DecodeError },
}

/// Reading the service-class and opcode fields at bit `pos` and
/// classifying them.
pub open spec fn spec_read_message_type(bits: Seq<bool>, pos: int) -> TypeReadOutcome {
    match spec_varnum(bits, pos, 4) {
        VarNumOutcome::Eof => TypeReadOutcome::Fail {
            e: DecodeError::Truncated(DecodeStage::SvcClass),
        },
        VarNumOutcome::TooWide => TypeReadOutcome::Fail { e: DecodeError::WidthExceedsMax },
        VarNumOutcome::BadWidth { bits: b } => TypeReadOutcome::Fail {
            e: DecodeError::UnsupportedWidth(b as u32),
        },
        VarNumOutcome::Value { v: sc, next: p1 } => match spec_varnum(bits, p1, 4) {
            VarNumOutcome::Eof => TypeReadOutcome::Fail {
                e: DecodeError::Truncated(DecodeStage::Opcode),
            },
            VarNumOutcome::TooWide => TypeReadOutcome::Fail { e: DecodeError::WidthExceedsMax },
            VarNumOutcome::BadWidth { bits: b } => TypeReadOutcome::Fail {
                e: DecodeError::UnsupportedWidth(b as u32),
            },
            VarNumOutcome::Value { v: op, next: p2 } => match spec_message_type_of(sc, op) {
                Result::Ok(mt) => TypeReadOutcome::Value { mt, next: p2 },
                Result::Err(e) => TypeReadOutcome::Fail { e },
            },
        },
    }
}

/// Decoding the header triplet of a payload whose presence bits have
/// been read and demand a header.
pub open spec fn spec_decode_header(bits: Seq<bool>, gsf_null: bool) -> Result<
    Message,
    DecodeError,
> {
    match spec_varnum(bits, 2, 4) {
        VarNumOutcome::Eof => Result::Err(DecodeError::Truncated(DecodeStage::Flags)),
        VarNumOutcome::TooWide => Result::Err(DecodeError::WidthExceedsMax),
        VarNumOutcome::BadWidth { bits: b } => Result::Err(
            DecodeError::UnsupportedWidth(b as u32),
        ),
        VarNumOutcome::Value { v: flags, next: p1 } => match spec_read_message_type(bits, p1) {
            TypeReadOutcome::Fail { e } => Result::Err(e),
            TypeReadOutcome::Value { mt, next: p2 } => match spec_varnum(bits, p2, 4) {
                VarNumOutcome::Eof => Result::Err(DecodeError::Truncated(DecodeStage::RequestId)),
                VarNumOutcome::TooWide => Result::Err(DecodeError::WidthExceedsMax),
                VarNumOutcome::BadWidth { bits: b } => Result::Err(
                    DecodeError::UnsupportedWidth(b as u32),
                ),
                VarNumOutcome::Value { v: rid, .. } => Result::Ok(
                    Message {
                        gsf_null,
                        header: Option::Some(
                            MessageHeader {
                                flags: flags as u32,
                                message_type: mt,
                                request_id: rid as u32,
                            },
                        ),
                    },
                ),
            },
        },
    }
}

/// Splitting a buffer at its length prefix: the payload it promises,
/// or the fault.
pub open spec fn spec_message_data(buffer: Seq<u8>) -> Result<Seq<u8>, DecodeError> {
    if buffer.len() < 1 {
        Result::Err(DecodeError::Truncated(DecodeStage::Length))
    } else {
        let l = buffer[0] as int;
        if buffer.len() < 1 + l {
            Result::Err(DecodeError::LengthOverrun)
        } else {
            Result::Ok(buffer.subrange(1, 1 + l))
        }
    }
}

/// Decoding one frame: the full function from raw bytes to a message
/// or a classified fault.
pub open spec fn spec_decode_message(buffer: Seq<u8>) -> Result<Message, DecodeError> {
    match spec_message_data(buffer) {
        Result::Err(e) => Result::Err(e),
        Result::Ok(payload) => {
            let bits = stream_bits(payload);
            if bits.len() < 2 {
                Result::Err(DecodeError::Truncated(DecodeStage::Presence))
            } else {
                let gsf_null = bits[0];
                let header_null = bits[1];
                if header_null {
                    Result::Ok(Message { gsf_null, header: Option::None })
                } else {
                    spec_decode_header(bits, gsf_null)
                }
            }
        },
    }
}

/// Read the two leading presence bits; on a fault the cursor does not
/// move.
pub fn get_start_bits(cur: &mut BitCursor) -> (r: Option<(bool, bool)>)
    requires
        old(cur).wf(),
    ensures
        final(cur).wf(),
        final(cur).bits() == old(cur).bits(),
        old(cur).pos() + 2 <= old(cur).bits().len() ==> r == Some(
            (old(cur).bits()[old(cur).pos()], old(cur).bits()[old(cur).pos() + 1]),
        ) && final(cur).pos() == old(cur).pos() + 2,
        old(cur).pos() + 2 > old(cur).bits().len() ==> r is None
            && final(cur).pos() == old(cur).pos(),
{
    let saved = *cur;
    let a = match cur.read_bit() {
        Some(b) => b,
        None => {
            return None;
        },
    };
    let b = match cur.read_bit() {
        Some(b) => b,
        None => {
            *cur = saved;
            return None;
        },
    };
    Some((a, b))
}

/// Split a buffer into the payload its length prefix promises.
pub fn get_message_data(buffer: &[u8]) -> (r: Result<&[u8], DecodeError>)
    ensures
        (match spec_message_data(buffer@) {
            Result::Ok(p) => r matches Ok(q) && q@ == p,
            Result::Err(e) => r == Err::<&[u8], DecodeError>(e),
        }),
{
    if buffer.len() < 1 {
        return Err(DecodeError::Truncated(DecodeStage::Length));
    }
    let l = *slice_index_get(buffer, 0) as usize;
    if buffer.len() - 1 < l {
        return Err(DecodeError::LengthOverrun);
    }
    Ok(slice_subrange(buffer, 1, 1 + l))
}

/// Read the service-class and opcode fields and classify them against
/// the canonical tables; on a fault the cursor does not move.
pub fn get_message_type(cur: &mut BitCursor) -> (r: Result<MessageType, DecodeError>)
    requires
        old(cur).wf(),
    ensures
        final(cur).wf(),
        final(cur).bits() == old(cur).bits(),
        (match spec_read_message_type(old(cur).bits(), old(cur).pos()) {
            TypeReadOutcome::Value { mt, next } => r == Ok::<MessageType, DecodeError>(mt)
                && final(cur).pos() == next,
            TypeReadOutcome::Fail { e } => r == Err::<MessageType, DecodeError>(e)
                && final(cur).pos() == old(cur).pos(),
        }),
{
    let saved = *cur;
    let sc = match get_number::<4>(cur) {
        Ok(v) => v,
        Err(e) => {
            return Err(match e {
                VarNumError::UnexpectedEof => DecodeError::Truncated(DecodeStage::SvcClass),
                VarNumError::WidthExceedsMax => DecodeError::WidthExceedsMax,
                VarNumError::UnsupportedWidth(b) => DecodeError::UnsupportedWidth(b),
            });
        },
    };
    let op = match get_number::<4>(cur) {
        Ok(v) => v,
        Err(e) => {
            *cur = saved;
            return Err(match e {
                VarNumError::UnexpectedEof => DecodeError::Truncated(DecodeStage::Opcode),
                VarNumError::WidthExceedsMax => DecodeError::WidthExceedsMax,
                VarNumError::UnsupportedWidth(b) => DecodeError::UnsupportedWidth(b),
            });
        },
    };
    let mt = match service_class_from_code(sc) {
        None => {
            *cur = saved;
            return Err(DecodeError::UnknownServiceClass(sc));
        },
        Some(ServiceClass::UserServer) => match user_message_from_code(op) {
            Some(m) => MessageType::User(m),
            None => {
                *cur = saved;
                return Err(DecodeError::UnknownOpcode(ServiceClass::UserServer, op));
            },
        },
        Some(ServiceClass::SyncServer) => match sync_message_from_code(op) {
            Some(m) => MessageType::Sync(m),
            None => {
                *cur = saved;
                return Err(DecodeError::UnknownOpcode(ServiceClass::SyncServer, op));
            },
        },
        Some(ServiceClass::Client) => match client_message_from_code(op) {
            Some(m) => MessageType::Client(m),
            None => {
                *cur = saved;
                return Err(DecodeError::UnknownOpcode(ServiceClass::Client, op));
            },
        },
        Some(ServiceClass::Location) => {
            *cur = saved;
            return Err(DecodeError::Unimplemented);
        },
    };
    Ok(mt)
}

/// Decode one frame.  The result — message or classified fault — is
/// exactly `spec_decode_message` of the bytes, for every input, and
/// nothing outside the length-prefixed payload is read.
pub fn decode_message(buffer: &[u8]) -> (r: Result<Message, DecodeError>)
    ensures
        r == spec_decode_message(buffer@),
{
    let payload = match get_message_data(buffer) {
        Ok(p) => p,
        Err(e) => {
            return Err(e);
        },
    };
    let mut cur = BitCursor::new(payload);
    let (gsf_null, header_null) = match get_start_bits(&mut cur) {
        Some(p) => p,
        None => {
            return Err(DecodeError::Truncated(DecodeStage::Presence));
        },
    };
    if header_null {
        return Ok(Message { gsf_null, header: None });
    }
    let flags = match get_number::<4>(&mut cur) {
        Ok(v) => v,
        Err(e) => {
            return Err(match e {
                VarNumError::UnexpectedEof => DecodeError::Truncated(DecodeStage::Flags),
                VarNumError::WidthExceedsMax => DecodeError::WidthExceedsMax,
                VarNumError::UnsupportedWidth(b) => DecodeError::UnsupportedWidth(b),
            });
        },
    };
    let message_type = match get_message_type(&mut cur) {
        Ok(mt) => mt,
        Err(e) => {
            return Err(e);
        },
    };
    let request_id = match get_number::<4>(&mut cur) {
        Ok(v) => v,
        Err(e) => {
            return Err(match e {
                VarNumError::UnexpectedEof => DecodeError::Truncated(DecodeStage::RequestId),
                VarNumError::WidthExceedsMax => DecodeError::WidthExceedsMax,
                VarNumError::UnsupportedWidth(b) => DecodeError::UnsupportedWidth(b),
            });
        },
    };
    Ok(
        Message {
            gsf_null,
            header: Some(
                MessageHeader {
                    flags: #[verifier::truncate] (flags as u32),
                    message_type,
                    request_id: #[verifier::truncate] (request_id as u32),
                },
            ),
        },
    )
}

fn u32_as_signed(x: u32) -> (v: i64)
    ensures
        fits_signed(v as int, 32),
        v as u32 == x,
{
    proof {
        lemma2_to64();
    }
    if x < 0x8000_0000 {
        x as i64
    } else {
        let v = (x as i64) - 0x1_0000_0000;
        proof {
            assert((x as i64 - 0x1_0000_0000i64) as u32 == x) by (bit_vector)
                requires
                    x >= 0x8000_0000u32,
            ;
        }
        v
    }
}

fn min_run_for(v: i64) -> (k: usize)
    requires
        fits_signed(v as int, 32),
    ensures
        run_supported(k as int),
        k <= 4,
        fits_signed(v as int, width_of_run(k as int) as nat),
{
    proof {
        lemma2_to64();
    }
    if -8 <= v && v < 8 {
        0
    } else if -128 <= v && v < 128 {
        1
    } else if -32768 <= v && v < 32768 {
        2
    } else {
        4
    }
}

proof fn lemma_prefix_field(s: Seq<bool>, w: Seq<bool>, pos: int, e: Seq<bool>)
    requires
        s.subrange(0, w.len() as int) == w,
        w.len() <= s.len(),
        0 <= pos,
        pos + e.len() <= w.len(),
        forall|j: int| 0 <= j < e.len() ==> w[pos + j] == e[j],
    ensures
        s.subrange(pos, pos + e.len() as int) =~= e,
{
    assert forall|j: int| 0 <= j < e.len() implies s.subrange(pos, pos + e.len() as int)[j] == e[
        j
    ] by {
        assert(s.subrange(0, w.len() as int)[pos + j] == w[pos + j]);
    }
}

/// Build the minimal frame carrying the given header triplet: clear
/// presence bits, then each field in its narrowest defined width.  The
/// frame decodes back to exactly that header when the (service class,
/// opcode) pair is in the canonical tables, and to the pair's own
/// classification fault when it is not.
#[verifier::rlimit(50)]
pub fn encode_message(flags: u32, service_class: i32, opcode: i32, request_id: u32) -> (r: Vec<
    u8,
>)
    ensures
        (match spec_message_type_of(service_class as i64, opcode as i64) {
            Result::Ok(mt) => spec_decode_message(r@) == Result::Ok::<Message, DecodeError>(
                Message {
                    gsf_null: false,
                    header: Option::Some(
                        MessageHeader { flags, message_type: mt, request_id },
                    ),
                },
            ),
            Result::Err(e) => spec_decode_message(r@) == Result::Err::<Message, DecodeError>(e),
        }),
{
    let fv = u32_as_signed(flags);
    let sv = service_class as i64;
    let ov = opcode as i64;
    let rv = u32_as_signed(request_id);
    proof {
        lemma2_to64();
    }
    let fk = min_run_for(fv);
    let sk = min_run_for(sv);
    let vk = min_run_for(ov);
    let rk = min_run_for(rv);
    let mut w = BitWriter::new();
    w.push_bit(false);
    w.push_bit(false);
    write_varnum_wide(&mut w, fv, fk);
    let ghost p1 = w.bits().len() as int;
    write_varnum_wide(&mut w, sv, sk);
    let ghost p2 = w.bits().len() as int;
    write_varnum_wide(&mut w, ov, vk);
    let ghost p3 = w.bits().len() as int;
    write_varnum_wide(&mut w, rv, rk);
    let ghost wb = w.bits();
    let ghost enc_f = spec_varnum_encode_wide(fv, fk as int);
    let ghost enc_s = spec_varnum_encode_wide(sv, sk as int);
    let ghost enc_o = spec_varnum_encode_wide(ov, vk as int);
    let ghost enc_r = spec_varnum_encode_wide(rv, rk as int);
    proof {
        assert(wb =~= seq![false, false] + enc_f + enc_s + enc_o + enc_r);
        assert(wb.len() <= 154);
    }
    let payload = w.finish();
    let l = payload.len();
    let mut frame: Vec<u8> = Vec::new();
    frame.push(l as u8);
    let mut i: usize = 0;
    while i < l
        invariant
            i <= l,
            l == payload@.len(),
            l <= 255,
            frame@.len() == 1 + i,
            frame@[0] == l as u8,
            frame@.subrange(1, 1 + i as int) == payload@.subrange(0, i as int),
        decreases l - i,
    {
        let b = payload[i];
        frame.push(b);
        proof {
            assert(frame@.subrange(1, 1 + (i + 1) as int) =~= payload@.subrange(0, (i + 1) as int));
        }
        i = i + 1;
    }
    proof {
        let stream = stream_bits(payload@);
        assert(frame@.subrange(1, 1 + l as int) =~= payload@);
        assert(stream.subrange(0, wb.len() as int) == wb);
        assert(stream[0] == wb[0] && stream[1] == wb[1]) by {
            assert(stream.subrange(0, wb.len() as int)[0] == stream[0]);
            assert(stream.subrange(0, wb.len() as int)[1] == stream[1]);
        }
        assert(!wb[0] && !wb[1]);
        assert forall|j: int| 0 <= j < enc_f.len() implies wb[2 + j] == enc_f[j] by {}
        lemma_prefix_field(stream, wb, 2, enc_f);
        lemma_varnum_wide_roundtrip(stream, 2, fv, fk as int, 4);
        assert(p1 == 2 + enc_f.len());
        assert forall|j: int| 0 <= j < enc_s.len() implies wb[p1 + j] == enc_s[j] by {}
        lemma_prefix_field(stream, wb, p1, enc_s);
        lemma_varnum_wide_roundtrip(stream, p1, sv, sk as int, 4);
        assert(p2 == p1 + enc_s.len());
        assert forall|j: int| 0 <= j < enc_o.len() implies wb[p2 + j] == enc_o[j] by {}
        lemma_prefix_field(stream, wb, p2, enc_o);
        lemma_varnum_wide_roundtrip(stream, p2, ov, vk as int, 4);
        assert(p3 == p2 + enc_o.len());
        assert forall|j: int| 0 <= j < enc_r.len() implies wb[p3 + j] == enc_r[j] by {}
        lemma_prefix_field(stream, wb, p3, enc_r);
        lemma_varnum_wide_roundtrip(stream, p3, rv, rk as int, 4);
        assert(spec_varnum(stream, 2, 4) == (VarNumOutcome::Value { v: fv, next: p1 }));
        assert(spec_varnum(stream, p1, 4) == (VarNumOutcome::Value { v: sv, next: p2 }));
        assert(spec_varnum(stream, p2, 4) == (VarNumOutcome::Value { v: ov, next: p3 }));
        assert(spec_varnum(stream, p3, 4) == (VarNumOutcome::Value {
            v: rv,
            next: p3 + wide_len(rk as int),
        }));
        assert(spec_message_data(frame@) == Result::Ok::<Seq<u8>, DecodeError>(payload@));
    }
    frame
}

} // verus!
