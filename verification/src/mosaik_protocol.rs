//! The messages of the low-level Mosaik API and their encoding on the connection.

use crate::decimal::{
    bytes_value, decimal_bytes, is_numeral_bytes, lemma_decimal_bytes_read_back, lemma_decimal_len_u64, push_decimal,
};
use crate::framing::{be_bytes, be_value, length_header, lemma_header_roundtrip};
use vstd::prelude::*;

verus! {

/// Unique ID of a message or of a request and its reply.
pub type MessageID = u64;

/// The three message types of the Mosaik API, numbered 0, 1 and 2 on the wire.
#[derive(Debug, PartialEq, Eq, Structural, Clone, Copy)]
pub enum MsgType {
    Request,
    ReplySuccess,
    ReplyFailure,
}

impl MsgType {
    /// The number that stands for this message type on the wire.
    pub open spec fn spec_code(self) -> u8 {
        match self {
            MsgType::Request => 0,
            MsgType::ReplySuccess => 1,
            MsgType::ReplyFailure => 2,
        }
    }

    /// The message type that the number `n` stands for, if any.
    pub open spec fn spec_from_code(n: u64) -> Option<MsgType> {
        if n == 0 {
            Some(MsgType::Request)
        } else if n == 1 {
            Some(MsgType::ReplySuccess)
        } else if n == 2 {
            Some(MsgType::ReplyFailure)
        } else {
            None
        }
    }

    /// The number that stands for this message type on the wire.
    pub fn code(self) -> (r: u8)
        ensures
            r == self.spec_code(),
    {
        match self {
            MsgType::Request => 0,
            MsgType::ReplySuccess => 1,
            MsgType::ReplyFailure => 2,
        }
    }

    /// The message type that the number `n` stands for; `None` for any number but 0, 1 and 2.
    pub fn from_code(n: u64) -> (r: Option<MsgType>)
        ensures
            r == MsgType::spec_from_code(n),
    {
        if n == 0 {
            Some(MsgType::Request)
        } else if n == 1 {
            Some(MsgType::ReplySuccess)
        } else if n == 2 {
            Some(MsgType::ReplyFailure)
        } else {
            None
        }
    }
}

/// Reading back the number of a message type gives that type, and exactly the
/// numbers 0, 1 and 2 stand for a message type.
pub proof fn lemma_msg_type_code(t: MsgType, n: u64)
    ensures
        MsgType::spec_from_code(t.spec_code() as u64) == Some(t),
        MsgType::spec_from_code(n) is Some <==> n <= 2,
        MsgType::spec_from_code(n) matches Some(u) ==> u.spec_code() == n,
{
}

/// A message of the low-level Mosaik API: `[msg_type, id, content]`.
#[derive(Debug, PartialEq)]
pub struct MosaikMessage {
    /// Decides how the message is handled.
    pub msg_type: MsgType,
    /// Matches a reply to its request.
    pub id: MessageID,
    /// The JSON text of the content.
    pub content: Vec<u8>,
}

/// The JSON text of the content of the reply that stands in for a message too
/// large to be sent: the string `"Message too large"`.
pub open spec fn too_large_content() -> Seq<u8> {
    seq![34, 77, 101, 115, 115, 97, 103, 101, 32, 116, 111, 111, 32, 108, 97, 114, 103, 101, 34]
}

/// The JSON text `[msg_type, id, content]` of a message.
pub open spec fn spec_payload(msg_type: MsgType, id: MessageID, content: Seq<u8>) -> Seq<u8> {
    seq![91u8] + decimal_bytes(msg_type.spec_code() as nat) + seq![44u8] + decimal_bytes(id as nat)
        + seq![44u8] + content + seq![93u8]
}

/// The bytes sent for a message: a 4-byte big-endian length header and the
/// payload. A message whose payload would not fit the header is replaced by a
/// failure reply with the same ID.
pub open spec fn spec_network_message(m: MosaikMessage) -> Seq<u8> {
    let p = spec_payload(m.msg_type, m.id, m.content@);
    if p.len() <= u32::MAX {
        be_bytes(p.len() as u32) + p
    } else {
        let f = spec_payload(MsgType::ReplyFailure, m.id, too_large_content());
        be_bytes(f.len() as u32) + f
    }
}

/// Appends `[msg_type,id,content]` to `out`.
fn push_payload(out: &mut Vec<u8>, msg_type: MsgType, id: MessageID, content: &Vec<u8>)
    ensures
        final(out)@ == old(out)@ + spec_payload(msg_type, id, content@),
{
    out.push(91);
    push_decimal(out, msg_type.code() as u64);
    out.push(44);
    push_decimal(out, id);
    out.push(44);
    let ghost before = out@;
    let mut i: usize = 0;
    while i < content.len()
        invariant
            i <= content@.len(),
            out@ == before + content@.take(i as int),
        decreases content@.len() - i,
    {
        out.push(content[i]);
        i = i + 1;
        assert(out@ =~= before + content@.take(i as int));
    }
    out.push(93);
    assert(content@.take(content@.len() as int) =~= content@);
    assert(out@ =~= old(out)@ + spec_payload(msg_type, id, content@));
}

impl MosaikMessage {
    /// The JSON text `[msg_type,id,content]` of this message.
    pub fn to_vec(&self) -> (r: Vec<u8>)
        ensures
            r@ == spec_payload(self.msg_type, self.id, self.content@),
    {
        let mut r: Vec<u8> = Vec::new();
        push_payload(&mut r, self.msg_type, self.id, &self.content);
        assert(r@ =~= spec_payload(self.msg_type, self.id, self.content@));
        r
    }

    /// The bytes to send for this message: a 4-byte big-endian length header
    /// followed by the payload. Where the payload exceeds `u32::MAX` bytes, a
    /// failure reply `"Message too large"` with the same ID is sent instead.
    pub fn to_network_message(&self) -> (r: Vec<u8>)
        ensures
            r@ == spec_network_message(*self),
    {
        let payload = self.to_vec();
        if payload.len() <= 0xffff_ffffusize {
            frame(&payload)
        } else {
            let content: Vec<u8> = vec![34, 77, 101, 115, 115, 97, 103, 101, 32, 116, 111, 111, 32, 108, 97, 114, 103, 101, 34];
            assert(content@ =~= too_large_content());
            let fallback = MosaikMessage { msg_type: MsgType::ReplyFailure, id: self.id, content };
            let payload = fallback.to_vec();
            proof {
                lemma_decimal_len_u64(self.id);
                lemma_decimal_len_u64(2);
            }
            frame(&payload)
        }
    }
}

/// A 4-byte big-endian length header followed by `payload`.
fn frame(payload: &Vec<u8>) -> (r: Vec<u8>)
    requires
        payload@.len() <= u32::MAX,
    ensures
        r@ == be_bytes(payload@.len() as u32) + payload@,
{
    let header = length_header(payload.len() as u32);
    let mut r: Vec<u8> = Vec::new();
    r.push(header[0]);
    r.push(header[1]);
    r.push(header[2]);
    r.push(header[3]);
    let ghost h = r@;
    assert(h =~= be_bytes(payload@.len() as u32));
    let mut i: usize = 0;
    while i < payload.len()
        invariant
            i <= payload@.len(),
            r@ == h + payload@.take(i as int),
        decreases payload@.len() - i,
    {
        r.push(payload[i]);
        i = i + 1;
        assert(r@ =~= h + payload@.take(i as int));
    }
    assert(payload@.take(payload@.len() as int) =~= payload@);
    r
}

/// A payload is `[`, the number of the message type (0 for a request, 1 for a
/// success reply, 2 for a failure reply), `,`, the message ID, `,`, the content
/// and `]`, each number written as a decimal numeral that reads back as it.
pub proof fn lemma_payload_fields(msg_type: MsgType, id: MessageID, content: Seq<u8>)
    ensures
        exists|a: Seq<u8>, b: Seq<u8>|
            is_numeral_bytes(a) && is_numeral_bytes(b) && bytes_value(a) == (match msg_type {
                MsgType::Request => 0int,
                MsgType::ReplySuccess => 1int,
                MsgType::ReplyFailure => 2int,
            }) && bytes_value(b) == id && spec_payload(msg_type, id, content) == seq![91u8] + a + seq![44u8]
                + b + seq![44u8] + content + seq![93u8],
{
    let a = decimal_bytes(msg_type.spec_code() as nat);
    let b = decimal_bytes(id as nat);
    lemma_decimal_bytes_read_back(msg_type.spec_code() as nat);
    lemma_decimal_bytes_read_back(id as nat);
    assert(spec_payload(msg_type, id, content) == seq![91u8] + a + seq![44u8] + b + seq![44u8] + content
        + seq![93u8]);
}

/// Every message is sent as a frame whose 4-byte header announces exactly the
/// number of bytes that follow it. Those bytes are the message's payload where
/// it fits the header, and otherwise the payload of the failure reply
/// `"Message too large"` with the message's ID.
pub proof fn lemma_network_message_frame(m: MosaikMessage)
    ensures
        spec_network_message(m).len() >= 4,
        be_value(
            spec_network_message(m)[0],
            spec_network_message(m)[1],
            spec_network_message(m)[2],
            spec_network_message(m)[3],
        ) == spec_network_message(m).len() - 4,
        spec_payload(m.msg_type, m.id, m.content@).len() <= u32::MAX ==> spec_network_message(
            m,
        ).skip(4) == spec_payload(m.msg_type, m.id, m.content@),
        spec_payload(m.msg_type, m.id, m.content@).len() > u32::MAX ==> spec_network_message(
            m,
        ).skip(4) == spec_payload(MsgType::ReplyFailure, m.id, too_large_content()),
{
    let p = spec_payload(m.msg_type, m.id, m.content@);
    let f = spec_payload(MsgType::ReplyFailure, m.id, too_large_content());
    lemma_decimal_len_u64(m.id);
    lemma_decimal_len_u64(2);
    let body = if p.len() <= u32::MAX {
        p
    } else {
        f
    };
    let b = spec_network_message(m);
    assert(b == be_bytes(body.len() as u32) + body);
    lemma_header_roundtrip(body.len() as u32);
    assert(b.skip(4) =~= body);
}

} // verus!
