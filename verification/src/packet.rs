use vstd::prelude::*;

use crate::opcode::{op_byte, op_of_byte, Opcode};

verus! {

/// The number of payload bytes a frame's single length byte can express:
/// a hard ceiling of the wire format, not a buffer size.
pub const MAX_PAYLOAD: usize = 255;

/// The unit of wire transmission: an opcode plus a payload of raw bytes.
/// The payload is never inspected here beyond carrying it; a frame on the
/// wire is `[opcode: 1 byte][payload length: 1 byte][payload]`.
#[derive(Clone, PartialEq, Eq, Debug)]
pub struct Packet {
    pub op: Opcode,
    pub payload: Vec<u8>,
}

/// The mathematical model of a packet.
#[verifier::ext_equal]
pub struct PacketModel {
    pub op: Opcode,
    pub payload: Seq<u8>,
}

impl PacketModel {
    /// A packet is well formed when its payload fits behind the one-byte
    /// length field of a frame.
    pub open spec fn wf(self) -> bool {
        self.payload.len() <= MAX_PAYLOAD
    }
}

impl View for Packet {
    type V = PacketModel;

    open spec fn view(&self) -> PacketModel {
        PacketModel { op: self.op, payload: self.payload@ }
    }
}

impl DeepView for Packet {
    type V = PacketModel;

    open spec fn deep_view(&self) -> PacketModel {
        self@
    }
}

/// The text that a sequence of payload bytes displays as.
pub uninterp spec fn lossy_text_of(bytes: Seq<u8>) -> Seq<char>;

/// The frame a packet occupies on the wire.
pub open spec fn encode_spec(p: PacketModel) -> Seq<u8> {
    seq![op_byte(p.op), p.payload.len() as u8] + p.payload
}

/// The packet a byte buffer holds, if the buffer is exactly one frame with a
/// known opcode and a length byte that matches the payload.
pub open spec fn decode_spec(bytes: Seq<u8>) -> Option<PacketModel> {
    if bytes.len() >= 2 && op_of_byte(bytes[0]) is Some && bytes.len() == 2 + bytes[1] {
        Some(
            PacketModel {
                op: op_of_byte(bytes[0])->Some_0,
                payload: bytes.subrange(2, bytes.len() as int),
            },
        )
    } else {
        None
    }
}

impl Packet {
    pub open spec fn wf(&self) -> bool {
        self@.wf()
    }

    pub fn new(op: Opcode, payload: Vec<u8>) -> (p: Packet)
        ensures
            p@ == (PacketModel { op, payload: payload@ }),
    {
        Packet { op, payload }
    }

    /// The periodic liveness packet: a keep-alive opcode and no payload.
    pub fn keep_alive() -> (p: Packet)
        ensures
            p@.op == Opcode::KeepAlive,
            p@.payload == Seq::<u8>::empty(),
            p.wf(),
    {
        let p = Packet { op: Opcode::KeepAlive, payload: Vec::new() };
        proof {
            assert(p@.payload =~= Seq::<u8>::empty());
        }
        p
    }

    /// Relies on String::from_utf8_lossy: the text is a function of the
    /// bytes alone, and a payload of ASCII bytes (below 128) comes back as
    /// exactly the characters with those code points.
    #[verifier::external_body]
    pub fn payload_str(&self) -> (r: String)
        ensures
            r@ == lossy_text_of(self@.payload),
            (forall|i: int| 0 <= i < self@.payload.len() ==> self@.payload[i] < 128)
                ==> r@ == Seq::new(self@.payload.len(), |i: int| self@.payload[i] as char),
    {
        String::from_utf8_lossy(&self.payload).into_owned()
    }

    /// Serialize this packet into the bytes of one wire frame.
    pub fn encode(&self) -> (bytes: Vec<u8>)
        requires
            self.wf(),
        ensures
            bytes@ == encode_spec(self@),
    {
        let mut bytes: Vec<u8> = Vec::new();
        bytes.push(self.op.to_byte());
        bytes.push(self.payload.len() as u8);
        let mut i: usize = 0;
        while i < self.payload.len()
            invariant
                self.wf(),
                i <= self.payload@.len(),
                bytes@ == seq![
                    op_byte(self@.op),
                    self@.payload.len() as u8,
                ] + self@.payload.take(i as int),
            decreases self.payload@.len() - i,
        {
            bytes.push(self.payload[i]);
            proof {
                assert(self@.payload.take(i + 1) =~= self@.payload.take(i as int).push(
                    self@.payload[i as int],
                ));
            }
            i = i + 1;
        }
        proof {
            assert(self@.payload.take(self@.payload.len() as int) =~= self@.payload);
        }
        bytes
    }

    /// Decode one wire frame back into a packet. Returns the packet exactly
    /// when the buffer is a whole frame whose opcode byte is known and whose
    /// length byte equals the payload length; otherwise nothing.
    pub fn decode(buf: &[u8]) -> (r: Option<Packet>)
        ensures
            match r {
                Some(p) => decode_spec(buf@) == Some(p@) && p.wf(),
                None => decode_spec(buf@) is None,
            },
    {
        if buf.len() < 2 {
            return None;
        }
        let len: usize = buf[1] as usize;
        if buf.len() - 2 != len {
            return None;
        }
        match Opcode::from_byte(buf[0]) {
            None => None,
            Some(op) => {
                let mut payload: Vec<u8> = Vec::new();
                let mut i: usize = 2;
                while i < buf.len()
                    invariant
                        2 <= i <= buf@.len(),
                        payload@ == buf@.subrange(2, i as int),
                    decreases buf@.len() - i,
                {
                    payload.push(buf[i]);
                    proof {
                        assert(buf@.subrange(2, i + 1) =~= buf@.subrange(2, i as int).push(
                            buf@[i as int],
                        ));
                    }
                    i = i + 1;
                }
                let p = Packet { op, payload };
                proof {
                    assert(decode_spec(buf@) == Some(p@));
                }
                Some(p)
            },
        }
    }
}

/// Law: framing loses nothing. Any well-formed packet comes back unchanged
/// from a serialize-then-decode round trip over the wire layout.
pub proof fn lemma_encode_decode_round_trip(p: PacketModel)
    requires
        p.wf(),
    ensures
        decode_spec(encode_spec(p)) == Some(p),
{
    let bytes = encode_spec(p);
    crate::opcode::lemma_op_byte_round_trip(p.op);
    assert(bytes.subrange(2, bytes.len() as int) =~= p.payload);
    assert(decode_spec(bytes)->Some_0 =~= p);
}

} // verus!
