//! Wire codec: builds the connection-request (CONNECT) and publish (PUBLISH)
//! frames and decodes the fixed-length connection acknowledgement (CONNACK).
//! Pure transforms over byte buffers; no I/O.

use vstd::prelude::*;

verus! {

/// Fixed-header byte of a CONNECT frame: packet type 1, no flags.
pub const CONNECT_TYPE: u8 = 0x10;

/// Fixed-header byte of a PUBLISH frame: packet type 3, QoS 0, no flags.
pub const PUBLISH_TYPE: u8 = 0x30;

/// Fixed-header byte of a CONNACK frame: packet type 2.
pub const CONNACK_TYPE: u8 = 0x20;

/// Return code meaning the broker accepted the connection.
pub const CONNACK_ACCEPTED: u8 = 0x00;

/// Hard ceiling on a frame's remaining length: the codec encodes it as a
/// single byte, so values above 127 are rejected before any byte is built.
pub const MAX_REMAINING_LEN: u8 = 127;

/// An encode request would exceed the single-byte remaining-length capacity.
#[derive(Clone, Copy, Debug, PartialEq, Eq, Structural)]
pub enum EncodeError {
    PayloadTooLarge,
}

/// The 4-byte acknowledgement did not report an accepted connection.
#[derive(Clone, Copy, Debug, PartialEq, Eq)]
pub enum ProtocolError {
    Refused { raw: [u8; 4] },
}

/// An encoded frame, ready to be written to a transport session in one piece.
#[derive(Debug)]
pub struct Frame {
    pub bytes: Vec<u8>,
}

impl View for Frame {
    type V = Seq<u8>;

    open spec fn view(&self) -> Seq<u8> {
        self.bytes@
    }
}

impl Frame {
    /// Every encoded frame is two fixed-header bytes plus at most 127
    /// remaining bytes, and carries its remaining length in byte 1.
    pub open spec fn wf(&self) -> bool {
        &&& 2 <= self@.len() <= 129
        &&& self@[1] as int == self@.len() - 2
        &&& self@[1] <= MAX_REMAINING_LEN
    }

    /// Number of bytes in the frame.
    pub fn len(&self) -> (n: usize)
        ensures
            n == self@.len(),
    {
        self.bytes.len()
    }
}

/// Remaining length of a CONNECT frame: 10 bytes of variable header
/// (protocol name, level, flags, keep-alive) plus the length-prefixed
/// client identifier.
pub open spec fn connect_remaining_len(client_id: Seq<u8>) -> int {
    10 + 2 + client_id.len() as int
}

/// The full CONNECT frame for a given client identifier: fixed header,
/// protocol name "MQTT", protocol level 4, clean-session flag, a 60-second
/// keep-alive, then the length-prefixed identifier.
pub open spec fn spec_connect_frame(client_id: Seq<u8>) -> Seq<u8> {
    seq![
        CONNECT_TYPE,
        connect_remaining_len(client_id) as u8,
        0x00u8,
        0x04u8,
        0x4du8,
        0x51u8,
        0x54u8,
        0x54u8,
        0x04u8,
        0x02u8,
        0x00u8,
        0x3cu8,
        (client_id.len() / 256) as u8,
        (client_id.len() % 256) as u8,
    ] + client_id
}

/// Builds the CONNECT frame for `client_id`, or refuses identifiers whose
/// frame would not fit the single-byte remaining length.
pub fn encode_connect(client_id: &[u8]) -> (r: Result<Frame, EncodeError>)
    ensures
        connect_remaining_len(client_id@) <= MAX_REMAINING_LEN ==> (r matches Ok(f)
            && f@ == spec_connect_frame(client_id@) && f.wf()),
        connect_remaining_len(client_id@) > MAX_REMAINING_LEN ==> r == Result::<
            Frame,
            EncodeError,
        >::Err(EncodeError::PayloadTooLarge),
{
    let n = client_id.len();
    if n > 115 {
        return Err(EncodeError::PayloadTooLarge);
    }
    let mut bytes: Vec<u8> = Vec::new();
    bytes.push(CONNECT_TYPE);
    bytes.push(12 + n as u8);
    bytes.push(0x00);
    bytes.push(0x04);
    bytes.push(0x4d);
    bytes.push(0x51);
    bytes.push(0x54);
    bytes.push(0x54);
    bytes.push(0x04);
    bytes.push(0x02);
    bytes.push(0x00);
    bytes.push(0x3c);
    bytes.push(0x00);
    bytes.push(n as u8);
    assert(bytes@ =~= spec_connect_frame(client_id@).subrange(0, 14));
    let mut i: usize = 0;
    while i < n
        invariant
            i <= n,
            n == client_id@.len() <= 115,
            bytes@ == spec_connect_frame(client_id@).subrange(0, 14 + i as int),
        decreases n - i,
    {
        assert(spec_connect_frame(client_id@)[14 + i as int] == client_id@[i as int]);
        bytes.push(client_id[i]);
        assert(bytes@ =~= spec_connect_frame(client_id@).subrange(0, 14 + (i + 1) as int));
        i += 1;
    }
    assert(bytes@ =~= spec_connect_frame(client_id@));
    let f = Frame { bytes };
    Ok(f)
}

/// A 4-byte acknowledgement reports an accepted connection exactly when its
/// type byte is the CONNACK marker and its return code is the accepted code.
pub open spec fn connack_accepted(rx: Seq<u8>) -> bool {
    &&& rx.len() == 4
    &&& rx[0] == CONNACK_TYPE
    &&& rx[3] == CONNACK_ACCEPTED
}

/// Decodes the fixed 4-byte acknowledgement: success exactly when the broker
/// accepted; any other response is handed back whole in the error.
pub fn decode_connack(rx: [u8; 4]) -> (r: Result<(), ProtocolError>)
    ensures
        r is Ok <==> connack_accepted(rx@),
        !connack_accepted(rx@) ==> r == Result::<(), ProtocolError>::Err(
            ProtocolError::Refused { raw: rx },
        ),
{
    if rx[0] == CONNACK_TYPE && rx[3] == CONNACK_ACCEPTED {
        Ok(())
    } else {
        Err(ProtocolError::Refused { raw: rx })
    }
}

/// Remaining length of a PUBLISH frame: the length-prefixed topic plus the
/// raw payload bytes, which carry no prefix of their own.
pub open spec fn publish_remaining_len(topic: Seq<u8>, payload: Seq<u8>) -> int {
    2 + topic.len() as int + payload.len() as int
}

/// The full PUBLISH frame for a topic/payload pair: fixed header with the
/// lowest-guarantee QoS bits, the length-prefixed topic, then the payload.
pub open spec fn spec_publish_frame(topic: Seq<u8>, payload: Seq<u8>) -> Seq<u8> {
    seq![
        PUBLISH_TYPE,
        publish_remaining_len(topic, payload) as u8,
        (topic.len() / 256) as u8,
        (topic.len() % 256) as u8,
    ] + topic + payload
}

/// Builds the PUBLISH frame for `topic` and `payload`, or refuses pairs whose
/// frame would not fit the single-byte remaining length.
pub fn encode_publish(topic: &[u8], payload: &[u8]) -> (r: Result<Frame, EncodeError>)
    ensures
        publish_remaining_len(topic@, payload@) <= MAX_REMAINING_LEN ==> (r matches Ok(f)
            && f@ == spec_publish_frame(topic@, payload@) && f.wf()),
        publish_remaining_len(topic@, payload@) > MAX_REMAINING_LEN ==> r == Result::<
            Frame,
            EncodeError,
        >::Err(EncodeError::PayloadTooLarge),
{
    let t = topic.len();
    let p = payload.len();
    if t > 125 || p > 125 - t {
        return Err(EncodeError::PayloadTooLarge);
    }
    let mut bytes: Vec<u8> = Vec::new();
    bytes.push(PUBLISH_TYPE);
    bytes.push((2 + t + p) as u8);
    bytes.push(0x00);
    bytes.push(t as u8);
    assert(bytes@ =~= spec_publish_frame(topic@, payload@).subrange(0, 4));
    let mut i: usize = 0;
    while i < t
        invariant
            i <= t,
            t == topic@.len() <= 125,
            p == payload@.len(),
            2 + t + p <= 127,
            bytes@ == spec_publish_frame(topic@, payload@).subrange(0, 4 + i as int),
        decreases t - i,
    {
        assert(spec_publish_frame(topic@, payload@)[4 + i as int] == topic@[i as int]);
        bytes.push(topic[i]);
        assert(bytes@ =~= spec_publish_frame(topic@, payload@).subrange(0, 4 + (i + 1) as int));
        i += 1;
    }
    let mut j: usize = 0;
    while j < p
        invariant
            j <= p,
            t == topic@.len() <= 125,
            p == payload@.len(),
            2 + t + p <= 127,
            bytes@ == spec_publish_frame(topic@, payload@).subrange(0, 4 + t as int + j as int),
        decreases p - j,
    {
        assert(spec_publish_frame(topic@, payload@)[4 + t as int + j as int] == payload@[
            j as int
        ]);
        bytes.push(payload[j]);
        assert(bytes@ =~= spec_publish_frame(topic@, payload@).subrange(
            0,
            4 + t as int + (j + 1) as int,
        ));
        j += 1;
    }
    assert(bytes@ =~= spec_publish_frame(topic@, payload@));
    let f = Frame { bytes };
    Ok(f)
}

/// Law: a CONNECT frame that the codec agrees to build always opens with the
/// CONNECT type marker, carries the computed remaining length in byte 1, and
/// ends with the length-prefixed client identifier.
pub proof fn lemma_connect_frame_layout(client_id: Seq<u8>)
    requires
        connect_remaining_len(client_id) <= MAX_REMAINING_LEN,
    ensures
        spec_connect_frame(client_id).len() == 2 + connect_remaining_len(client_id),
        spec_connect_frame(client_id)[0] == CONNECT_TYPE,
        spec_connect_frame(client_id)[1] as int == connect_remaining_len(client_id),
        spec_connect_frame(client_id)[12] == 0,
        spec_connect_frame(client_id)[13] as int == client_id.len(),
        spec_connect_frame(client_id).subrange(14, spec_connect_frame(client_id).len() as int)
            =~= client_id,
{
}

/// Law: a PUBLISH frame that the codec agrees to build round-trips — its
/// remaining-length byte equals the topic-plus-payload size, its topic-length
/// prefix equals the topic's length, and topic and payload can be read back
/// from the positions those lengths point at.
pub proof fn lemma_publish_frame_round_trip(topic: Seq<u8>, payload: Seq<u8>)
    requires
        publish_remaining_len(topic, payload) <= MAX_REMAINING_LEN,
    ensures
        spec_publish_frame(topic, payload).len() == 2 + publish_remaining_len(topic, payload),
        spec_publish_frame(topic, payload)[0] == PUBLISH_TYPE,
        spec_publish_frame(topic, payload)[1] as int == publish_remaining_len(topic, payload),
        256 * (spec_publish_frame(topic, payload)[2] as int) + spec_publish_frame(
            topic,
            payload,
        )[3] as int == topic.len(),
        spec_publish_frame(topic, payload).subrange(4, 4 + topic.len() as int) =~= topic,
        spec_publish_frame(topic, payload).subrange(
            4 + topic.len() as int,
            spec_publish_frame(topic, payload).len() as int,
        ) =~= payload,
{
}

/// Law: frame encoding is a function of its arguments alone — two PUBLISH
/// frames built from identical topic and payload are byte-identical.
pub proof fn lemma_encode_publish_deterministic(
    topic: Seq<u8>,
    payload: Seq<u8>,
    f1: Seq<u8>,
    f2: Seq<u8>,
)
    requires
        f1 == spec_publish_frame(topic, payload),
        f2 == spec_publish_frame(topic, payload),
    ensures
        f1 == f2,
{
}

} // verus!
