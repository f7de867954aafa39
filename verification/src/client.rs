//! Protocol client: the handshake-completed flag and the decision logic
//! around the codec. The transport session is owned by the caller and
//! borrowed per attempt; the client itself holds no session, only whether an
//! accepted acknowledgement has been observed. The caller performs the
//! writes and reads and hands their outcomes back.

use vstd::prelude::*;
use crate::codec::connack_accepted;
use crate::codec::connect_remaining_len;
use crate::codec::decode_connack;
use crate::codec::encode_connect;
use crate::codec::encode_publish;
use crate::codec::publish_remaining_len;
use crate::codec::spec_connect_frame;
use crate::codec::spec_publish_frame;
use crate::codec::EncodeError;
use crate::codec::Frame;
use crate::codec::MAX_REMAINING_LEN;

verus! {

/// Why a handshake attempt failed: at the byte-stream layer, at encode time,
/// or because the broker refused the connection.
#[derive(Clone, Copy, Debug, PartialEq, Eq)]
pub enum HandshakeError {
    /// The frame for this client identifier would exceed capacity.
    Encode { err: EncodeError },
    /// A write or read on the transport failed, its timeout included.
    Transport,
    /// A full acknowledgement arrived but did not report acceptance.
    Refused { raw: [u8; 4] },
}

/// Why a publish attempt failed: at encode time or on the wire.
#[derive(Clone, Copy, Debug, PartialEq, Eq)]
pub enum PublishError {
    /// The frame for this topic/payload pair would exceed capacity.
    Encode { err: EncodeError },
    /// A write on the transport failed, its timeout included.
    Transport,
}

/// The protocol client's state between calls: whether a handshake has
/// completed, with the acknowledgement that completed it kept as evidence.
pub struct ProtocolClient {
    connected: bool,
    last_ack: Ghost<Seq<u8>>,
}

impl ProtocolClient {
    /// Whether the client reports an established session.
    pub closed spec fn spec_connected(&self) -> bool {
        self.connected
    }

    /// The acknowledgement recorded when the client last became connected.
    pub closed spec fn spec_last_ack(&self) -> Seq<u8> {
        self.last_ack@
    }

    /// The client reports connected only while it holds an accepted
    /// acknowledgement as evidence.
    pub closed spec fn wf(&self) -> bool {
        self.connected ==> connack_accepted(self.last_ack@)
    }

    /// A fresh client has completed no handshake.
    pub fn new() -> (c: ProtocolClient)
        ensures
            c.wf(),
            !c.spec_connected(),
    {
        ProtocolClient { connected: false, last_ack: Ghost(Seq::empty()) }
    }

    /// Whether a handshake has completed since the last disconnect.
    pub fn is_connected(&self) -> (b: bool)
        ensures
            b == self.spec_connected(),
    {
        self.connected
    }

    /// Judges a handshake attempt from what the transport returned: `None`
    /// when the write or the 4-byte read failed, `Some` with the raw
    /// acknowledgement otherwise. The client becomes connected exactly when
    /// the acknowledgement reports acceptance.
    pub fn complete_handshake(&mut self, response: Option<[u8; 4]>) -> (r: Result<
        (),
        HandshakeError,
    >)
        requires
            old(self).wf(),
        ensures
            final(self).wf(),
            final(self).spec_connected() <==> (response matches Some(rx)
                && connack_accepted(rx@)),
            r is Ok <==> (response matches Some(rx) && connack_accepted(rx@)),
            response is None ==> r == Result::<(), HandshakeError>::Err(
                HandshakeError::Transport,
            ),
            response matches Some(rx) ==> (!connack_accepted(rx@) ==> r == Result::<
                (),
                HandshakeError,
            >::Err(HandshakeError::Refused { raw: rx })),
    {
        match response {
            None => {
                self.connected = false;
                Err(HandshakeError::Transport)
            },
            Some(rx) => {
                match decode_connack(rx) {
                    Ok(()) => {
                        self.connected = true;
                        self.last_ack = Ghost(rx@);
                        Ok(())
                    },
                    Err(_) => {
                        self.connected = false;
                        Err(HandshakeError::Refused { raw: rx })
                    },
                }
            },
        }
    }

    /// Encodes the CONNECT frame for a handshake attempt, with a failure
    /// surfacing in the handshake error taxonomy. The caller writes the
    /// frame and reads the 4-byte acknowledgement on its own session.
    pub fn prepare_connect(&self, client_id: &[u8]) -> (r: Result<Frame, HandshakeError>)
        ensures
            connect_remaining_len(client_id@) <= MAX_REMAINING_LEN ==> (r matches Ok(f)
                && f@ == spec_connect_frame(client_id@) && f.wf()),
            connect_remaining_len(client_id@) > MAX_REMAINING_LEN ==> r == Result::<
                Frame,
                HandshakeError,
            >::Err(HandshakeError::Encode { err: EncodeError::PayloadTooLarge }),
    {
        match encode_connect(client_id) {
            Ok(f) => Ok(f),
            Err(err) => Err(HandshakeError::Encode { err }),
        }
    }

    /// Encodes the PUBLISH frame for a publish attempt, with a failure
    /// surfacing in the publish error taxonomy. The caller writes the header
    /// and topic in one write and the payload in a second, both in full.
    pub fn prepare_publish(&self, topic: &[u8], payload: &[u8]) -> (r: Result<
        Frame,
        PublishError,
    >)
        ensures
            publish_remaining_len(topic@, payload@) <= MAX_REMAINING_LEN ==> (r matches Ok(f)
                && f@ == spec_publish_frame(topic@, payload@) && f.wf()),
            publish_remaining_len(topic@, payload@) > MAX_REMAINING_LEN ==> r == Result::<
                Frame,
                PublishError,
            >::Err(PublishError::Encode { err: EncodeError::PayloadTooLarge }),
    {
        match encode_publish(topic, payload) {
            Ok(f) => Ok(f),
            Err(err) => Err(PublishError::Encode { err }),
        }
    }

    /// Forgets the completed handshake; called when the session is closed or
    /// any transport operation fails.
    pub fn record_disconnect(&mut self)
        ensures
            final(self).wf(),
            !final(self).spec_connected(),
    {
        self.connected = false;
    }
}

/// Law: a well-formed client that reports connected holds an accepted
/// acknowledgement — it can never report connected before a CONNACK with the
/// accepted return code has been observed.
pub proof fn lemma_connected_implies_accepted_ack(c: ProtocolClient)
    requires
        c.wf(),
        c.spec_connected(),
    ensures
        connack_accepted(c.spec_last_ack()),
{
}

} // verus!
