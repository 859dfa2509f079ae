//! The MQTT session over one long-lived TCP connection: the decision logic
//! of the TCP-establishment wait loop, and a session type that drives the
//! MQTT codec for the connect handshake, inbound frames and outbound
//! publications.

use vstd::prelude::*;
use crate::packet_check::{frames_safe, frames_safe_from};
use crate::reset_on_failure_count::{fire_delta, ResetAction, ResettingCounter};

verus! {

/// Receive and transmit buffer size of the TCP socket, in bytes.
pub const SOCKET_BUFFER_BYTES: usize = 1024;

/// Idle timeout of the TCP socket, in seconds.
pub const SOCKET_IDLE_TIMEOUT_SECS: u64 = 600;

/// TCP port of the fixed broker.
pub const BROKER_PORT: u16 = 1883;

/// Fixed local port the connection is made from.
pub const LOCAL_PORT: u16 = 50000;

/// How many bytes one receive drain reads at most.
pub const RECV_CHUNK_BYTES: usize = 256;

/// How long to wait between two polls of the establishing socket, in
/// milliseconds.
pub const TCP_RETRY_DELAY_MS: u64 = 500;

/// The TCP socket's state, as far as the session logic reads it.
#[derive(Clone, Copy, PartialEq, Eq, Structural, Debug)]
pub enum SocketPhase {
    /// The connection fell back to closed.
    Closed,
    /// The connection is established.
    Established,
    /// Any transitional state on the way up or down.
    Transitional,
}

/// What the TCP-establishment wait loop does after one socket observation.
#[derive(Clone, Copy, PartialEq, Eq, Structural, Debug)]
pub enum EstablishAction {
    /// A closed socket is unrecoverable within this boot: the reset action
    /// has been fired directly, bypassing the failure count.
    ResetDevice,
    /// The connection is established: leave the wait loop.
    Proceed,
    /// Wait `TCP_RETRY_DELAY_MS` and poll again.
    RetryAfterDelay,
}

/// Decide one iteration of the TCP-establishment wait loop and account for
/// it on the watchdog: an established socket ends the wait, a transitional
/// state consumes one watchdog credit, and a closed socket fires the reset
/// action immediately without counting toward the threshold.
pub fn tcp_establish_step<F: ResetAction>(
    watchdog: &mut ResettingCounter<F>,
    phase: SocketPhase,
) -> (action: EstablishAction)
    requires
        old(watchdog).count() < u32::MAX as nat,
    ensures
        action == (match phase {
            SocketPhase::Closed => EstablishAction::ResetDevice,
            SocketPhase::Established => EstablishAction::Proceed,
            SocketPhase::Transitional => EstablishAction::RetryAfterDelay,
        }),
        final(watchdog).threshold() == old(watchdog).threshold(),
        match phase {
            SocketPhase::Closed => final(watchdog).count() == old(watchdog).count()
                && final(watchdog).fires() == old(watchdog).fires() + 1,
            SocketPhase::Established => *final(watchdog) == *old(watchdog),
            SocketPhase::Transitional => final(watchdog).count() == old(watchdog).count() + 1
                && final(watchdog).fires() == old(watchdog).fires() + fire_delta(
                old(watchdog).count(),
                old(watchdog).threshold(),
            ),
        },
{
    match phase {
        SocketPhase::Closed => {
            watchdog.force_reset();
            EstablishAction::ResetDevice
        },
        SocketPhase::Established => EstablishAction::Proceed,
        SocketPhase::Transitional => {
            watchdog.increment_failure();
            EstablishAction::RetryAfterDelay
        },
    }
}

/// Why a session operation did not produce a frame or a message.
#[derive(Clone, Copy, PartialEq, Eq, Structural, Debug)]
pub enum SessionError {
    /// The session has no confirmed MQTT connection.
    NotConnected,
    /// The drained bytes are not a well-formed frame sequence.
    Malformed,
    /// The broker refused the connection.
    Refused,
    /// The broker ended the connection.
    Closed,
}

#[verifier::external_type_specification]
#[verifier::external_body]
pub struct ExMqttClient<const N: usize>(tinymqtt::MqttClient<N>);

/// The CONNECT frame the codec encodes for these credentials.
pub uninterp spec fn connect_frame_of(
    client_id: Seq<char>,
    username: Seq<char>,
    password: Seq<char>,
) -> Seq<u8>;

/// The PUBLISH frame the codec encodes for this topic and payload.
pub uninterp spec fn publish_frame_of(topic: Seq<char>, payload: Seq<u8>) -> Seq<u8>;

/// The application messages, as topic and payload, that the codec's parser
/// decodes from a fully parsed frame sequence.
pub uninterp spec fn published_of(packet: Seq<u8>) -> Seq<(Seq<u8>, Seq<u8>)>;

/// Whether the codec's parser accepts a frame sequence without an error
/// return: it rejects an unrecognized frame type, a refused connection
/// acknowledgement and a disconnect frame, each decided by the bytes alone.
pub uninterp spec fn receive_ok_of(packet: Seq<u8>) -> bool;

/// Whether the codec's session state machine stands in its connected state:
/// true only between a successful CONNECT/CONNACK exchange and the next
/// disconnection.
pub uninterp spec fn codec_connected_of(c: tinymqtt::MqttClient<1024>) -> bool;

/// The byte views of collected topic-and-payload pairs.
pub open spec fn views_of(msgs: Seq<(Vec<u8>, Vec<u8>)>) -> Seq<(Seq<u8>, Seq<u8>)> {
    msgs.map_values(|msg: (Vec<u8>, Vec<u8>)| (msg.0@, msg.1@))
}

/// Relies on tinymqtt's `MqttClient::new`: a fresh codec that starts in its
/// disconnected state.
#[verifier::external_body]
fn client_new() -> (c: tinymqtt::MqttClient<1024>)
    ensures
        !codec_connected_of(c),
{
    tinymqtt::MqttClient::new()
}

/// Relies on tinymqtt's `MqttClient::connect`: it encodes the CONNECT frame
/// for these credentials — a function of them alone — and cannot fail; it
/// moves the codec to its connecting state, which is not the connected one.
/// The bound on the lengths keeps the frame inside the codec's 1024-byte
/// buffers, each character taking at most four bytes.
#[verifier::external_body]
fn client_connect(
    c: &mut tinymqtt::MqttClient<1024>,
    client_id: &str,
    username: &str,
    password: &str,
) -> (frame: Vec<u8>)
    requires
        client_id@.len() + username@.len() + password@.len() <= 250,
    ensures
        frame@ == connect_frame_of(client_id@, username@, password@),
        !codec_connected_of(*final(c)),
{
    match c.connect(client_id, Some((username, password))) {
        Ok(frame) => frame.to_vec(),
        Err(_) => Vec::new(),
    }
}

/// Relies on tinymqtt's `MqttClient::publish`: in the codec's connected
/// state — the only state it reads, and one it never changes — it encodes
/// the PUBLISH frame for this topic and payload, a function of them alone;
/// in any other state it reports the invalid state, its only error. The
/// bound on the lengths keeps the frame inside the codec's 1024-byte
/// buffers, each character taking at most four bytes.
#[verifier::external_body]
fn client_publish(
    c: &mut tinymqtt::MqttClient<1024>,
    topic: &str,
    payload: &[u8],
) -> (r: Result<Vec<u8>, SessionError>)
    requires
        4 * topic@.len() + payload@.len() + 11 <= 1024,
    ensures
        (r is Ok) == codec_connected_of(*old(c)),
        codec_connected_of(*final(c)) == codec_connected_of(*old(c)),
        (r matches Ok(frame) ==> frame@ == publish_frame_of(topic@, payload@)),
        (r matches Err(e) ==> e == SessionError::NotConnected),
{
    match c.publish(topic, payload) {
        Ok(frame) => Ok(frame.to_vec()),
        Err(_) => Err(SessionError::NotConnected),
    }
}

/// Relies on tinymqtt's `MqttClient::receive_packet`: it runs the parser
/// over the drained frames, keeps the codec's session state, and hands each
/// decoded application message — a function of the frame bytes alone — to
/// the callback, which only converts and collects it. Whether it accepts or
/// returns an error is likewise decided by the bytes alone. The safety
/// precondition keeps the parser inside its input.
#[verifier::external_body]
fn client_receive(
    c: &mut tinymqtt::MqttClient<1024>,
    packet: &[u8],
    out: &mut Vec<(Vec<u8>, Vec<u8>)>,
) -> (r: Result<(), SessionError>)
    requires
        frames_safe_from(packet@, 0),
    ensures
        (r is Ok) == receive_ok_of(packet@),
        (r is Ok ==> views_of(final(out)@) == views_of(old(out)@) + published_of(packet@)),
{
    let status = c.receive_packet(packet, |_c, topic, payload| {
        out.push((topic.as_bytes().to_vec(), payload.to_vec()));
    });
    match status {
        Ok(_) => Ok(()),
        Err(tinymqtt::MqttError::InvalidState) => Err(SessionError::NotConnected),
        Err(tinymqtt::MqttError::InvalidPacket) => Err(SessionError::Malformed),
        Err(tinymqtt::MqttError::ConnectionRefused) => Err(SessionError::Refused),
        Err(tinymqtt::MqttError::Disconnected) => Err(SessionError::Closed),
    }
}

/// Relies on tinymqtt's `MqttClient::is_connected`: it reports exactly
/// whether the codec's state machine stands in its connected state.
#[verifier::external_body]
fn client_is_connected(c: &tinymqtt::MqttClient<1024>) -> (r: bool)
    ensures
        r == codec_connected_of(*c),
{
    c.is_connected()
}

/// The MQTT session: the codec with its buffers, and the connected flag the
/// publish path is gated on. The flag mirrors what the codec reported after
/// the last exchange that could change it.
pub struct MqttSession {
    client: tinymqtt::MqttClient<1024>,
    connected: bool,
}

impl MqttSession {
    /// Whether the session has a confirmed MQTT connection.
    pub closed spec fn connected(&self) -> bool {
        self.connected
    }

    /// Well-formedness: the connected flag mirrors the codec's own state.
    /// `new` establishes it and every method preserves it; it is what makes
    /// the flag an honest gate for the publish path.
    pub closed spec fn wf(&self) -> bool {
        self.connected == codec_connected_of(self.client)
    }

    pub fn new() -> (s: MqttSession)
        ensures
            !s.connected(),
            s.wf(),
    {
        MqttSession { client: client_new(), connected: false }
    }

    /// Report whether the session has a confirmed MQTT connection.
    pub fn is_connected(&self) -> (b: bool)
        ensures
            b == self.connected(),
    {
        self.connected
    }

    /// Encode the CONNECT frame for these credentials, to be written to the
    /// socket in one call. The connection is confirmed only once the
    /// broker's acknowledgement comes back through `receive`, so the session
    /// is not connected when this returns.
    pub fn handshake(&mut self, client_id: &str, username: &str, password: &str) -> (frame: Vec<u8>)
        requires
            client_id@.len() + username@.len() + password@.len() <= 250,
        ensures
            frame@ == connect_frame_of(client_id@, username@, password@),
            !final(self).connected(),
            final(self).wf(),
    {
        let frame = client_connect(&mut self.client, client_id, username, password);
        self.connected = false;
        frame
    }

    /// Feed one drained frame sequence to the codec and collect the decoded
    /// application messages. Bytes on which the codec's parser would leave
    /// its input are rejected as malformed without reaching it; on accepted
    /// bytes the parser's verdict is a function of the bytes alone. A parse
    /// failure is reported, never escalated.
    pub fn receive(&mut self, packet: &[u8]) -> (r: Result<Vec<(Vec<u8>, Vec<u8>)>, SessionError>)
        requires
            old(self).wf(),
        ensures
            final(self).wf(),
            (r matches Ok(msgs) ==> views_of(msgs@) == published_of(packet@)),
            frames_safe_from(packet@, 0) ==> (r is Ok) == receive_ok_of(packet@),
            !frames_safe_from(packet@, 0) ==> r == Err::<Vec<(Vec<u8>, Vec<u8>)>, SessionError>(
                SessionError::Malformed,
            ) && *final(self) == *old(self),
    {
        if !frames_safe(packet) {
            return Err(SessionError::Malformed);
        }
        let mut msgs: Vec<(Vec<u8>, Vec<u8>)> = Vec::new();
        let status = client_receive(&mut self.client, packet, &mut msgs);
        self.connected = client_is_connected(&self.client);
        match status {
            Ok(_) => {
                proof {
                    assert(views_of(msgs@) =~= views_of(Seq::<(Vec<u8>, Vec<u8>)>::empty())
                        + published_of(packet@));
                    assert(views_of(Seq::<(Vec<u8>, Vec<u8>)>::empty()) =~= Seq::<(
                        Seq<u8>,
                        Seq<u8>,
                    )>::empty());
                }
                Ok(msgs)
            },
            Err(e) => Err(e),
        }
    }

    /// Encode a PUBLISH frame carrying `payload` on `topic`, gated on the
    /// connected flag: a connected session owes the frame, and one without a
    /// confirmed connection writes nothing and reports why.
    pub fn publish(&mut self, topic: &str, payload: &[u8]) -> (r: Result<Vec<u8>, SessionError>)
        requires
            old(self).wf(),
            4 * topic@.len() + payload@.len() + 11 <= 1024,
        ensures
            final(self).wf(),
            final(self).connected() == old(self).connected(),
            (r is Ok) == old(self).connected(),
            !old(self).connected() ==> r == Err::<Vec<u8>, SessionError>(
                SessionError::NotConnected,
            ),
            (r matches Ok(frame) ==> frame@ == publish_frame_of(topic@, payload@)),
    {
        if !self.connected {
            return Err(SessionError::NotConnected);
        }
        match client_publish(&mut self.client, topic, payload) {
            Ok(frame) => Ok(frame),
            Err(e) => Err(e),
        }
    }
}

} // verus!
