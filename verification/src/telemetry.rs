//! Decision logic of the steady-state telemetry loop.
//!
//! Each iteration of the loop services the network stack, observes link and
//! socket health, drains at most one inbound frame, samples the sensor, and
//! publishes the sample when the MQTT session is connected. The servicing,
//! draining, sampling and pacing are outside work; the decisions between
//! them — what counts as a fault, whether the drained bytes reach the codec,
//! whether a PUBLISH frame is produced — stand here, and no failure of one
//! sub-step keeps the others from running.

use vstd::prelude::*;
use crate::packet_check::frames_safe_from;
use crate::reset_on_failure_count::{fire_delta, fires_over, ResetAction, ResettingCounter};
use crate::session::{
    publish_frame_of, published_of, receive_ok_of, views_of, MqttSession, SessionError,
    SocketPhase,
};

verus! {

/// How long each half of the heartbeat toggle holds, in milliseconds; one
/// iteration is paced to two halves.
pub const HEARTBEAT_HALF_PERIOD_MS: u64 = 500;

/// The connectivity faults one iteration counts: one when the radio reports
/// the link down, one when the socket is not established — each source at
/// most once per iteration.
pub open spec fn faults_of(wifi_connected: bool, phase: SocketPhase) -> nat {
    (if wifi_connected {
        0nat
    } else {
        1nat
    }) + (if phase is Established {
        0nat
    } else {
        1nat
    })
}

/// Whether an iteration drains the socket: only when data may be and
/// currently can be received.
pub fn should_drain(may_recv: bool, can_recv: bool) -> (drain: bool)
    ensures
        drain == (may_recv && can_recv),
{
    may_recv && can_recv
}

/// What one iteration of the telemetry loop decided and produced. Sub-step
/// failures are reported here for the log and never abort the iteration.
pub struct IterationOutcome {
    /// Connectivity faults counted on the watchdog this iteration: 0, 1 or 2.
    pub faults: u32,
    /// The application messages decoded from the drained bytes.
    pub messages: Vec<(Vec<u8>, Vec<u8>)>,
    /// The drained bytes were rejected or the codec reported an error.
    pub receive_failure: Option<SessionError>,
    /// The PUBLISH frame to write: present exactly when the session is
    /// connected once the drained bytes are in.
    pub publish_frame: Option<Vec<u8>>,
}

/// Decide one iteration of the telemetry loop: count each connectivity
/// fault once on the watchdog, feed the drained bytes (if any) through the
/// codec, and encode one PUBLISH frame carrying `payload` — but only when
/// the MQTT session is connected.
pub fn telemetry_iteration<F: ResetAction>(
    watchdog: &mut ResettingCounter<F>,
    session: &mut MqttSession,
    wifi_connected: bool,
    socket_phase: SocketPhase,
    inbound: Option<&[u8]>,
    topic: &str,
    payload: &[u8],
) -> (o: IterationOutcome)
    requires
        old(watchdog).count() + 2 <= u32::MAX as nat,
        old(session).wf(),
        4 * topic@.len() + payload@.len() + 11 <= 1024,
    ensures
        final(session).wf(),
        o.faults as nat == faults_of(wifi_connected, socket_phase),
        final(watchdog).threshold() == old(watchdog).threshold(),
        final(watchdog).count() == old(watchdog).count() + faults_of(
            wifi_connected,
            socket_phase,
        ),
        final(watchdog).fires() == old(watchdog).fires() + fires_over(
            old(watchdog).count(),
            old(watchdog).threshold(),
            faults_of(wifi_connected, socket_phase),
        ),
        inbound is None ==> o.messages@.len() == 0 && o.receive_failure is None
            && final(session).connected() == old(session).connected(),
        (inbound matches Some(bytes) ==> match o.receive_failure {
            None => views_of(o.messages@) == published_of(bytes@),
            Some(_) => o.messages@.len() == 0,
        }),
        (inbound matches Some(bytes) ==> (frames_safe_from(bytes@, 0) ==> (o.receive_failure
            is None) == receive_ok_of(bytes@))),
        (inbound matches Some(bytes) ==> (!frames_safe_from(bytes@, 0) ==> o.receive_failure
            == Some(SessionError::Malformed))),
        (o.publish_frame is Some) == final(session).connected(),
        (o.publish_frame matches Some(frame) ==> frame@ == publish_frame_of(topic@, payload@)),
{
    let ghost c = old(watchdog).count();
    let ghost t = old(watchdog).threshold();
    let mut faults: u32 = 0;
    if !wifi_connected {
        watchdog.increment_failure();
        faults = faults + 1;
    }
    let established = matches!(socket_phase, SocketPhase::Established);
    if !established {
        watchdog.increment_failure();
        faults = faults + 1;
    }
    proof {
        assert(fires_over(c, t, 0) == 0);
        assert(fires_over(c, t, 1) == fire_delta(c, t));
        assert(fires_over(c, t, 2) == fires_over(c, t, 1) + fire_delta((c + 1) as nat, t));
    }

    let mut messages: Vec<(Vec<u8>, Vec<u8>)> = Vec::new();
    let mut receive_failure: Option<SessionError> = None;
    match inbound {
        Some(bytes) => {
            match session.receive(bytes) {
                Ok(msgs) => {
                    messages = msgs;
                },
                Err(e) => {
                    receive_failure = Some(e);
                },
            }
        },
        None => {},
    }

    let mut publish_frame: Option<Vec<u8>> = None;
    if session.is_connected() {
        match session.publish(topic, payload) {
            Ok(frame) => {
                publish_frame = Some(frame);
            },
            Err(_) => {
                // a connected session owes the frame: this arm is unreachable
            },
        }
    }

    IterationOutcome { faults, messages, receive_failure, publish_frame }
}

} // verus!
