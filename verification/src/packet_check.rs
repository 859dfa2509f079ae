//! A guard for inbound MQTT frames.
//!
//! The codec's packet parser indexes its input without bounds checks and
//! unwraps a UTF-8 conversion, so a malformed or truncated frame makes it
//! panic instead of returning a parse error. Before any drained bytes are
//! handed to the codec, this module decides whether the parser will stay
//! inside its input on them. The decision is deliberately conservative in
//! two places, and bytes it rejects are treated as a parse failure:
//!
//! - a length prefix (the MQTT variable-length integer) is accepted only up
//!   to two bytes, covering every length below 16384 — far above the node's
//!   256-byte receive reads;
//! - a published topic is accepted only when its bytes are ASCII, which is
//!   sufficient for the UTF-8 conversion to succeed.

use vstd::prelude::*;

verus! {

/// Where a variable-length integer that starts at `i` ends (one past its
/// last byte), when it terminates within two bytes of the buffer.
pub open spec fn short_varint_end(b: Seq<u8>, i: nat) -> Option<nat> {
    if i < b.len() && b[i as int] < 0x80 {
        Some((i + 1) as nat)
    } else if i + 1 < b.len() && b[i as int] >= 0x80 && b[(i + 1) as int] < 0x80 {
        Some((i + 2) as nat)
    } else {
        None
    }
}

/// The value of a variable-length integer occupying bytes `i..end`: seven
/// value bits per byte, least significant group first.
pub open spec fn short_varint_value(b: Seq<u8>, i: nat, end: nat) -> nat {
    if end == i + 1 {
        (b[i as int] % 0x80) as nat
    } else {
        ((b[i as int] % 0x80) + 128 * (b[(i + 1) as int] % 0x80)) as nat
    }
}

/// Whether every byte of `b[from..to]` is ASCII.
pub open spec fn range_ascii(b: Seq<u8>, from: nat, to: nat) -> bool {
    forall|k: int| from <= k < to ==> #[trigger] b[k] < 0x80
}

/// Whether the codec's parser stays inside its input when it runs over the
/// frames of `b` from position `i` on.
///
/// Each frame is a fixed header byte, a remaining-length integer and
/// `remaining_length` content bytes. An acknowledgement frame needs its two
/// status bytes in bounds; an inbound publication additionally needs its
/// topic, property and payload regions in bounds, with an ASCII topic. Frame
/// types that make the parser stop with an error before touching the buffer
/// again are safe whatever follows them.
pub open spec fn frames_safe_from(b: Seq<u8>, i: nat) -> bool
    decreases b.len() - i,
{
    if i >= b.len() {
        true
    } else {
        let ty = b[i as int] / 16;
        match short_varint_end(b, (i + 1) as nat) {
            None => false,
            Some(m) => {
                let rl = short_varint_value(b, (i + 1) as nat, m);
                if ty == 2 {
                    // connection acknowledgement: two status bytes; a nonzero
                    // reason code makes the parser return before reading on
                    m + 2 <= b.len() && (b[(m + 1) as int] != 0 || (m + rl <= b.len()
                        && frames_safe_from(b, (m + rl) as nat)))
                } else if ty == 9 || ty == 11 {
                    // subscribe / unsubscribe acknowledgement: content skipped
                    m + rl <= b.len() && frames_safe_from(b, (m + rl) as nat)
                } else if ty == 3 {
                    publication_safe(b, m, rl)
                } else {
                    // every other type makes the parser return an error here
                    true
                }
            },
        }
    }
}

/// Whether the parser stays inside its input on an inbound publication whose
/// content starts at `m` with declared length `rl`, and on whatever follows.
pub open spec fn publication_safe(b: Seq<u8>, m: nat, rl: nat) -> bool
    decreases b.len() - m,
{
    if m + 2 <= b.len() {
        let tl = (b[m as int] as nat) * 256 + (b[(m + 1) as int] as nat);
        if m + 2 + tl <= b.len() && range_ascii(b, (m + 2) as nat, (m + 2 + tl) as nat) {
            match short_varint_end(b, (m + 2 + tl) as nat) {
                None => false,
                Some(c2) => {
                    let pl = short_varint_value(b, (m + 2 + tl) as nat, c2);
                    if c2 - m + pl <= rl && m + rl <= b.len() {
                        frames_safe_from(b, (m + rl) as nat)
                    } else {
                        false
                    }
                },
            }
        } else {
            false
        }
    } else {
        false
    }
}

/// Read the variable-length integer at `j`, when it terminates within two
/// bytes of the buffer.
fn read_short_varint(packet: &[u8], j: usize) -> (r: Option<(usize, usize)>)
    requires
        j <= packet@.len(),
    ensures
        (match r {
            Some(p) => {
                &&& short_varint_end(packet@, j as nat) == Some(p.0 as nat)
                &&& p.1 as nat == short_varint_value(packet@, j as nat, p.0 as nat)
                &&& j < p.0 <= packet@.len()
                &&& p.1 < 16384
            },
            None => short_varint_end(packet@, j as nat) is None,
        }),
{
    let n = packet.len();
    if j < n && packet[j] < 0x80 {
        Some((j + 1, (packet[j] % 0x80) as usize))
    } else if j < n && j + 1 < n && packet[j] >= 0x80 && packet[j + 1] < 0x80 {
        Some((j + 2, (packet[j] % 0x80) as usize + 128 * ((packet[j + 1] % 0x80) as usize)))
    } else {
        None
    }
}

/// Decide `frames_safe_from` for the frames of `packet` from position `i` on.
fn frames_safe_at(packet: &[u8], i: usize) -> (r: bool)
    requires
        i <= packet@.len(),
    ensures
        r == frames_safe_from(packet@, i as nat),
    decreases packet@.len() - i,
{
    let n = packet.len();
    if i >= n {
        return true;
    }
    let ty = packet[i] / 16;
    let (m, rl) = match read_short_varint(packet, i + 1) {
        Some(p) => p,
        None => {
            return false;
        },
    };
    if ty == 2 {
        if n - m < 2 {
            return false;
        }
        if packet[m + 1] != 0 {
            return true;
        }
        if rl > n - m {
            return false;
        }
        frames_safe_at(packet, m + rl)
    } else if ty == 9 || ty == 11 {
        if rl > n - m {
            return false;
        }
        frames_safe_at(packet, m + rl)
    } else if ty == 3 {
        publication_safe_at(packet, m, rl)
    } else {
        true
    }
}

/// Decide `publication_safe` for the inbound publication whose content
/// starts at `m` with declared length `rl`.
fn publication_safe_at(packet: &[u8], m: usize, rl: usize) -> (r: bool)
    requires
        m <= packet@.len(),
    ensures
        r == publication_safe(packet@, m as nat, rl as nat),
    decreases packet@.len() - m,
{
    let n = packet.len();
    if n - m < 2 {
        return false;
    }
    let tl = (packet[m] as usize) * 256 + (packet[m + 1] as usize);
    if tl > n - m - 2 {
        return false;
    }
    let mut k = m + 2;
    while k < m + 2 + tl
        invariant
            m + 2 <= k <= m + 2 + tl,
            m + 2 + tl <= n == packet@.len(),
            tl as int == (packet@[m as int] as int) * 256 + (packet@[(m + 1) as int] as int),
            range_ascii(packet@, (m + 2) as nat, k as nat),
        decreases m + 2 + tl - k,
    {
        if packet[k] >= 0x80 {
            proof {
                assert(!range_ascii(packet@, (m + 2) as nat, (m + 2 + tl) as nat));
            }
            return false;
        }
        k = k + 1;
    }
    let (c2, pl) = match read_short_varint(packet, m + 2 + tl) {
        Some(p) => p,
        None => {
            return false;
        },
    };
    if c2 - m > rl {
        return false;
    }
    if pl > rl - (c2 - m) {
        return false;
    }
    if rl > n - m {
        return false;
    }
    frames_safe_at(packet, m + rl)
}

/// Decide whether the codec's parser stays inside its input on `packet`.
/// Every drained frame passes through this decision before it reaches the
/// codec.
pub fn frames_safe(packet: &[u8]) -> (r: bool)
    ensures
        r == frames_safe_from(packet@, 0),
{
    frames_safe_at(packet, 0)
}

} // verus!
