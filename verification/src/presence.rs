//! The connection lifecycle: a small state machine around the presence
//! transport, and the exponential backoff that paces connect and
//! reconnect attempts.  The caller performs the transport calls and
//! feeds their outcomes in as events.

use vstd::prelude::*;
use crate::jellyfin::MediaType;
use crate::config::Discord;

verus! {

/// The connection to the presence transport.
#[derive(Debug, PartialEq, Eq, Structural, Clone, Copy)]
pub enum ConnectionState {
    /// No connection stands.
    Disconnected,
    /// An attempt is being made; failures keep retrying.
    Connecting,
    /// The transport accepted the connection.
    Connected,
}

/// What the caller observed on the transport.
#[derive(Debug, PartialEq, Eq, Structural, Clone, Copy)]
pub enum ConnectionEvent {
    /// A connect or reconnect attempt starts.
    AttemptStarted,
    /// The attempt succeeded.
    AttemptSucceeded,
    /// The attempt failed; the loop will retry after the backoff.
    AttemptFailed,
    /// A send was rejected for a transport reason.
    SendRejected,
    /// A soft signal — unrecognized media type or blacklisted content —
    /// which is no connection problem.
    SoftSignal,
}

/// The state after an event: attempts move through connecting to
/// connected, failures stay connecting (retried without bound), a
/// rejected send drops the connection, and soft signals change nothing.
pub open spec fn next_state_spec(s: ConnectionState, e: ConnectionEvent) -> ConnectionState {
    match e {
        ConnectionEvent::AttemptStarted => ConnectionState::Connecting,
        ConnectionEvent::AttemptSucceeded => ConnectionState::Connected,
        ConnectionEvent::AttemptFailed => ConnectionState::Connecting,
        ConnectionEvent::SendRejected => ConnectionState::Disconnected,
        ConnectionEvent::SoftSignal => s,
    }
}

impl ConnectionState {
    /// The state after an event, as [`next_state_spec`] describes.
    pub fn next(self, event: ConnectionEvent) -> (r: ConnectionState)
        ensures
            r == next_state_spec(self, event),
    {
        match event {
            ConnectionEvent::AttemptStarted => ConnectionState::Connecting,
            ConnectionEvent::AttemptSucceeded => ConnectionState::Connected,
            ConnectionEvent::AttemptFailed => ConnectionState::Connecting,
            ConnectionEvent::SendRejected => ConnectionState::Disconnected,
            ConnectionEvent::SoftSignal => self,
        }
    }
}

/// Two to the power `n`.
pub open spec fn pow2(n: nat) -> int
    decreases n,
{
    if n == 0 {
        1
    } else {
        2 * pow2((n - 1) as nat)
    }
}

/// The delay before a connect attempt: one second for the first, doubled
/// for each further attempt, saturating at the largest value.
pub fn backoff_delay_ms(attempt: u32) -> (r: u64)
    ensures
        attempt <= 1 ==> r == 1000,
        attempt >= 2 ==> ({
            let exact = 1000 * pow2((attempt - 1) as nat);
            (r as int == exact && exact <= u64::MAX) || (r == u64::MAX && exact >= u64::MAX)
        }),
{
    let mut d: u64 = 1000;
    let mut i: u32 = 1;
    if attempt <= 1 {
        return d;
    }
    while i < attempt
        invariant
            1 <= i <= attempt,
            ({
                let exact = 1000 * pow2((i - 1) as nat);
                (d as int == exact && exact <= u64::MAX) || (d == u64::MAX && exact >= u64::MAX)
            }),
        decreases attempt - i,
    {
        let ghost exact0 = 1000 * pow2((i - 1) as nat);
        proof {
            assert(pow2((i) as nat) == 2 * pow2((i - 1) as nat));
        }
        if d > u64::MAX / 2 {
            d = u64::MAX;
        } else {
            d = d * 2;
        }
        i = i + 1;
    }
    d
}

/// Whether a paused session is shown: books always (they carry no end
/// time), anything with an end time, and otherwise whatever the Discord
/// configuration says, shown by default.
pub open spec fn show_paused_spec(m: MediaType, endtime: Option<i64>, d: Option<Discord>) -> bool {
    if m == MediaType::Book {
        true
    } else if endtime is Some {
        true
    } else {
        match d {
            Option::Some(dd) => dd.show_paused,
            Option::None => true,
        }
    }
}

/// Whether a paused session is shown, as [`show_paused_spec`] describes.
pub fn show_paused(media_type: &MediaType, endtime: Option<i64>, discord: &Option<Discord>) -> (r:
    bool)
    ensures
        r == show_paused_spec(*media_type, endtime, *discord),
{
    if *media_type == MediaType::Book {
        return true;
    }
    if endtime.is_some() {
        return true;
    }
    match discord {
        Some(d) => d.show_paused,
        None => true,
    }
}

} // verus!
