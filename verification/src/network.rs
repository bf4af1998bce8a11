//! Client network view: connection state, attempt ownership, session-local
//! facts, counters and a bounded diagnostic history.
//!
//! Allowed `ConnectionState` transitions:
//!
//! ```text
//! Disconnected → Connecting
//! Rejected     → Connecting
//! Connecting   → Handshaking | Disconnected
//! Handshaking  → Connected | Rejected | Disconnected
//! Connected    → Disconnected
//! ```

use vstd::prelude::*;

verus! {

/// Bound on the diagnostic history ring.
pub const NETWORK_HISTORY_CAP: usize = 64;

#[derive(Clone, Copy, Debug, PartialEq, Eq, Structural)]
pub enum ConnectionState {
    Disconnected,
    Connecting,
    Handshaking,
    Connected,
    Rejected,
}

/// Why a session ended or was refused.
#[derive(Clone, Copy, Debug, PartialEq, Eq, Structural)]
pub enum NetworkFailureKind {
    ConnectFailed,
    TransportLost,
    HandshakeTimeout,
    IdleTimeout,
    VersionMismatch,
    UnexpectedMessage,
    MalformedMessage,
    ServerShutdown,
    LocalShutdown,
    ClientRequestedDisconnect,
}

/// Identity of one connect attempt. Raw `0` means "no attempt".
#[derive(Clone, Copy, Debug, PartialEq, Eq, Structural)]
pub struct ConnectionAttemptId {
    pub raw: u64,
}

impl ConnectionAttemptId {
    /// The "no attempt" id.
    pub fn none() -> (id: Self)
        ensures
            id.raw == 0,
    {
        ConnectionAttemptId { raw: 0 }
    }

    pub fn from_raw(raw: u64) -> (id: Self)
        ensures
            id.raw == raw,
    {
        ConnectionAttemptId { raw }
    }

    pub fn get(self) -> (raw: u64)
        ensures
            raw == self.raw,
    {
        self.raw
    }

    pub fn is_none(self) -> (b: bool)
        ensures
            b == (self.raw == 0),
    {
        self.raw == 0
    }
}

/// Server-assigned session identity.
#[derive(Clone, Copy, Debug, PartialEq, Eq, Structural)]
pub struct ConnectionId {
    pub raw: u64,
}

impl ConnectionId {
    pub fn from_raw(raw: u64) -> (id: Self)
        ensures
            id.raw == raw,
    {
        ConnectionId { raw }
    }

    pub fn get(self) -> (raw: u64)
        ensures
            raw == self.raw,
    {
        self.raw
    }
}

/// Event delivered by the network runtime, tagged with the attempt it belongs to.
/// Gameplay payloads (interact, equipment, one-shot, ability) stay with the
/// caller; the lifecycle only needs their kind.
#[derive(Clone, Copy, Debug, PartialEq, Eq, Structural)]
pub enum NetworkEvent {
    Connecting { attempt_id: ConnectionAttemptId },
    Handshaking { attempt_id: ConnectionAttemptId },
    Connected {
        attempt_id: ConnectionAttemptId,
        connection_id: ConnectionId,
        protocol_version: u32,
        server_tick_rate: u32,
    },
    Rejected { attempt_id: ConnectionAttemptId, kind: NetworkFailureKind },
    Disconnected { attempt_id: ConnectionAttemptId, kind: NetworkFailureKind },
    /// Round-trip time in microseconds.
    RttUpdated { attempt_id: ConnectionAttemptId, rtt_micros: u64 },
    Interact { attempt_id: ConnectionAttemptId },
    Equipment { attempt_id: ConnectionAttemptId },
    PresentationOneShot { attempt_id: ConnectionAttemptId },
    Ability { attempt_id: ConnectionAttemptId },
}

pub open spec fn event_attempt(e: NetworkEvent) -> ConnectionAttemptId {
    match e {
        NetworkEvent::Connecting { attempt_id } => attempt_id,
        NetworkEvent::Handshaking { attempt_id } => attempt_id,
        NetworkEvent::Connected { attempt_id, .. } => attempt_id,
        NetworkEvent::Rejected { attempt_id, .. } => attempt_id,
        NetworkEvent::Disconnected { attempt_id, .. } => attempt_id,
        NetworkEvent::RttUpdated { attempt_id, .. } => attempt_id,
        NetworkEvent::Interact { attempt_id } => attempt_id,
        NetworkEvent::Equipment { attempt_id } => attempt_id,
        NetworkEvent::PresentationOneShot { attempt_id } => attempt_id,
        NetworkEvent::Ability { attempt_id } => attempt_id,
    }
}

/// Everything but RTT telemetry is a lifecycle event.
pub open spec fn event_is_lifecycle(e: NetworkEvent) -> bool {
    !(e is RttUpdated)
}

impl NetworkEvent {
    pub fn attempt_id(&self) -> (id: ConnectionAttemptId)
        ensures
            id == event_attempt(*self),
    {
        match *self {
            NetworkEvent::Connecting { attempt_id } => attempt_id,
            NetworkEvent::Handshaking { attempt_id } => attempt_id,
            NetworkEvent::Connected { attempt_id, .. } => attempt_id,
            NetworkEvent::Rejected { attempt_id, .. } => attempt_id,
            NetworkEvent::Disconnected { attempt_id, .. } => attempt_id,
            NetworkEvent::RttUpdated { attempt_id, .. } => attempt_id,
            NetworkEvent::Interact { attempt_id } => attempt_id,
            NetworkEvent::Equipment { attempt_id } => attempt_id,
            NetworkEvent::PresentationOneShot { attempt_id } => attempt_id,
            NetworkEvent::Ability { attempt_id } => attempt_id,
        }
    }

    pub fn is_lifecycle(&self) -> (b: bool)
        ensures
            b == event_is_lifecycle(*self),
    {
        match *self {
            NetworkEvent::RttUpdated { .. } => false,
            _ => true,
        }
    }
}

/// What one history slot records.
#[derive(Clone, Copy, Debug, PartialEq, Eq, Structural)]
pub enum HistoryKind {
    Connecting,
    Handshaking,
    Connected,
    Rejected(NetworkFailureKind),
    Disconnected(NetworkFailureKind),
    Interact,
    Equipment,
    PresentationOneShot,
    Ability,
    /// A stale or illegal event recorded in verbose mode.
    Ignored,
}

#[derive(Clone, Copy, Debug, PartialEq, Eq, Structural)]
pub struct HistoryEntry {
    pub attempt: u64,
    pub kind: HistoryKind,
}

#[derive(Clone, Copy, Debug, PartialEq, Eq, Structural)]
pub struct NetworkCounters {
    pub lifecycle_events: u64,
    pub telemetry_events: u64,
    pub stale_events_ignored: u64,
    pub dropped_telemetry: u64,
}

/// Latest and aggregate RTT of the current session (microseconds).
#[derive(Clone, Copy, Debug, PartialEq, Eq, Structural)]
pub struct RttStats {
    pub latest: Option<u64>,
    pub samples: u64,
}

/// Diagnostic copy of the view for presentation.
#[derive(Clone, Debug)]
pub struct NetworkSnapshot {
    pub screen: String,
    pub state: ConnectionState,
    pub active_attempt: u64,
    pub connection_id: Option<u64>,
    pub events_dropped: u64,
    pub stale_events_ignored: u64,
    pub lifecycle_events: u64,
    pub telemetry_events: u64,
    pub history_len: usize,
}

/// Connection state plus session-local facts. Fields are readable for diagnostics.
#[derive(Clone, Debug)]
pub struct NetworkView {
    pub server: String,
    pub state: ConnectionState,
    pub active_attempt: ConnectionAttemptId,
    /// Highest attempt id ever handed out.
    pub last_attempt: u64,
    pub connection_id: Option<ConnectionId>,
    pub protocol_version: Option<u32>,
    pub server_tick_rate: Option<u32>,
    /// Logical time (lifecycle event count) at which the session connected.
    pub connected_since: Option<u64>,
    pub rtt: Option<u64>,
    pub rtt_stats: RttStats,
    pub last_failure: Option<NetworkFailureKind>,
    pub counters: NetworkCounters,
    pub history: Vec<HistoryEntry>,
}

/// Mathematical model of a [`NetworkView`] (the server label is not modelled).
pub struct NetworkModel {
    pub state: ConnectionState,
    pub active_attempt: u64,
    pub last_attempt: u64,
    pub connection_id: Option<u64>,
    pub protocol_version: Option<u32>,
    pub server_tick_rate: Option<u32>,
    pub connected_since: Option<u64>,
    pub rtt: Option<u64>,
    pub rtt_stats: RttStats,
    pub last_failure: Option<NetworkFailureKind>,
    pub counters: NetworkCounters,
    pub history: Seq<HistoryEntry>,
}

pub open spec fn opt_conn_raw(c: Option<ConnectionId>) -> Option<u64> {
    match c {
        Some(id) => Some(id.raw),
        None => None,
    }
}

impl View for NetworkView {
    type V = NetworkModel;

    open spec fn view(&self) -> NetworkModel {
        NetworkModel {
            state: self.state,
            active_attempt: self.active_attempt.raw,
            last_attempt: self.last_attempt,
            connection_id: opt_conn_raw(self.connection_id),
            protocol_version: self.protocol_version,
            server_tick_rate: self.server_tick_rate,
            connected_since: self.connected_since,
            rtt: self.rtt,
            rtt_stats: self.rtt_stats,
            last_failure: self.last_failure,
            counters: self.counters,
            history: self.history@,
        }
    }
}

pub open spec fn sat_inc(x: u64) -> u64 {
    if x == u64::MAX {
        x
    } else {
        (x + 1) as u64
    }
}

/// Append to the history ring, dropping the oldest entry past the cap.
pub open spec fn record(h: Seq<HistoryEntry>, e: HistoryEntry) -> Seq<HistoryEntry> {
    if h.len() >= NETWORK_HISTORY_CAP {
        h.drop_first().push(e)
    } else {
        h.push(e)
    }
}

pub open spec fn can_connect_state(s: ConnectionState) -> bool {
    s == ConnectionState::Disconnected || s == ConnectionState::Rejected
}

pub open spec fn session_active_state(s: ConnectionState) -> bool {
    s == ConnectionState::Connecting || s == ConnectionState::Handshaking || s
        == ConnectionState::Connected
}

/// Session-local facts are cleared; everything else is kept.
pub open spec fn cleared_session(m: NetworkModel) -> NetworkModel {
    NetworkModel {
        connection_id: None,
        protocol_version: None,
        server_tick_rate: None,
        connected_since: None,
        rtt: None,
        rtt_stats: RttStats { latest: None, samples: 0 },
        ..m
    }
}

pub open spec fn initial_model() -> NetworkModel {
    NetworkModel {
        state: ConnectionState::Disconnected,
        active_attempt: 0,
        last_attempt: 0,
        connection_id: None,
        protocol_version: None,
        server_tick_rate: None,
        connected_since: None,
        rtt: None,
        rtt_stats: RttStats { latest: None, samples: 0 },
        last_failure: None,
        counters: NetworkCounters {
            lifecycle_events: 0,
            telemetry_events: 0,
            stale_events_ignored: 0,
            dropped_telemetry: 0,
        },
        history: Seq::empty(),
    }
}

/// Result of `try_begin_connect` on the model: `None` when a session is in
/// progress (or attempt ids are exhausted).
pub open spec fn begin_connect(m: NetworkModel) -> Option<NetworkModel> {
    if !can_connect_state(m.state) || m.last_attempt == u64::MAX {
        None
    } else {
        Some(
            NetworkModel {
                state: ConnectionState::Connecting,
                active_attempt: (m.last_attempt + 1) as u64,
                last_attempt: (m.last_attempt + 1) as u64,
                ..cleared_session(m)
            },
        )
    }
}

/// The active attempt is retired. A session in progress becomes a
/// client-requested disconnect.
pub open spec fn invalidate_attempt(m: NetworkModel) -> NetworkModel {
    if session_active_state(m.state) {
        NetworkModel {
            state: ConnectionState::Disconnected,
            active_attempt: 0,
            last_failure: Some(NetworkFailureKind::ClientRequestedDisconnect),
            ..cleared_session(m)
        }
    } else {
        NetworkModel { active_attempt: 0, ..m }
    }
}

/// A connect command never reached the runtime.
pub open spec fn fail_unsent(m: NetworkModel) -> NetworkModel {
    NetworkModel {
        state: ConnectionState::Disconnected,
        active_attempt: 0,
        last_failure: Some(NetworkFailureKind::ConnectFailed),
        ..cleared_session(m)
    }
}

pub open spec fn note_stale(m: NetworkModel, record_it: bool, attempt: u64) -> NetworkModel {
    NetworkModel {
        counters: NetworkCounters {
            stale_events_ignored: sat_inc(m.counters.stale_events_ignored),
            ..m.counters
        },
        history: if record_it {
            record(m.history, HistoryEntry { attempt, kind: HistoryKind::Ignored })
        } else {
            m.history
        },
        ..m
    }
}

pub open spec fn count_lifecycle(m: NetworkModel, e: HistoryEntry) -> NetworkModel {
    NetworkModel {
        counters: NetworkCounters {
            lifecycle_events: sat_inc(m.counters.lifecycle_events),
            ..m.counters
        },
        history: record(m.history, e),
        ..m
    }
}

/// Effect of an event that already passed the attempt and legality filters.
pub open spec fn apply_trusted(m: NetworkModel, e: NetworkEvent) -> NetworkModel {
    let a = event_attempt(e).raw;
    match e {
        NetworkEvent::Connecting { .. } => count_lifecycle(
            NetworkModel { state: ConnectionState::Connecting, ..m },
            HistoryEntry { attempt: a, kind: HistoryKind::Connecting },
        ),
        NetworkEvent::Handshaking { .. } => count_lifecycle(
            NetworkModel { state: ConnectionState::Handshaking, ..m },
            HistoryEntry { attempt: a, kind: HistoryKind::Handshaking },
        ),
        NetworkEvent::Connected { connection_id, protocol_version, server_tick_rate, .. } => {
            count_lifecycle(
                NetworkModel {
                    state: ConnectionState::Connected,
                    connection_id: Some(connection_id.raw),
                    protocol_version: Some(protocol_version),
                    server_tick_rate: Some(server_tick_rate),
                    connected_since: Some(m.counters.lifecycle_events),
                    rtt: None,
                    rtt_stats: RttStats { latest: None, samples: 0 },
                    ..m
                },
                HistoryEntry { attempt: a, kind: HistoryKind::Connected },
            )
        },
        NetworkEvent::Rejected { kind, .. } => count_lifecycle(
            NetworkModel {
                state: ConnectionState::Rejected,
                last_failure: Some(kind),
                ..cleared_session(m)
            },
            HistoryEntry { attempt: a, kind: HistoryKind::Rejected(kind) },
        ),
        NetworkEvent::Disconnected { kind, .. } => count_lifecycle(
            NetworkModel {
                state: ConnectionState::Disconnected,
                last_failure: Some(kind),
                ..cleared_session(m)
            },
            HistoryEntry { attempt: a, kind: HistoryKind::Disconnected(kind) },
        ),
        NetworkEvent::RttUpdated { rtt_micros, .. } => NetworkModel {
            rtt: Some(rtt_micros),
            rtt_stats: RttStats { latest: Some(rtt_micros), samples: sat_inc(m.rtt_stats.samples) },
            counters: NetworkCounters {
                telemetry_events: sat_inc(m.counters.telemetry_events),
                ..m.counters
            },
            ..m
        },
        NetworkEvent::Interact { .. } => count_lifecycle(
            m,
            HistoryEntry { attempt: a, kind: HistoryKind::Interact },
        ),
        NetworkEvent::Equipment { .. } => count_lifecycle(
            m,
            HistoryEntry { attempt: a, kind: HistoryKind::Equipment },
        ),
        NetworkEvent::PresentationOneShot { .. } => count_lifecycle(
            m,
            HistoryEntry { attempt: a, kind: HistoryKind::PresentationOneShot },
        ),
        NetworkEvent::Ability { .. } => count_lifecycle(
            m,
            HistoryEntry { attempt: a, kind: HistoryKind::Ability },
        ),
    }
}

/// Well-formed views: the history is bounded, the active attempt was handed
/// out, and a connected view always carries its connection id.
pub open spec fn view_wf(m: NetworkModel) -> bool {
    &&& m.history.len() <= NETWORK_HISTORY_CAP
    &&& m.active_attempt <= m.last_attempt
    &&& m.state == ConnectionState::Connected ==> m.connection_id is Some
    &&& m.connection_id is Some ==> m.state == ConnectionState::Connected
}

fn sat_inc_exec(x: u64) -> (r: u64)
    ensures
        r == sat_inc(x),
{
    if x == u64::MAX {
        x
    } else {
        x + 1
    }
}

impl NetworkView {
    pub fn new(server: String) -> (v: Self)
        ensures
            v@ == initial_model(),
            v.server@ == server@,
            view_wf(v@),
    {
        let v = NetworkView {
            server,
            state: ConnectionState::Disconnected,
            active_attempt: ConnectionAttemptId::none(),
            last_attempt: 0,
            connection_id: None,
            protocol_version: None,
            server_tick_rate: None,
            connected_since: None,
            rtt: None,
            rtt_stats: RttStats { latest: None, samples: 0 },
            last_failure: None,
            counters: NetworkCounters {
                lifecycle_events: 0,
                telemetry_events: 0,
                stale_events_ignored: 0,
                dropped_telemetry: 0,
            },
            history: Vec::new(),
        };
        assert(v@.history =~= Seq::<HistoryEntry>::empty());
        v
    }

    pub fn can_connect(&self) -> (b: bool)
        ensures
            b == can_connect_state(self.state),
    {
        self.state == ConnectionState::Disconnected || self.state == ConnectionState::Rejected
    }

    fn clear_session(&mut self)
        ensures
            final(self)@ == cleared_session(old(self)@),
            final(self).server == old(self).server,
    {
        self.connection_id = None;
        self.protocol_version = None;
        self.server_tick_rate = None;
        self.connected_since = None;
        self.rtt = None;
        self.rtt_stats = RttStats { latest: None, samples: 0 };
    }

    fn push_history(&mut self, e: HistoryEntry)
        requires
            old(self).history@.len() <= NETWORK_HISTORY_CAP,
        ensures
            final(self)@ == (NetworkModel { history: record(old(self)@.history, e), ..old(self)@ }),
            final(self).server == old(self).server,
            final(self).history@.len() <= NETWORK_HISTORY_CAP,
    {
        if self.history.len() >= NETWORK_HISTORY_CAP {
            self.history.remove(0);
            self.history.push(e);
            assert(self.history@ =~= record(old(self)@.history, e));
        } else {
            self.history.push(e);
        }
    }

    /// New attempt id and Connecting. `None` if a session is already in progress.
    pub fn try_begin_connect(&mut self) -> (id: Option<ConnectionAttemptId>)
        ensures
            match begin_connect(old(self)@) {
                Some(m) => final(self)@ == m && id == Some(
                    ConnectionAttemptId { raw: m.active_attempt },
                ),
                None => final(self)@ == old(self)@ && id is None,
            },
            final(self).server == old(self).server,
    {
        if !self.can_connect() || self.last_attempt == u64::MAX {
            return None;
        }
        self.clear_session();
        self.last_attempt = self.last_attempt + 1;
        self.active_attempt = ConnectionAttemptId { raw: self.last_attempt };
        self.state = ConnectionState::Connecting;
        Some(self.active_attempt)
    }

    pub fn invalidate_attempt(&mut self)
        ensures
            final(self)@ == invalidate_attempt(old(self)@),
            final(self).server == old(self).server,
    {
        if self.state == ConnectionState::Connecting || self.state == ConnectionState::Handshaking
            || self.state == ConnectionState::Connected {
            self.clear_session();
            self.state = ConnectionState::Disconnected;
            self.last_failure = Some(NetworkFailureKind::ClientRequestedDisconnect);
        }
        self.active_attempt = ConnectionAttemptId::none();
    }

    pub fn fail_unsent_connect(&mut self)
        ensures
            final(self)@ == fail_unsent(old(self)@),
            final(self).server == old(self).server,
    {
        self.clear_session();
        self.state = ConnectionState::Disconnected;
        self.active_attempt = ConnectionAttemptId::none();
        self.last_failure = Some(NetworkFailureKind::ConnectFailed);
    }

    pub fn set_dropped_telemetry(&mut self, dropped: u64)
        ensures
            final(self)@ == (NetworkModel {
                counters: NetworkCounters { dropped_telemetry: dropped, ..old(self)@.counters },
                ..old(self)@
            }),
            final(self).server == old(self).server,
    {
        self.counters.dropped_telemetry = dropped;
    }

    /// Reset the history ring only; counters and identity survive.
    pub fn clear_history(&mut self)
        ensures
            final(self)@ == (NetworkModel { history: Seq::empty(), ..old(self)@ }),
            final(self).server == old(self).server,
    {
        self.history.clear();
        assert(self.history@ =~= Seq::<HistoryEntry>::empty());
    }

    pub fn note_stale(&mut self, record_it: bool, attempt: u64)
        requires
            old(self).history@.len() <= NETWORK_HISTORY_CAP,
        ensures
            final(self)@ == note_stale(old(self)@, record_it, attempt),
            final(self).server == old(self).server,
    {
        self.counters.stale_events_ignored = sat_inc_exec(self.counters.stale_events_ignored);
        if record_it {
            self.push_history(HistoryEntry { attempt, kind: HistoryKind::Ignored });
        }
    }

    fn count_lifecycle(&mut self, e: HistoryEntry)
        requires
            old(self).history@.len() <= NETWORK_HISTORY_CAP,
        ensures
            final(self)@ == count_lifecycle(old(self)@, e),
            final(self).server == old(self).server,
    {
        self.counters.lifecycle_events = sat_inc_exec(self.counters.lifecycle_events);
        self.push_history(e);
    }

    /// Apply an event that is known to belong to the active attempt and to be
    /// legal in the current state.
    pub fn apply_trusted(&mut self, event: NetworkEvent)
        requires
            old(self).history@.len() <= NETWORK_HISTORY_CAP,
        ensures
            final(self)@ == apply_trusted(old(self)@, event),
            final(self).server == old(self).server,
    {
        let a = event.attempt_id().raw;
        match event {
            NetworkEvent::Connecting { .. } => {
                self.state = ConnectionState::Connecting;
                self.count_lifecycle(HistoryEntry { attempt: a, kind: HistoryKind::Connecting });
            },
            NetworkEvent::Handshaking { .. } => {
                self.state = ConnectionState::Handshaking;
                self.count_lifecycle(HistoryEntry { attempt: a, kind: HistoryKind::Handshaking });
            },
            NetworkEvent::Connected { connection_id, protocol_version, server_tick_rate, .. } => {
                self.state = ConnectionState::Connected;
                self.connection_id = Some(connection_id);
                self.protocol_version = Some(protocol_version);
                self.server_tick_rate = Some(server_tick_rate);
                self.connected_since = Some(self.counters.lifecycle_events);
                self.rtt = None;
                self.rtt_stats = RttStats { latest: None, samples: 0 };
                self.count_lifecycle(HistoryEntry { attempt: a, kind: HistoryKind::Connected });
            },
            NetworkEvent::Rejected { kind, .. } => {
                self.clear_session();
                self.state = ConnectionState::Rejected;
                self.last_failure = Some(kind);
                self.count_lifecycle(HistoryEntry { attempt: a, kind: HistoryKind::Rejected(kind) });
            },
            NetworkEvent::Disconnected { kind, .. } => {
                self.clear_session();
                self.state = ConnectionState::Disconnected;
                self.last_failure = Some(kind);
                self.count_lifecycle(
                    HistoryEntry { attempt: a, kind: HistoryKind::Disconnected(kind) },
                );
            },
            NetworkEvent::RttUpdated { rtt_micros, .. } => {
                self.rtt = Some(rtt_micros);
                self.rtt_stats = RttStats {
                    latest: Some(rtt_micros),
                    samples: sat_inc_exec(self.rtt_stats.samples),
                };
                self.counters.telemetry_events = sat_inc_exec(self.counters.telemetry_events);
            },
            NetworkEvent::Interact { .. } => {
                self.count_lifecycle(HistoryEntry { attempt: a, kind: HistoryKind::Interact });
            },
            NetworkEvent::Equipment { .. } => {
                self.count_lifecycle(HistoryEntry { attempt: a, kind: HistoryKind::Equipment });
            },
            NetworkEvent::PresentationOneShot { .. } => {
                self.count_lifecycle(
                    HistoryEntry { attempt: a, kind: HistoryKind::PresentationOneShot },
                );
            },
            NetworkEvent::Ability { .. } => {
                self.count_lifecycle(HistoryEntry { attempt: a, kind: HistoryKind::Ability });
            },
        }
    }

    pub fn snapshot(&self, screen: &str) -> (s: NetworkSnapshot)
        ensures
            s.screen@ == screen@,
            s.state == self.state,
            s.active_attempt == self.active_attempt.raw,
            s.connection_id == opt_conn_raw(self.connection_id),
            s.events_dropped == self.counters.dropped_telemetry,
            s.stale_events_ignored == self.counters.stale_events_ignored,
            s.lifecycle_events == self.counters.lifecycle_events,
            s.telemetry_events == self.counters.telemetry_events,
            s.history_len == self.history@.len(),
    {
        NetworkSnapshot {
            screen: screen.to_owned(),
            state: self.state,
            active_attempt: self.active_attempt.raw,
            connection_id: match self.connection_id {
                Some(c) => Some(c.raw),
                None => None,
            },
            events_dropped: self.counters.dropped_telemetry,
            stale_events_ignored: self.counters.stale_events_ignored,
            lifecycle_events: self.counters.lifecycle_events,
            telemetry_events: self.counters.telemetry_events,
            history_len: self.history.len(),
        }
    }
}

} // verus!
