//! Top-level client screen vs network lifecycle.
//!
//! Invalid events are ignored, never panic. `RttUpdated` is legal only while
//! `Connected` and never changes the lifecycle. An event whose attempt id is
//! not the active attempt is ignored centrally in [`ClientLifecycle::apply`].

use vstd::prelude::*;

use crate::network::{
    apply_trusted, begin_connect, can_connect_state, event_attempt, event_is_lifecycle,
    fail_unsent, initial_model, invalidate_attempt, note_stale, record, sat_inc,
    session_active_state, view_wf, ConnectionAttemptId, ConnectionState, HistoryEntry,
    NetworkCounters, NetworkEvent, NetworkModel, NetworkSnapshot, NetworkView,
    NETWORK_HISTORY_CAP,
};

verus! {

/// What the user is viewing.
#[derive(Clone, Copy, Debug, PartialEq, Eq, Structural)]
pub enum ClientScreen {
    Connection,
    Game,
}

/// Screen + network view with legal transitions and attempt ownership.
pub struct ClientLifecycle {
    screen: ClientScreen,
    view: NetworkView,
    log_lifecycle: bool,
    log_verbose: bool,
}

pub struct LifecycleModel {
    pub screen: ClientScreen,
    pub view: NetworkModel,
    /// The server address the client connects to.
    pub server: Seq<char>,
    pub log_lifecycle: bool,
    pub log_verbose: bool,
}

impl ClientLifecycle {
    pub closed spec fn model(&self) -> LifecycleModel {
        LifecycleModel {
            screen: self.screen,
            view: self.view@,
            server: self.view.server@,
            log_lifecycle: self.log_lifecycle,
            log_verbose: self.log_verbose,
        }
    }
}

/// The Game screen is shown exactly while the session is Connected, and a
/// Game screen always has a connection id.
pub open spec fn screen_consistent(screen: ClientScreen, v: NetworkModel) -> bool {
    &&& screen == ClientScreen::Game ==> v.state == ConnectionState::Connected
        && v.connection_id is Some
    &&& v.state != ConnectionState::Connected ==> screen == ClientScreen::Connection
    &&& v.state == ConnectionState::Connected ==> screen == ClientScreen::Game
}

pub open spec fn lifecycle_wf(m: LifecycleModel) -> bool {
    view_wf(m.view) && screen_consistent(m.screen, m.view)
}

/// Which events the current connection state accepts.
pub open spec fn event_legal(state: ConnectionState, e: NetworkEvent) -> bool {
    match e {
        NetworkEvent::Connecting { .. } => state == ConnectionState::Connecting,
        NetworkEvent::Handshaking { .. } => state == ConnectionState::Connecting,
        NetworkEvent::Connected { .. } => state == ConnectionState::Handshaking,
        NetworkEvent::Rejected { .. } => state == ConnectionState::Handshaking,
        NetworkEvent::Disconnected { .. } => session_active_state(state),
        _ => state == ConnectionState::Connected,
    }
}

/// Derive the screen from the connection; a Connected view without an id is
/// sent back to the frontend.
pub open spec fn sync_screen(m: LifecycleModel) -> LifecycleModel {
    if m.view.state == ConnectionState::Connected && m.view.connection_id is None {
        LifecycleModel { screen: ClientScreen::Connection, view: fail_unsent(m.view), ..m }
    } else if m.view.state == ConnectionState::Connected {
        LifecycleModel { screen: ClientScreen::Game, ..m }
    } else {
        LifecycleModel { screen: ClientScreen::Connection, ..m }
    }
}

/// An event is stale when it carries no attempt or not the active one.
pub open spec fn event_stale(m: LifecycleModel, e: NetworkEvent) -> bool {
    event_attempt(e).raw == 0 || event_attempt(e).raw != m.view.active_attempt
}

pub open spec fn lifecycle_apply(m: LifecycleModel, e: NetworkEvent) -> LifecycleModel {
    let a = event_attempt(e).raw;
    if event_stale(m, e) {
        LifecycleModel {
            view: note_stale(m.view, m.log_verbose && event_is_lifecycle(e), a),
            ..m
        }
    } else if !event_legal(m.view.state, e) {
        LifecycleModel { view: note_stale(m.view, m.log_verbose, a), ..m }
    } else {
        sync_screen(LifecycleModel { view: apply_trusted(m.view, e), ..m })
    }
}

/// The client asked to disconnect: the attempt is retired and the frontend
/// shows.
pub open spec fn lifecycle_disconnect(m: LifecycleModel) -> LifecycleModel {
    LifecycleModel { screen: ClientScreen::Connection, view: invalidate_attempt(m.view), ..m }
}

/// One call a caller can make on a [`ClientLifecycle`].
pub enum LifecycleCall {
    BeginConnect,
    Apply(NetworkEvent),
    RequestDisconnect,
    FailUnsentConnect,
    SetEventsDropped(u64),
    SetLogFlags(bool, bool),
    ClearHistory,
}

/// The model after one call, as that call's contract gives it.
pub open spec fn lifecycle_step(m: LifecycleModel, c: LifecycleCall) -> LifecycleModel {
    match c {
        LifecycleCall::BeginConnect => match begin_connect(m.view) {
            Some(v) => LifecycleModel { screen: ClientScreen::Connection, view: v, ..m },
            None => m,
        },
        LifecycleCall::Apply(e) => lifecycle_apply(m, e),
        LifecycleCall::RequestDisconnect => lifecycle_disconnect(m),
        LifecycleCall::FailUnsentConnect => LifecycleModel {
            screen: ClientScreen::Connection,
            view: fail_unsent(m.view),
            ..m
        },
        LifecycleCall::SetEventsDropped(d) => LifecycleModel {
            view: NetworkModel {
                counters: NetworkCounters { dropped_telemetry: d, ..m.view.counters },
                ..m.view
            },
            ..m
        },
        LifecycleCall::SetLogFlags(l, v) => LifecycleModel { log_lifecycle: l, log_verbose: v, ..m },
        LifecycleCall::ClearHistory => LifecycleModel {
            view: NetworkModel { history: Seq::empty(), ..m.view },
            ..m
        },
    }
}

/// The model after a sequence of calls, first call first.
pub open spec fn lifecycle_run(m: LifecycleModel, calls: Seq<LifecycleCall>) -> LifecycleModel
    decreases calls.len(),
{
    if calls.len() == 0 {
        m
    } else {
        lifecycle_step(lifecycle_run(m, calls.drop_last()), calls.last())
    }
}

/// Two models that agree on everything but the log flags and the history
/// ring (which only verbose logging fills differently).
pub open spec fn agree_but_logging(a: LifecycleModel, b: LifecycleModel) -> bool {
    &&& a.screen == b.screen
    &&& a.server == b.server
    &&& NetworkModel { history: Seq::empty(), ..a.view } == NetworkModel {
        history: Seq::empty(),
        ..b.view
    }
}

pub open spec fn initial_lifecycle(server: Seq<char>) -> LifecycleModel {
    LifecycleModel {
        screen: ClientScreen::Connection,
        view: initial_model(),
        server,
        log_lifecycle: false,
        log_verbose: false,
    }
}

impl ClientLifecycle {
    pub closed spec fn wf(&self) -> bool {
        lifecycle_wf(self.model())
    }

    /// Starts on the Connection screen, disconnected, with no attempt, aimed
    /// at `server`.
    pub fn new(server: String) -> (life: Self)
        ensures
            life.model() == initial_lifecycle(server@),
            life.wf(),
    {
        ClientLifecycle {
            screen: ClientScreen::Connection,
            view: NetworkView::new(server),
            log_lifecycle: false,
            log_verbose: false,
        }
    }

    pub fn screen(&self) -> (s: ClientScreen)
        ensures
            s == self.model().screen,
    {
        self.screen
    }

    pub fn view(&self) -> (v: &NetworkView)
        ensures
            v@ == self.model().view,
            v.server@ == self.model().server,
    {
        &self.view
    }

    pub fn gameplay_actions_allowed(&self) -> (b: bool)
        ensures
            b == (self.model().screen == ClientScreen::Game),
    {
        self.screen == ClientScreen::Game
    }

    pub fn can_connect(&self) -> (b: bool)
        ensures
            b == can_connect_state(self.model().view.state),
    {
        self.view.can_connect()
    }

    /// New attempt id and Connecting. `None` if a session is already in progress.
    pub fn try_begin_connect(&mut self) -> (id: Option<ConnectionAttemptId>)
        requires
            old(self).wf(),
        ensures
            final(self).wf(),
            match begin_connect(old(self).model().view) {
                Some(v) => final(self).model() == (LifecycleModel {
                    screen: ClientScreen::Connection,
                    view: v,
                    ..old(self).model()
                }) && id == Some(ConnectionAttemptId { raw: v.active_attempt }),
                None => final(self).model() == old(self).model() && id is None,
            },
    {
        let id = self.view.try_begin_connect();
        if id.is_none() {
            return None;
        }
        self.screen = ClientScreen::Connection;
        id
    }

    /// Retire the active attempt immediately; the result says whether a
    /// Disconnect should be sent to the runtime.
    pub fn request_disconnect(&mut self) -> (should_send: bool)
        requires
            old(self).wf(),
        ensures
            final(self).wf(),
            should_send == (old(self).model().view.active_attempt != 0 || session_active_state(
                old(self).model().view.state,
            )),
            final(self).model() == lifecycle_disconnect(old(self).model()),
    {
        let should_send = !self.view.active_attempt.is_none() || self.view.state
            == ConnectionState::Connecting || self.view.state == ConnectionState::Handshaking
            || self.view.state == ConnectionState::Connected;
        self.view.invalidate_attempt();
        self.screen = ClientScreen::Connection;
        should_send
    }

    /// A connect command could not be handed to the runtime.
    pub fn fail_unsent_connect(&mut self)
        requires
            old(self).wf(),
        ensures
            final(self).wf(),
            final(self).model() == (LifecycleModel {
                screen: ClientScreen::Connection,
                view: fail_unsent(old(self).model().view),
                ..old(self).model()
            }),
    {
        self.view.fail_unsent_connect();
        self.screen = ClientScreen::Connection;
    }

    pub fn set_events_dropped(&mut self, dropped: u64)
        requires
            old(self).wf(),
        ensures
            final(self).wf(),
            final(self).model() == (LifecycleModel {
                view: NetworkModel {
                    counters: NetworkCounters {
                        dropped_telemetry: dropped,
                        ..old(self).model().view.counters
                    },
                    ..old(self).model().view
                },
                ..old(self).model()
            }),
    {
        self.view.set_dropped_telemetry(dropped);
    }

    pub fn set_log_flags(&mut self, lifecycle: bool, verbose: bool)
        requires
            old(self).wf(),
        ensures
            final(self).wf(),
            final(self).model() == (LifecycleModel {
                log_lifecycle: lifecycle,
                log_verbose: verbose,
                ..old(self).model()
            }),
    {
        self.log_lifecycle = lifecycle;
        self.log_verbose = verbose;
    }

    /// Clears the history ring only; counters and identity survive.
    pub fn clear_history(&mut self)
        requires
            old(self).wf(),
        ensures
            final(self).wf(),
            final(self).model() == (LifecycleModel {
                view: NetworkModel { history: Seq::empty(), ..old(self).model().view },
                ..old(self).model()
            }),
    {
        self.view.clear_history();
    }

    pub fn snapshot(&self) -> (s: NetworkSnapshot)
        ensures
            s.screen@ == (if self.model().screen == ClientScreen::Game {
                "Game"@
            } else {
                "Connection"@
            }),
            s.state == self.model().view.state,
            s.active_attempt == self.model().view.active_attempt,
            s.connection_id == self.model().view.connection_id,
            s.events_dropped == self.model().view.counters.dropped_telemetry,
            s.stale_events_ignored == self.model().view.counters.stale_events_ignored,
            s.lifecycle_events == self.model().view.counters.lifecycle_events,
            s.telemetry_events == self.model().view.counters.telemetry_events,
            s.history_len == self.model().view.history.len(),
    {
        let screen = match self.screen {
            ClientScreen::Connection => "Connection",
            ClientScreen::Game => "Game",
        };
        self.view.snapshot(screen)
    }

    /// Whether a lifecycle log line is due for `event` under the current flags.
    /// RTT telemetry is never logged.
    pub fn log_event(&self, event: &NetworkEvent) -> (due: bool)
        ensures
            due == ((self.model().log_lifecycle || self.model().log_verbose) && event_is_lifecycle(*event)),
    {
        (self.log_lifecycle || self.log_verbose) && event.is_lifecycle()
    }

    pub fn is_legal(&self, event: &NetworkEvent) -> (b: bool)
        ensures
            b == event_legal(self.model().view.state, *event),
    {
        let state = self.view.state;
        match *event {
            NetworkEvent::Connecting { .. } => state == ConnectionState::Connecting,
            NetworkEvent::Handshaking { .. } => state == ConnectionState::Connecting,
            NetworkEvent::Connected { .. } => state == ConnectionState::Handshaking,
            NetworkEvent::Rejected { .. } => state == ConnectionState::Handshaking,
            NetworkEvent::Disconnected { .. } => state == ConnectionState::Connecting || state
                == ConnectionState::Handshaking || state == ConnectionState::Connected,
            _ => state == ConnectionState::Connected,
        }
    }

    fn sync_screen(&mut self)
        requires
            view_wf(old(self).model().view),
        ensures
            final(self).model() == sync_screen(old(self).model()),
    {
        if self.view.state == ConnectionState::Connected && self.view.connection_id.is_none() {
            self.view.fail_unsent_connect();
            self.screen = ClientScreen::Connection;
        } else if self.view.state == ConnectionState::Connected {
            self.screen = ClientScreen::Game;
        } else {
            self.screen = ClientScreen::Connection;
        }
    }

    /// Central stale-event filter: an event of another attempt never mutates
    /// connection or screen state. Returns whether the event was accepted.
    pub fn apply(&mut self, event: NetworkEvent) -> (accepted: bool)
        requires
            old(self).wf(),
        ensures
            final(self).wf(),
            final(self).model() == lifecycle_apply(old(self).model(), event),
            accepted == (!event_stale(old(self).model(), event) && event_legal(
                old(self).model().view.state,
                event,
            )),
    {
        proof {
            lemma_apply_keeps_wf(self.model(), event);
        }
        let attempt_id = event.attempt_id();
        if attempt_id.is_none() || attempt_id.raw != self.view.active_attempt.raw {
            let record_it = self.log_verbose && event.is_lifecycle();
            self.view.note_stale(record_it, attempt_id.get());
            return false;
        }
        if !self.is_legal(&event) {
            let verbose = self.log_verbose;
            self.view.note_stale(verbose, attempt_id.get());
            return false;
        }
        self.view.apply_trusted(event);
        self.sync_screen();
        true
    }
}

/// Every event keeps a well-formed lifecycle well-formed: the history stays
/// bounded and the screen stays consistent with the connection.
pub proof fn lemma_apply_keeps_wf(m: LifecycleModel, e: NetworkEvent)
    requires
        lifecycle_wf(m),
    ensures
        lifecycle_wf(lifecycle_apply(m, e)),
{
}

/// A stale event (no attempt, or another attempt than the active one) never
/// changes the screen, the connection state, the active attempt or the
/// session; it only counts as ignored.
pub proof fn lemma_stale_event_is_inert(m: LifecycleModel, e: NetworkEvent)
    requires
        event_stale(m, e),
    ensures
        ({
            let r = lifecycle_apply(m, e);
            &&& r.screen == m.screen
            &&& r.view.state == m.view.state
            &&& r.view.active_attempt == m.view.active_attempt
            &&& r.view.connection_id == m.view.connection_id
            &&& r.view.rtt == m.view.rtt
            &&& r.view.last_failure == m.view.last_failure
            &&& r.view.counters.lifecycle_events == m.view.counters.lifecycle_events
            &&& r.view.counters.stale_events_ignored == sat_inc(
                m.view.counters.stale_events_ignored,
            )
        }),
{
}

/// Logging flags are observational: two lifecycles that differ only in their
/// flags reach the same screen, connection, session and counters on any event.
pub proof fn lemma_log_flags_never_change_lifecycle(
    m: LifecycleModel,
    e: NetworkEvent,
    lifecycle: bool,
    verbose: bool,
)
    ensures
        ({
            let quiet = lifecycle_apply(m, e);
            let loud = lifecycle_apply(
                LifecycleModel { log_lifecycle: lifecycle, log_verbose: verbose, ..m },
                e,
            );
            &&& quiet.screen == loud.screen
            &&& quiet.view.state == loud.view.state
            &&& quiet.view.active_attempt == loud.view.active_attempt
            &&& quiet.view.connection_id == loud.view.connection_id
            &&& quiet.view.rtt == loud.view.rtt
            &&& quiet.view.last_failure == loud.view.last_failure
            &&& quiet.view.counters == loud.view.counters
        }),
{
}

/// RTT telemetry never changes the screen or the connection state.
pub proof fn lemma_rtt_never_changes_state(m: LifecycleModel, e: NetworkEvent)
    requires
        lifecycle_wf(m),
        e is RttUpdated,
    ensures
        lifecycle_apply(m, e).screen == m.screen,
        lifecycle_apply(m, e).view.state == m.view.state,
        lifecycle_apply(m, e).view.connection_id == m.view.connection_id,
{
}

/// A new attempt id is larger than every id handed out before, so events of
/// earlier attempts are stale for it.
pub proof fn lemma_new_attempt_is_fresh(m: NetworkModel)
    requires
        view_wf(m),
        begin_connect(m) is Some,
    ensures
        begin_connect(m)->0.active_attempt > m.last_attempt,
        begin_connect(m)->0.active_attempt > m.active_attempt,
        begin_connect(m)->0.state == ConnectionState::Connecting,
        begin_connect(m)->0.connection_id is None,
{
}

/// Only a connected session with an id reaches the Game screen through an
/// event: entering Game requires the Welcome (Connected) event of the active
/// attempt while Handshaking.
pub proof fn lemma_game_entered_only_by_welcome(m: LifecycleModel, e: NetworkEvent)
    requires
        lifecycle_wf(m),
        m.screen == ClientScreen::Connection,
        lifecycle_apply(m, e).screen == ClientScreen::Game,
    ensures
        e is Connected,
        !event_stale(m, e),
        m.view.state == ConnectionState::Handshaking,
{
}

impl ClientLifecycle {
    /// What a well-formed lifecycle guarantees: the Game screen shows exactly
    /// while Connected; a connection id exists exactly while Connected; the
    /// active attempt was handed out; the history stays within its cap.
    pub proof fn lemma_wf_screen_rule(&self)
        requires
            self.wf(),
        ensures
            screen_consistent(self.model().screen, self.model().view),
            view_wf(self.model().view),
            (self.model().screen == ClientScreen::Game) == (self.model().view.state
                == ConnectionState::Connected),
            (self.model().view.connection_id is Some) == (self.model().view.state
                == ConnectionState::Connected),
    {
    }
}

/// A disconnect retires the attempt: the frontend shows, no attempt is
/// active and no connection id is held; any later event of the old attempt
/// is stale and changes neither screen, state nor connection id.
pub proof fn lemma_disconnect_retires_attempt(m: LifecycleModel, e: NetworkEvent)
    requires
        lifecycle_wf(m),
        event_attempt(e).raw == m.view.active_attempt,
    ensures
        ({
            let d = lifecycle_disconnect(m);
            let r = lifecycle_apply(d, e);
            &&& lifecycle_wf(d)
            &&& d.screen == ClientScreen::Connection
            &&& d.view.active_attempt == 0
            &&& d.view.connection_id is None
            &&& event_stale(d, e)
            &&& r.screen == d.screen
            &&& r.view.state == d.view.state
            &&& r.view.connection_id == d.view.connection_id
        }),
{
}

proof fn lemma_step_keeps_agreement(a: LifecycleModel, b: LifecycleModel, c: LifecycleCall)
    requires
        agree_but_logging(a, b),
    ensures
        agree_but_logging(lifecycle_step(a, c), lifecycle_step(b, c)),
{
    let va = NetworkModel { history: Seq::empty(), ..a.view };
    let vb = NetworkModel { history: Seq::empty(), ..b.view };
    assert(a.view.state == b.view.state && a.view.active_attempt == b.view.active_attempt
        && a.view.last_attempt == b.view.last_attempt && a.view.connection_id
        == b.view.connection_id && a.view.counters == b.view.counters) by {
        assert(va.state == vb.state);
        assert(va.active_attempt == vb.active_attempt);
        assert(va.last_attempt == vb.last_attempt);
        assert(va.connection_id == vb.connection_id);
        assert(va.counters == vb.counters);
    }
    assert(va.protocol_version == vb.protocol_version && va.server_tick_rate
        == vb.server_tick_rate && va.connected_since == vb.connected_since && va.rtt == vb.rtt
        && va.rtt_stats == vb.rtt_stats && va.last_failure == vb.last_failure);
}

/// The call is not an event the central filter turns away (stale or illegal).
pub open spec fn call_accepted(m: LifecycleModel, c: LifecycleCall) -> bool {
    match c {
        LifecycleCall::Apply(e) => !event_stale(m, e) && event_legal(m.view.state, e),
        _ => true,
    }
}

/// Every event applied along the run is current and legal when it arrives.
pub open spec fn run_accepted(m: LifecycleModel, calls: Seq<LifecycleCall>) -> bool
    decreases calls.len(),
{
    calls.len() == 0 || (run_accepted(m, calls.drop_last()) && call_accepted(
        lifecycle_run(m, calls.drop_last()),
        calls.last(),
    ))
}

proof fn lemma_step_keeps_history_len(a: LifecycleModel, b: LifecycleModel, c: LifecycleCall)
    requires
        agree_but_logging(a, b),
        a.view.history.len() == b.view.history.len(),
        call_accepted(a, c),
    ensures
        lifecycle_step(a, c).view.history.len() == lifecycle_step(b, c).view.history.len(),
{
    let va = NetworkModel { history: Seq::empty(), ..a.view };
    let vb = NetworkModel { history: Seq::empty(), ..b.view };
    assert(va.state == vb.state && va.active_attempt == vb.active_attempt
        && va.last_attempt == vb.last_attempt && va.connection_id == vb.connection_id
        && va.counters == vb.counters);
}

/// Logging flags are observational over whole runs: two lifecycles that
/// differ only in their log flags (and the history ring) reach the same
/// screen, connection state, attempt, connection id and counters after any
/// common sequence of calls; when every applied event is current and legal
/// and the histories start equally long (as from `new`), their histories
/// stay equally long too.
pub proof fn lemma_log_flags_never_change_runs(
    a: LifecycleModel,
    b: LifecycleModel,
    calls: Seq<LifecycleCall>,
)
    requires
        agree_but_logging(a, b),
    ensures
        agree_but_logging(lifecycle_run(a, calls), lifecycle_run(b, calls)),
        ({
            let ra = lifecycle_run(a, calls);
            let rb = lifecycle_run(b, calls);
            &&& ra.screen == rb.screen
            &&& ra.view.state == rb.view.state
            &&& ra.view.active_attempt == rb.view.active_attempt
            &&& ra.view.connection_id == rb.view.connection_id
            &&& ra.view.counters == rb.view.counters
        }),
        run_accepted(a, calls) && a.view.history.len() == b.view.history.len()
            ==> lifecycle_run(a, calls).view.history.len() == lifecycle_run(
            b,
            calls,
        ).view.history.len(),
    decreases calls.len(),
{
    if calls.len() > 0 {
        lemma_log_flags_never_change_runs(a, b, calls.drop_last());
        lemma_step_keeps_agreement(
            lifecycle_run(a, calls.drop_last()),
            lifecycle_run(b, calls.drop_last()),
            calls.last(),
        );
        if run_accepted(a, calls) && a.view.history.len() == b.view.history.len() {
            lemma_step_keeps_history_len(
                lifecycle_run(a, calls.drop_last()),
                lifecycle_run(b, calls.drop_last()),
                calls.last(),
            );
        }
    }
    let ra = lifecycle_run(a, calls);
    let rb = lifecycle_run(b, calls);
    let va = NetworkModel { history: Seq::empty(), ..ra.view };
    let vb = NetworkModel { history: Seq::empty(), ..rb.view };
    assert(va.state == vb.state && va.active_attempt == vb.active_attempt && va.connection_id
        == vb.connection_id && va.counters == vb.counters);
}

/// The law from a fresh start: two lifecycles made by `new` for the same
/// server, given any log flags and then the same calls, agree on screen,
/// state, attempt, connection id and counters; when every applied event is
/// current and legal, their histories are equally long as well.
pub proof fn lemma_fresh_lifecycles_ignore_log_flags(
    server: Seq<char>,
    flags_a: (bool, bool),
    flags_b: (bool, bool),
    calls: Seq<LifecycleCall>,
)
    ensures
        ({
            let a = LifecycleModel {
                log_lifecycle: flags_a.0,
                log_verbose: flags_a.1,
                ..initial_lifecycle(server)
            };
            let b = LifecycleModel {
                log_lifecycle: flags_b.0,
                log_verbose: flags_b.1,
                ..initial_lifecycle(server)
            };
            let ra = lifecycle_run(a, calls);
            let rb = lifecycle_run(b, calls);
            &&& ra.screen == rb.screen
            &&& ra.view.state == rb.view.state
            &&& ra.view.active_attempt == rb.view.active_attempt
            &&& ra.view.connection_id == rb.view.connection_id
            &&& ra.view.counters == rb.view.counters
            &&& run_accepted(a, calls) ==> ra.view.history.len() == rb.view.history.len()
        }),
{
    let a = LifecycleModel { log_lifecycle: flags_a.0, log_verbose: flags_a.1, ..initial_lifecycle(server) };
    let b = LifecycleModel { log_lifecycle: flags_b.0, log_verbose: flags_b.1, ..initial_lifecycle(server) };
    lemma_log_flags_never_change_runs(a, b, calls);
}

} // verus!
