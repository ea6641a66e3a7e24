//! Live-preview watch sessions.
//!
//! One `WatchSession` stands for one open live-preview connection: the
//! watched path, the last-acknowledged modification signature, and the
//! session's own cancellation flag. The session is a pure state
//! machine; the surrounding server owns the clock, the filesystem reads
//! and the connection, feeds each observation in, and performs the
//! returned action. Keeping every session's state its own makes
//! isolation between sessions structural: an observation for another
//! path never changes a session.
//!
//! Reload policy: a session re-arms after notifying. Debouncing is
//! leading-edge — the first changed signature of a burst is notified at
//! once, and further changes within one debounce window are absorbed
//! into the acknowledged signature, so an editor's multiple writes per
//! save collapse into a single notification.
//!
//! A vanished file (an unreadable observation) is a terminal
//! notification: the client is told to reload once — the re-render will
//! surface the missing document — and the session stops rather than
//! going idle forever.

use vstd::prelude::*;

verus! {

/// What the server must do after feeding an observation to a session.
#[derive(Clone, Copy, Debug, PartialEq, Eq, Structural)]
pub enum WatchAction {
    /// Nothing; keep polling.
    Ignore,
    /// Send one reload instruction to this session's client.
    Reload,
    /// Stop polling for this session and release it.
    Stop,
}

/// The mathematical state of a watch session.
pub struct WatchView {
    /// The watched document path.
    pub path: Seq<char>,
    /// The last-acknowledged modification signature.
    pub sig: u64,
    /// The debounce window, in the server's clock ticks.
    pub window: u64,
    /// When the client was last notified, if ever.
    pub last_notify: Option<u64>,
    /// Whether the session's connection has been cancelled.
    pub cancelled: bool,
    /// Whether the watched file was seen to have vanished.
    pub lost: bool,
}

/// Whether `now` still falls in the debounce window opened at the last
/// notification.
pub open spec fn within_window(last_notify: Option<u64>, now: u64, window: u64) -> bool {
    match last_notify {
        None => false,
        Some(t) => t <= now && now < t + window,
    }
}

/// The transition of one observation: the event's path, the time, and
/// the signature read from the path (`None` when unreadable). Returns
/// the next state and the action owed to the server.
///
/// Cancellation always wins; a lost target stays stopped; an event for
/// another path is ignored without touching the state; an unchanged
/// signature is ignored; a changed signature inside the debounce
/// window is absorbed; a changed signature outside it is notified and
/// re-arms the session.
pub open spec fn spec_observe(
    s: WatchView,
    event_path: Seq<char>,
    now: u64,
    observed: Option<u64>,
) -> (WatchView, WatchAction) {
    if s.cancelled {
        (s, WatchAction::Stop)
    } else if s.lost {
        (s, WatchAction::Stop)
    } else if event_path != s.path {
        (s, WatchAction::Ignore)
    } else {
        match observed {
            None => ((WatchView { lost: true, ..s }), WatchAction::Reload),
            Some(g) => {
                if g == s.sig {
                    (s, WatchAction::Ignore)
                } else if within_window(s.last_notify, now, s.window) {
                    ((WatchView { sig: g, ..s }), WatchAction::Ignore)
                } else {
                    ((WatchView { sig: g, last_notify: Some(now), ..s }), WatchAction::Reload)
                }
            },
        }
    }
}

/// One observation fed to a session: an event's path, time, and the
/// signature read at that moment.
pub struct WatchEvent {
    pub path: Seq<char>,
    pub now: u64,
    pub observed: Option<u64>,
}

/// The state after feeding a whole sequence of observations.
pub open spec fn spec_run(s: WatchView, events: Seq<WatchEvent>) -> WatchView
    decreases events.len(),
{
    if events.len() == 0 {
        s
    } else {
        spec_run(
            spec_observe(s, events[0].path, events[0].now, events[0].observed).0,
            events.drop_first(),
        )
    }
}

/// How many reload instructions a sequence of observations produces.
pub open spec fn spec_reload_count(s: WatchView, events: Seq<WatchEvent>) -> nat
    decreases events.len(),
{
    if events.len() == 0 {
        0
    } else {
        (if spec_observe(s, events[0].path, events[0].now, events[0].observed).1
            == WatchAction::Reload {
            1nat
        } else {
            0nat
        }) + spec_reload_count(
            spec_observe(s, events[0].path, events[0].now, events[0].observed).0,
            events.drop_first(),
        )
    }
}

/// Session isolation: observations for other paths never change a
/// session and never notify its client, however many there are.
pub proof fn lemma_session_isolation(s: WatchView, events: Seq<WatchEvent>)
    requires
        forall|i: int| 0 <= i < events.len() ==> (#[trigger] events[i].path) != s.path,
    ensures
        spec_run(s, events) == s,
        spec_reload_count(s, events) == 0,
    decreases events.len(),
{
    if events.len() != 0 {
        assert(events[0].path != s.path);
        assert(spec_observe(s, events[0].path, events[0].now, events[0].observed).0 == s);
        assert(forall|i: int| 0 <= i < events.drop_first().len()
            ==> (#[trigger] events.drop_first()[i].path) != s.path);
        lemma_session_isolation(s, events.drop_first());
    }
}

/// Cancellation wins from any state and is permanent: a cancelled
/// session is never changed by any observation and never notifies its
/// client again.
pub proof fn lemma_cancellation(s: WatchView, events: Seq<WatchEvent>)
    requires
        s.cancelled,
    ensures
        spec_run(s, events) == s,
        spec_reload_count(s, events) == 0,
    decreases events.len(),
{
    if events.len() != 0 {
        lemma_cancellation(s, events.drop_first());
    }
}

/// A cancelled session answers every observation with `Stop`.
pub proof fn lemma_cancelled_stops(s: WatchView, event_path: Seq<char>, now: u64, observed: Option<
    u64,
>)
    requires
        s.cancelled,
    ensures
        spec_observe(s, event_path, now, observed) == (s, WatchAction::Stop),
{
}

/// At most one notification per detected change: an observation whose
/// signature equals the acknowledged one never notifies.
pub proof fn lemma_no_duplicate_notification(
    s: WatchView,
    event_path: Seq<char>,
    now: u64,
)
    ensures
        spec_observe(s, event_path, now, Some(s.sig)).1 != WatchAction::Reload,
{
}

/// Debounce: three change events for the watched path inside one
/// debounce window produce exactly one reload notification — the first
/// one — however the signatures move.
pub proof fn lemma_watch_debounce(
    s: WatchView,
    t1: u64,
    t2: u64,
    t3: u64,
    g1: u64,
    g2: u64,
    g3: u64,
)
    requires
        !s.cancelled,
        !s.lost,
        s.last_notify is None,
        g1 != s.sig,
        t1 <= t2 <= t3,
        t3 < t1 + s.window,
    ensures
        ({
            let events = seq![
                WatchEvent { path: s.path, now: t1, observed: Some(g1) },
                WatchEvent { path: s.path, now: t2, observed: Some(g2) },
                WatchEvent { path: s.path, now: t3, observed: Some(g3) },
            ];
            &&& spec_reload_count(s, events) == 1
            &&& spec_observe(s, s.path, t1, Some(g1)).1 == WatchAction::Reload
        }),
{
    let e1 = WatchEvent { path: s.path, now: t1, observed: Some(g1) };
    let e2 = WatchEvent { path: s.path, now: t2, observed: Some(g2) };
    let e3 = WatchEvent { path: s.path, now: t3, observed: Some(g3) };
    let events = seq![e1, e2, e3];
    let s1 = spec_observe(s, s.path, t1, Some(g1)).0;
    assert(spec_observe(s, s.path, t1, Some(g1)).1 == WatchAction::Reload);
    assert(s1.last_notify == Some(t1) && s1.sig == g1 && s1.window == s.window && !s1.cancelled
        && !s1.lost && s1.path == s.path);
    let s2 = spec_observe(s1, s.path, t2, Some(g2)).0;
    assert(spec_observe(s1, s.path, t2, Some(g2)).1 != WatchAction::Reload) by {
        if g2 != s1.sig {
            assert(within_window(s1.last_notify, t2, s1.window));
        }
    }
    assert(s2.last_notify == Some(t1) && s2.window == s.window && !s2.cancelled && !s2.lost
        && s2.path == s.path);
    assert(spec_observe(s2, s.path, t3, Some(g3)).1 != WatchAction::Reload) by {
        if g3 != s2.sig {
            assert(within_window(s2.last_notify, t3, s2.window));
        }
    }
    assert(events.drop_first() =~= seq![e2, e3]);
    assert(seq![e2, e3].drop_first() =~= seq![e3]);
    assert(seq![e3].drop_first() =~= Seq::<WatchEvent>::empty());
    let s3 = spec_observe(s2, s.path, t3, Some(g3)).0;
    assert(spec_reload_count(s3, Seq::<WatchEvent>::empty()) == 0);
    assert(spec_reload_count(s2, seq![e3]) == 0);
    assert(spec_reload_count(s1, seq![e2, e3]) == 0);
    assert(spec_reload_count(s, events) == 1);
}

/// One live-preview connection's server-side state.
pub struct WatchSession {
    path: String,
    sig: u64,
    window: u64,
    last_notify: Option<u64>,
    cancelled: bool,
    lost: bool,
}

impl View for WatchSession {
    type V = WatchView;

    closed spec fn view(&self) -> WatchView {
        WatchView {
            path: self.path@,
            sig: self.sig,
            window: self.window,
            last_notify: self.last_notify,
            cancelled: self.cancelled,
            lost: self.lost,
        }
    }
}

impl WatchSession {
    /// Registers a session for one just-opened connection, capturing
    /// the watched path and the signature observed at session start.
    /// The session polls from the moment it is registered.
    pub fn new(path: String, initial_sig: u64, window: u64) -> (s: Self)
        ensures
            s@ == (WatchView {
                path: path@,
                sig: initial_sig,
                window,
                last_notify: None,
                cancelled: false,
                lost: false,
            }),
    {
        WatchSession { path, sig: initial_sig, window, last_notify: None, cancelled: false, lost: false }
    }

    /// Cancels the session: called when its connection closes, from any
    /// state, idempotently. The only authority that stops the session's
    /// polling.
    pub fn cancel(&mut self)
        ensures
            final(self)@ == (WatchView { cancelled: true, ..old(self)@ }),
    {
        self.cancelled = true;
    }

    /// Feeds one observation to the session and returns the action the
    /// server owes: exactly the `spec_observe` transition.
    pub fn observe(&mut self, event_path: &str, now: u64, observed: Option<u64>) -> (a: WatchAction)
        ensures
            final(self)@ == spec_observe(old(self)@, event_path@, now, observed).0,
            a == spec_observe(old(self)@, event_path@, now, observed).1,
    {
        if self.cancelled {
            return WatchAction::Stop;
        }
        if self.lost {
            return WatchAction::Stop;
        }
        if !crate::chars::str_eq(event_path, self.path.as_str()) {
            return WatchAction::Ignore;
        }
        match observed {
            None => {
                self.lost = true;
                WatchAction::Reload
            },
            Some(g) => {
                if g == self.sig {
                    WatchAction::Ignore
                } else {
                    let in_window = match self.last_notify {
                        None => false,
                        Some(t) => now >= t && now - t < self.window,
                    };
                    if in_window {
                        self.sig = g;
                        WatchAction::Ignore
                    } else {
                        self.sig = g;
                        self.last_notify = Some(now);
                        WatchAction::Reload
                    }
                }
            },
        }
    }

    /// The watched path.
    pub fn path(&self) -> (r: &str)
        ensures
            r@ == self@.path,
    {
        self.path.as_str()
    }

    /// Whether the session has been cancelled.
    pub fn is_cancelled(&self) -> (r: bool)
        ensures
            r == self@.cancelled,
    {
        self.cancelled
    }
}

} // verus!
