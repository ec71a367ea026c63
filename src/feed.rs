use crate::record::TickerRecord;
use crate::subscription::default_subscription;
use crate::window::{
    filled, lemma_filled_keeps_most_recent, most_recent, pushed, DisplayWindow, WINDOW_CAPACITY,
};
use vstd::prelude::*;

verus! {

/// Where a feed connection stands.
#[derive(PartialEq, Eq, Structural, Clone, Copy, Debug)]
pub enum Phase {
    /// No connection yet.
    Disconnected,
    /// The handshake completed; the subscription is not sent yet.
    Connected,
    /// Subscribed: frames are read and displayed.
    Streaming,
    /// The connection failed or ended; nothing more happens on it.
    Closed,
}

/// What happened on the connection, as the driver of the session reports it.
pub enum FeedEvent {
    Connected,
    ConnectFailed,
    SubscriptionSent,
    SendFailed,
    /// A binary frame that decoded to a ticker record.
    Ticker(TickerRecord),
    /// A binary frame that did not decode to a ticker record.
    Malformed,
    /// A frame that is not binary (text, ping, pong, close).
    NonBinary,
    ReadFailed,
    /// The stream ended.
    Ended,
}

/// What the driver of the session is to do next.
pub enum FeedAction {
    /// Send this subscription text on the connection.
    SendSubscription(String),
    /// Start reading frames.
    Listen,
    /// Repaint the table from the window.
    Render,
    /// Report an undecodable frame and go on reading.
    ReportMalformed,
    /// Report a non-binary frame and go on reading.
    ReportNonBinary,
    /// Stop: the connection is over.
    Stop,
    /// Nothing to do: the event does not apply in this phase.
    Ignore,
}

/// The phase after `e` arrives in phase `p`.
pub open spec fn next_phase(p: Phase, e: FeedEvent) -> Phase {
    match (p, e) {
        (Phase::Disconnected, FeedEvent::Connected) => Phase::Connected,
        (Phase::Disconnected, FeedEvent::ConnectFailed) => Phase::Closed,
        (Phase::Connected, FeedEvent::SubscriptionSent) => Phase::Streaming,
        (Phase::Connected, FeedEvent::SendFailed) => Phase::Closed,
        (Phase::Streaming, FeedEvent::ReadFailed) => Phase::Closed,
        (Phase::Streaming, FeedEvent::Ended) => Phase::Closed,
        _ => p,
    }
}

/// The window after `e` arrives in phase `p` at window `w`: only a decoded
/// record while streaming changes it.
pub open spec fn next_window(p: Phase, w: Seq<TickerRecord>, e: FeedEvent) -> Seq<TickerRecord> {
    match e {
        FeedEvent::Ticker(r) => if p == Phase::Streaming {
            pushed(w, r)
        } else {
            w
        },
        _ => w,
    }
}

/// Whether `a` is the action owed when `e` arrives in phase `p`, for a
/// session whose subscription text is `sub`.
pub open spec fn is_next_action(p: Phase, e: FeedEvent, sub: Seq<char>, a: FeedAction) -> bool {
    match (p, e) {
        (Phase::Disconnected, FeedEvent::Connected) => a matches FeedAction::SendSubscription(t)
            && t@ == sub,
        (Phase::Disconnected, FeedEvent::ConnectFailed) => a is Stop,
        (Phase::Connected, FeedEvent::SubscriptionSent) => a is Listen,
        (Phase::Connected, FeedEvent::SendFailed) => a is Stop,
        (Phase::Streaming, FeedEvent::Ticker(_)) => a is Render,
        (Phase::Streaming, FeedEvent::Malformed) => a is ReportMalformed,
        (Phase::Streaming, FeedEvent::NonBinary) => a is ReportNonBinary,
        (Phase::Streaming, FeedEvent::ReadFailed) => a is Stop,
        (Phase::Streaming, FeedEvent::Ended) => a is Stop,
        _ => a is Ignore,
    }
}

/// Phase and window after the events `evs`, in order, starting from phase `p`
/// and window `w`.
pub open spec fn replay(p: Phase, w: Seq<TickerRecord>, evs: Seq<FeedEvent>) -> (Phase, Seq<TickerRecord>)
    decreases evs.len(),
{
    if evs.len() == 0 {
        (p, w)
    } else {
        let (q, v) = replay(p, w, evs.drop_last());
        (next_phase(q, evs.last()), next_window(q, v, evs.last()))
    }
}

/// An event that a frame read while streaming can give.
pub open spec fn is_frame_event(e: FeedEvent) -> bool {
    e is Ticker || e is Malformed || e is NonBinary
}

/// The decoded records among `evs`, in order.
pub open spec fn tickers_of(evs: Seq<FeedEvent>) -> Seq<TickerRecord>
    decreases evs.len(),
{
    if evs.len() == 0 {
        Seq::empty()
    } else {
        match evs.last() {
            FeedEvent::Ticker(r) => tickers_of(evs.drop_last()).push(r),
            _ => tickers_of(evs.drop_last()),
        }
    }
}

/// Reading any sequence of frames while streaming keeps the session
/// streaming, and leaves on display exactly the most recent decoded records
/// (at most the window's capacity of them) in arrival order: malformed and
/// non-binary frames change nothing.
pub proof fn lemma_frames_show_most_recent(evs: Seq<FeedEvent>)
    requires
        forall|i: int| 0 <= i < evs.len() ==> is_frame_event(#[trigger] evs[i]),
    ensures
        replay(Phase::Streaming, Seq::empty(), evs) == (Phase::Streaming, most_recent(tickers_of(evs))),
        replay(Phase::Streaming, Seq::empty(), evs).1.len() == if tickers_of(evs).len()
            <= WINDOW_CAPACITY {
            tickers_of(evs).len()
        } else {
            WINDOW_CAPACITY as nat
        },
    decreases evs.len(),
{
    if evs.len() > 0 {
        let p = evs.drop_last();
        assert forall|i: int| 0 <= i < p.len() implies is_frame_event(#[trigger] p[i]) by {
            assert(p[i] == evs[i]);
        }
        lemma_frames_show_most_recent(p);
        lemma_filled_keeps_most_recent(tickers_of(p));
        assert(is_frame_event(evs[evs.len() - 1]));
        let t = tickers_of(evs);
        if evs.last() is Ticker {
            assert(t.drop_last() =~= tickers_of(p));
            assert(filled(t) == pushed(filled(tickers_of(p)), t.last()));
        }
        lemma_filled_keeps_most_recent(t);
    }
    lemma_filled_keeps_most_recent(tickers_of(evs));
}

/// A malformed or non-binary frame read while streaming changes neither the
/// window nor the phase: reading goes on.
pub proof fn lemma_skipped_frame_keeps_state(w: Seq<TickerRecord>, e: FeedEvent)
    requires
        e is Malformed || e is NonBinary,
    ensures
        next_phase(Phase::Streaming, e) == Phase::Streaming,
        next_window(Phase::Streaming, w, e) == w,
{
}

/// One feed connection: its phase, its subscription text and its display window.
pub struct FeedSession {
    phase: Phase,
    subscription: String,
    window: DisplayWindow,
}

impl FeedSession {
    pub closed spec fn phase_spec(&self) -> Phase {
        self.phase
    }

    pub closed spec fn subscription_spec(&self) -> Seq<char> {
        self.subscription@
    }

    pub closed spec fn window_spec(&self) -> Seq<TickerRecord> {
        self.window@
    }

    pub closed spec fn wf(&self) -> bool {
        self.window.wf()
    }

    /// A session that has not connected yet, which will send `subscription`
    /// once it has.
    pub fn new(subscription: String) -> (s: FeedSession)
        ensures
            s.wf(),
            s.phase_spec() == Phase::Disconnected,
            s.subscription_spec() == subscription@,
            s.window_spec() == Seq::<TickerRecord>::empty(),
    {
        FeedSession { phase: Phase::Disconnected, subscription, window: DisplayWindow::new() }
    }

    /// A session for the single default symbol on the ticker channel.
    pub fn with_default_subscription() -> (s: FeedSession)
        ensures
            s.wf(),
            s.phase_spec() == Phase::Disconnected,
            s.subscription_spec()
                == "[{\"ticket\":\"test\"},{\"type\":\"ticker\",\"codes\":[\"KRW-BTC\"]}]"@,
            s.window_spec() == Seq::<TickerRecord>::empty(),
    {
        FeedSession::new(default_subscription())
    }

    pub fn phase(&self) -> (p: Phase)
        ensures
            p == self.phase_spec(),
    {
        self.phase
    }

    /// The records on display, oldest first.
    pub fn records(&self) -> (v: &Vec<TickerRecord>)
        ensures
            v@ == self.window_spec(),
    {
        self.window.records()
    }

    /// Takes one event of the connection and says what to do next.
    pub fn handle(&mut self, e: FeedEvent) -> (a: FeedAction)
        requires
            old(self).wf(),
        ensures
            final(self).wf(),
            final(self).phase_spec() == next_phase(old(self).phase_spec(), e),
            final(self).window_spec() == next_window(old(self).phase_spec(), old(self).window_spec(), e),
            final(self).subscription_spec() == old(self).subscription_spec(),
            is_next_action(old(self).phase_spec(), e, old(self).subscription_spec(), a),
    {
        match (self.phase, e) {
            (Phase::Disconnected, FeedEvent::Connected) => {
                self.phase = Phase::Connected;
                FeedAction::SendSubscription(self.subscription.clone())
            },
            (Phase::Disconnected, FeedEvent::ConnectFailed) => {
                self.phase = Phase::Closed;
                FeedAction::Stop
            },
            (Phase::Connected, FeedEvent::SubscriptionSent) => {
                self.phase = Phase::Streaming;
                FeedAction::Listen
            },
            (Phase::Connected, FeedEvent::SendFailed) => {
                self.phase = Phase::Closed;
                FeedAction::Stop
            },
            (Phase::Streaming, FeedEvent::Ticker(r)) => {
                self.window.push(r);
                FeedAction::Render
            },
            (Phase::Streaming, FeedEvent::Malformed) => FeedAction::ReportMalformed,
            (Phase::Streaming, FeedEvent::NonBinary) => FeedAction::ReportNonBinary,
            (Phase::Streaming, FeedEvent::ReadFailed) => {
                self.phase = Phase::Closed;
                FeedAction::Stop
            },
            (Phase::Streaming, FeedEvent::Ended) => {
                self.phase = Phase::Closed;
                FeedAction::Stop
            },
            _ => FeedAction::Ignore,
        }
    }
}

} // verus!
